//! The product version string of a build, stamped with its git commit.
use vstd::prelude::*;

use crate::text::{append, chars_of, push_char, str_eq};

verus! {

pub open spec fn dirty_suffix() -> Seq<char> {
    "-dirty"@
}

pub open spec fn ends_with(s: Seq<char>, suffix: Seq<char>) -> bool {
    s.len() >= suffix.len() && s.subrange(s.len() - suffix.len(), s.len() as int) == suffix
}

pub open spec fn take_chars(s: Seq<char>, n: int) -> Seq<char> {
    if s.len() <= n {
        s
    } else {
        s.subrange(0, n)
    }
}

/// `version` alone for a development or unknown commit; otherwise
/// `version+g<first twelve characters of the commit>`, with `.dirty` appended
/// when the commit carries the `-dirty` marker.
pub open spec fn spec_command_version(version: Seq<char>, build_commit: Seq<char>) -> Seq<char> {
    if build_commit == "dev"@ || build_commit == "unknown"@ {
        version
    } else if ends_with(build_commit, dirty_suffix()) {
        version + "+g"@ + take_chars(
            build_commit.subrange(0, build_commit.len() - dirty_suffix().len()),
            12,
        ) + ".dirty"@
    } else {
        version + "+g"@ + take_chars(build_commit, 12)
    }
}

fn push_all(s: &mut String, v: &Vec<char>, from: usize, to: usize)
    requires
        from <= to <= v@.len(),
    ensures
        final(s)@ == old(s)@ + v@.subrange(from as int, to as int),
{
    let mut i: usize = from;
    let ghost start = s@;
    while i < to
        invariant
            from <= i <= to,
            to <= v@.len(),
            s@ == start + v@.subrange(from as int, i as int),
        decreases to - i,
    {
        push_char(s, v[i]);
        i = i + 1;
        assert(s@ =~= start + v@.subrange(from as int, i as int));
    }
}

pub fn command_version(version: &str, build_commit: &str) -> (r: String)
    ensures
        r@ == spec_command_version(version@, build_commit@),
{
    let mut out = String::new();
    append(&mut out, version);
    assert(out@ =~= version@);
    if str_eq(build_commit, "dev") || str_eq(build_commit, "unknown") {
        return out;
    }
    let c = chars_of(build_commit);
    let suffix = chars_of("-dirty");
    let n = c.len();
    let m = suffix.len();
    let mut dirty = n >= m;
    let mut i: usize = 0;
    while dirty && i < m
        invariant
            c@ == build_commit@,
            suffix@ == dirty_suffix(),
            n == c@.len(),
            m == suffix@.len(),
            i <= m,
            dirty ==> n >= m,
            dirty ==> forall|j: int| 0 <= j < i ==> c@[n - m + j] == suffix@[j],
            !dirty ==> !ends_with(c@, suffix@),
        decreases m - i,
    {
        if c[n - m + i] != suffix[i] {
            dirty = false;
            assert(c@.subrange(n - m, n as int)[i as int] != suffix@[i as int]);
        }
        i = i + 1;
    }
    if dirty {
        assert(c@.subrange(n - m, n as int) =~= suffix@);
    }
    let end = if dirty {
        n - m
    } else {
        n
    };
    let short_end = if end <= 12 {
        end
    } else {
        12
    };
    append(&mut out, "+g");
    push_all(&mut out, &c, 0, short_end);
    proof {
        assert(take_chars(c@.subrange(0, end as int), 12) =~= c@.subrange(0, short_end as int));
        if !dirty {
            assert(c@.subrange(0, end as int) =~= c@);
        }
    }
    if dirty {
        append(&mut out, ".dirty");
    }
    out
}

/// The commit a build is stamped with: the `-dirty` marker is added for a
/// dirty tree unless the commit is unknown to git.
pub open spec fn spec_build_commit(commit: Seq<char>, dirty: bool) -> Seq<char> {
    if dirty && commit != "dev"@ {
        commit + dirty_suffix()
    } else {
        commit
    }
}

pub fn build_commit(commit: &str, dirty: bool) -> (r: String)
    ensures
        r@ == spec_build_commit(commit@, dirty),
{
    let mut out = String::new();
    append(&mut out, commit);
    assert(out@ =~= commit@);
    if dirty && !str_eq(commit, "dev") {
        append(&mut out, "-dirty");
    }
    out
}

/// A build from a dirty tree is always marked dirty in its version, which
/// carries the first twelve characters of the commit.
pub proof fn lemma_dirty_build_is_marked(version: Seq<char>, commit: Seq<char>)
    requires
        commit != "dev"@,
    ensures
        spec_command_version(version, spec_build_commit(commit, true)) == version + "+g"@
            + take_chars(commit, 12) + ".dirty"@,
{
    let b = spec_build_commit(commit, true);
    reveal_strlit("-dirty");
    reveal_strlit("dev");
    reveal_strlit("unknown");
    assert(b.len() == commit.len() + 6);
    assert(b != "dev"@) by {
        if b == "dev"@ {
            assert(b.len() == 3);
        }
    }
    assert(b != "unknown"@) by {
        if b == "unknown"@ {
            assert(b.len() == 7);
            assert(commit.len() == 1);
            assert(b[1] == 'n');
            assert(b[1] == '-');
        }
    }
    assert(b.subrange(b.len() - 6, b.len() as int) =~= dirty_suffix());
    assert(b.subrange(0, b.len() - 6) =~= commit);
}

} // verus!
