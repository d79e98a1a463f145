//! Splitting text into lines the way `str::lines` does: at `\n`, with a
//! preceding `\r` removed, and with no empty line after a final line ending.
use vstd::prelude::*;

verus! {

/// Index of the first `\n` in `s`, if any.
pub open spec fn first_newline(s: Seq<char>) -> Option<int>
    decreases s.len(),
{
    if s.len() == 0 {
        None
    } else if s[0] == '\n' {
        Some(0)
    } else {
        match first_newline(s.drop_first()) {
            Some(j) => Some(j + 1),
            None => None,
        }
    }
}

/// A line that ended in `\r\n` loses its `\r`.
pub open spec fn strip_cr(line: Seq<char>) -> Seq<char> {
    if line.len() > 0 && line.last() == '\r' {
        line.drop_last()
    } else {
        line
    }
}

/// The lines of `s`, as `str::lines` yields them.
pub open spec fn text_lines(s: Seq<char>) -> Seq<Seq<char>>
    decreases s.len(),
{
    match first_newline(s) {
        None => if s.len() == 0 {
            Seq::empty()
        } else {
            seq![s]
        },
        Some(i) => if 0 <= i < s.len() {
            seq![strip_cr(s.subrange(0, i))] + text_lines(s.subrange(i + 1, s.len() as int))
        } else {
            Seq::empty()
        },
    }
}

proof fn lemma_first_newline_at(s: Seq<char>, k: int)
    requires
        0 <= k < s.len(),
        s[k] == '\n',
        forall|j: int| 0 <= j < k ==> s[j] != '\n',
    ensures
        first_newline(s) == Some(k),
    decreases k,
{
    if k > 0 {
        lemma_first_newline_at(s.drop_first(), k - 1);
    }
}

proof fn lemma_no_newline(s: Seq<char>)
    requires
        forall|j: int| 0 <= j < s.len() ==> s[j] != '\n',
    ensures
        first_newline(s) is None,
    decreases s.len(),
{
    if s.len() > 0 {
        lemma_no_newline(s.drop_first());
    }
}

fn copy_line(v: &[char], from: usize, to: usize, strip: bool) -> (r: Vec<char>)
    requires
        from <= to <= v@.len(),
    ensures
        strip ==> r@ == strip_cr(v@.subrange(from as int, to as int)),
        !strip ==> r@ == v@.subrange(from as int, to as int),
{
    let mut end = to;
    if strip && end > from && v[end - 1] == '\r' {
        end = end - 1;
    }
    let mut r: Vec<char> = Vec::new();
    let mut i: usize = from;
    while i < end
        invariant
            from <= i <= end,
            end <= v@.len(),
            r@ == v@.subrange(from as int, i as int),
        decreases end - i,
    {
        r.push(v[i]);
        i = i + 1;
        assert(r@ =~= v@.subrange(from as int, i as int));
    }
    if to > from {
        assert(v@.subrange(from as int, to as int).drop_last() =~= v@.subrange(
            from as int,
            (to - 1) as int,
        ));
    }
    r
}

/// The lines of the character sequence `v`.
pub fn split_lines(v: &[char]) -> (lines: Vec<Vec<char>>)
    ensures
        lines@.len() == text_lines(v@).len(),
        forall|i: int| 0 <= i < lines@.len() ==> #[trigger] lines@[i]@ == text_lines(v@)[i],
{
    let n = v.len();
    let mut lines: Vec<Vec<char>> = Vec::new();
    let mut start: usize = 0;
    let ghost mut done: Seq<Seq<char>> = Seq::empty();
    assert(v@.subrange(0, n as int) =~= v@);
    assert(done + text_lines(v@) =~= text_lines(v@));
    while start < n
        invariant
            n == v@.len(),
            start <= n,
            lines@.len() == done.len(),
            forall|i: int| 0 <= i < lines@.len() ==> #[trigger] lines@[i]@ == done[i],
            text_lines(v@) == done + text_lines(v@.subrange(start as int, n as int)),
        decreases n - start,
    {
        let ghost rest = v@.subrange(start as int, n as int);
        let mut i: usize = start;
        while i < n && v[i] != '\n'
            invariant
                n == v@.len(),
                start <= i <= n,
                forall|j: int| start <= j < i ==> v@[j] != '\n',
            decreases n - i,
        {
            i = i + 1;
        }
        let line = copy_line(v, start, i, i < n);
        proof {
            if i < n {
                lemma_first_newline_at(rest, i - start);
                assert(rest.subrange(0, i - start) =~= v@.subrange(start as int, i as int));
                assert(rest.subrange(i - start + 1, rest.len() as int) =~= v@.subrange(
                    i + 1,
                    n as int,
                ));
            } else {
                lemma_no_newline(rest);
                assert(rest =~= v@.subrange(start as int, i as int));
                assert(v@.subrange(n as int, n as int) =~= Seq::<char>::empty());
                assert(text_lines(Seq::<char>::empty()) =~= Seq::<Seq<char>>::empty());
            }
            done = done.push(line@);
        }
        lines.push(line);
        if i < n {
            start = i + 1;
        } else {
            start = n;
        }
        proof {
            assert(done + text_lines(v@.subrange(start as int, n as int)) =~= text_lines(v@)) by {
                assert(text_lines(v@) == done.drop_last() + text_lines(rest));
            }
        }
    }
    proof {
        assert(v@.subrange(n as int, n as int) =~= Seq::<char>::empty());
        assert(text_lines(Seq::<char>::empty()) =~= Seq::<Seq<char>>::empty());
        assert(done + Seq::<Seq<char>>::empty() =~= done);
    }
    lines
}

} // verus!
