//! Canonical evidence reference lists: sorted by code point order with
//! duplicates removed, as `sort` followed by `dedup` leaves them.
use vstd::prelude::*;

use crate::text::chars_of;

verus! {

/// Lexicographic order on character sequences by code point, the order of
/// `String`'s `Ord`.
pub open spec fn str_lt(a: Seq<char>, b: Seq<char>) -> bool
    decreases a.len(),
{
    if a.len() == 0 {
        b.len() > 0
    } else if b.len() == 0 {
        false
    } else if a[0] != b[0] {
        a[0] < b[0]
    } else {
        str_lt(a.drop_first(), b.drop_first())
    }
}

pub proof fn lemma_str_lt_irreflexive(a: Seq<char>)
    ensures
        !str_lt(a, a),
    decreases a.len(),
{
    if a.len() > 0 {
        lemma_str_lt_irreflexive(a.drop_first());
    }
}

pub proof fn lemma_str_lt_total(a: Seq<char>, b: Seq<char>)
    ensures
        a == b || str_lt(a, b) || str_lt(b, a),
    decreases a.len(),
{
    if a.len() > 0 && b.len() > 0 {
        if a[0] == b[0] {
            lemma_str_lt_total(a.drop_first(), b.drop_first());
            if a.drop_first() == b.drop_first() {
                assert(a =~= seq![a[0]] + a.drop_first());
                assert(b =~= seq![b[0]] + b.drop_first());
            }
        }
    } else if a.len() == 0 && b.len() == 0 {
        assert(a =~= b);
    }
}

pub proof fn lemma_str_lt_asymmetric(a: Seq<char>, b: Seq<char>)
    ensures
        str_lt(a, b) ==> !str_lt(b, a),
    decreases a.len(),
{
    if a.len() > 0 && b.len() > 0 && a[0] == b[0] {
        lemma_str_lt_asymmetric(a.drop_first(), b.drop_first());
    }
}

pub proof fn lemma_str_lt_transitive(a: Seq<char>, b: Seq<char>, c: Seq<char>)
    requires
        str_lt(a, b),
        str_lt(b, c),
    ensures
        str_lt(a, c),
    decreases a.len(),
{
    if a.len() > 0 && b.len() > 0 && c.len() > 0 {
        if a[0] == b[0] && b[0] == c[0] {
            lemma_str_lt_transitive(a.drop_first(), b.drop_first(), c.drop_first());
        }
    }
}

fn chars_lt(a: &Vec<char>, b: &Vec<char>) -> (r: bool)
    ensures
        r == str_lt(a@, b@),
{
    let mut i: usize = 0;
    assert(a@.subrange(0, a@.len() as int) =~= a@);
    assert(b@.subrange(0, b@.len() as int) =~= b@);
    while i < a.len() && i < b.len() && a[i] == b[i]
        invariant
            i <= a@.len(),
            i <= b@.len(),
            str_lt(a@, b@) == str_lt(a@.subrange(i as int, a@.len() as int), b@.subrange(
                i as int,
                b@.len() as int,
            )),
        decreases a@.len() - i,
    {
        proof {
            let sa = a@.subrange(i as int, a@.len() as int);
            let sb = b@.subrange(i as int, b@.len() as int);
            assert(sa.drop_first() =~= a@.subrange(i + 1, a@.len() as int));
            assert(sb.drop_first() =~= b@.subrange(i + 1, b@.len() as int));
        }
        i = i + 1;
    }
    proof {
        assert(a@.subrange(0, a@.len() as int) =~= a@);
        assert(b@.subrange(0, b@.len() as int) =~= b@);
    }
    if i == a.len() {
        i < b.len()
    } else if i == b.len() {
        false
    } else {
        proof {
            assert(a@.subrange(i as int, a@.len() as int)[0] == a@[i as int]);
            assert(b@.subrange(i as int, b@.len() as int)[0] == b@[i as int]);
        }
        a[i] < b[i]
    }
}

/// Whether `s` is strictly increasing, hence free of duplicates.
pub open spec fn strictly_sorted(s: Seq<Seq<char>>) -> bool {
    forall|i: int, j: int| 0 <= i < j < s.len() ==> str_lt(#[trigger] s[i], #[trigger] s[j])
}

/// `x` inserted into a strictly sorted `s` unless already present.
pub open spec fn insert_ref(s: Seq<Seq<char>>, x: Seq<char>) -> Seq<Seq<char>>
    decreases s.len(),
{
    if s.len() == 0 {
        seq![x]
    } else if s[0] == x {
        s
    } else if str_lt(x, s[0]) {
        seq![x] + s
    } else {
        seq![s[0]] + insert_ref(s.drop_first(), x)
    }
}

/// The canonical form of an evidence reference list: its distinct
/// references in increasing order.
pub open spec fn canonical_refs(refs: Seq<Seq<char>>) -> Seq<Seq<char>>
    decreases refs.len(),
{
    if refs.len() == 0 {
        Seq::empty()
    } else {
        insert_ref(canonical_refs(refs.drop_last()), refs.last())
    }
}

proof fn lemma_insert_ref(s: Seq<Seq<char>>, x: Seq<char>)
    requires
        strictly_sorted(s),
    ensures
        strictly_sorted(insert_ref(s, x)),
        forall|y: Seq<char>| #[trigger] insert_ref(s, x).contains(y) <==> (s.contains(y) || y == x),
    decreases s.len(),
{
    if s.len() == 0 {
        assert forall|y: Seq<char>| #[trigger] insert_ref(s, x).contains(y) <==> (s.contains(y)
            || y == x) by {
            if y == x {
                assert(insert_ref(s, x)[0] == y);
            }
        }
    } else {
        lemma_str_lt_total(x, s[0]);
        if s[0] == x {
            assert(s.contains(x));
        } else if str_lt(x, s[0]) {
            let r = seq![x] + s;
            assert forall|i: int, j: int| 0 <= i < j < r.len() implies str_lt(
                #[trigger] r[i],
                #[trigger] r[j],
            ) by {
                if i == 0 {
                    if j > 1 {
                        assert(str_lt(s[0], s[j - 1]));
                        lemma_str_lt_transitive(x, s[0], s[j - 1]);
                    }
                } else {
                    assert(r[i] == s[i - 1] && r[j] == s[j - 1]);
                }
            }
            assert forall|y: Seq<char>| #[trigger] r.contains(y) <==> (s.contains(y) || y == x) by {
                if r.contains(y) {
                    let k = choose|k: int| 0 <= k < r.len() && r[k] == y;
                    if k > 0 {
                        assert(s[k - 1] == y);
                    }
                }
                if s.contains(y) {
                    let k = choose|k: int| 0 <= k < s.len() && s[k] == y;
                    assert(r[k + 1] == y);
                }
                if y == x {
                    assert(r[0] == y);
                }
            }
        } else {
            let t = s.drop_first();
            assert(strictly_sorted(t));
            lemma_insert_ref(t, x);
            let it = insert_ref(t, x);
            let r = seq![s[0]] + it;
            assert forall|i: int, j: int| 0 <= i < j < r.len() implies str_lt(
                #[trigger] r[i],
                #[trigger] r[j],
            ) by {
                if i == 0 {
                    assert(it.contains(r[j])) by {
                        assert(it[j - 1] == r[j]);
                    }
                    if r[j] == x {
                    } else {
                        assert(t.contains(r[j]));
                        let k = choose|k: int| 0 <= k < t.len() && t[k] == r[j];
                        assert(s[k + 1] == r[j]);
                    }
                } else {
                    assert(r[i] == it[i - 1] && r[j] == it[j - 1]);
                }
            }
            assert forall|y: Seq<char>| #[trigger] r.contains(y) <==> (s.contains(y) || y == x) by {
                if r.contains(y) {
                    let k = choose|k: int| 0 <= k < r.len() && r[k] == y;
                    if k > 0 {
                        assert(it.contains(y)) by {
                            assert(it[k - 1] == y);
                        }
                        if t.contains(y) {
                            let m = choose|m: int| 0 <= m < t.len() && t[m] == y;
                            assert(s[m + 1] == y);
                        }
                    } else {
                        assert(s[0] == y);
                    }
                }
                if s.contains(y) {
                    let k = choose|k: int| 0 <= k < s.len() && s[k] == y;
                    if k == 0 {
                        assert(r[0] == y);
                    } else {
                        assert(t[k - 1] == y);
                        assert(t.contains(y));
                        assert(it.contains(y));
                        let m = choose|m: int| 0 <= m < it.len() && it[m] == y;
                        assert(r[m + 1] == y);
                    }
                }
                if y == x {
                    assert(it.contains(y));
                    let m = choose|m: int| 0 <= m < it.len() && it[m] == y;
                    assert(r[m + 1] == y);
                }
            }
        }
    }
}

/// The canonical form is strictly increasing and holds exactly the references
/// of the list.
pub proof fn lemma_canonical_refs(refs: Seq<Seq<char>>)
    ensures
        strictly_sorted(canonical_refs(refs)),
        forall|y: Seq<char>| #[trigger] canonical_refs(refs).contains(y) <==> refs.contains(y),
    decreases refs.len(),
{
    if refs.len() > 0 {
        let prefix = refs.drop_last();
        lemma_canonical_refs(prefix);
        lemma_insert_ref(canonical_refs(prefix), refs.last());
        assert forall|y: Seq<char>| #[trigger] canonical_refs(refs).contains(y) <==> refs.contains(
            y,
        ) by {
            if prefix.contains(y) {
                let k = choose|k: int| 0 <= k < prefix.len() && prefix[k] == y;
                assert(refs[k] == y);
            }
            if refs.contains(y) && y != refs.last() {
                let k = choose|k: int| 0 <= k < refs.len() && refs[k] == y;
                assert(prefix[k] == y);
            }
            if y == refs.last() {
                assert(refs[refs.len() - 1] == y);
            }
        }
    } else {
        assert(canonical_refs(refs) =~= Seq::<Seq<char>>::empty());
    }
}

fn insert_canonical(out: &mut Vec<String>, x: String)
    requires
        strictly_sorted(old(out).deep_view()),
    ensures
        final(out).deep_view() == insert_ref(old(out).deep_view(), x@),
        strictly_sorted(final(out).deep_view()),
{
    proof {
        lemma_insert_ref(out.deep_view(), x@);
    }
    let xc = chars_of(x.as_str());
    let ghost s = out.deep_view();
    let mut i: usize = 0;
    assert(s.subrange(0, s.len() as int) =~= s);
    assert(s.subrange(0, 0) + insert_ref(s, x@) =~= insert_ref(s, x@));
    while i < out.len()
        invariant
            i <= out@.len(),
            out.deep_view() == s,
            s == old(out).deep_view(),
            strictly_sorted(insert_ref(s, x@)),
            s.len() == out@.len(),
            xc@ == x@,
            strictly_sorted(s),
            insert_ref(s, x@) == s.subrange(0, i as int) + insert_ref(
                s.subrange(i as int, s.len() as int),
                x@,
            ),
        decreases out@.len() - i,
    {
        let rest = Ghost(s.subrange(i as int, s.len() as int));
        assert(rest@[0] == s[i as int]);
        assert(s[i as int] == out@[i as int]@);
        if out[i] == x {
            assert(insert_ref(rest@, x@) == rest@);
            assert(s.subrange(0, i as int) + rest@ =~= s);
            return;
        }
        let ci = chars_of(out[i].as_str());
        if chars_lt(&xc, &ci) {
            assert(insert_ref(rest@, x@) == seq![x@] + rest@);
            out.insert(i, x);
            proof {
                assert(out.deep_view() =~= s.subrange(0, i as int) + insert_ref(rest@, x@));
            }
            return;
        }
        proof {
            assert(insert_ref(rest@, x@) == seq![rest@[0]] + insert_ref(rest@.drop_first(), x@));
            assert(rest@.drop_first() =~= s.subrange(i + 1, s.len() as int));
            assert(s.subrange(0, i as int) + seq![s[i as int]] =~= s.subrange(0, i + 1));
            assert(s.subrange(0, i as int) + (seq![rest@[0]] + insert_ref(rest@.drop_first(), x@))
                =~= s.subrange(0, i + 1) + insert_ref(rest@.drop_first(), x@));
        }
        i = i + 1;
    }
    out.push(x);
    proof {
        assert(s.subrange(i as int, s.len() as int) =~= Seq::<Seq<char>>::empty());
        assert(s.subrange(0, i as int) =~= s);
        assert(out.deep_view() =~= s + seq![x@]);
    }
}

/// The canonical form of `refs`, as sorting and removing duplicates gives it.
pub fn canonicalize_refs(refs: Vec<String>) -> (out: Vec<String>)
    ensures
        out.deep_view() == canonical_refs(refs.deep_view()),
{
    let mut out: Vec<String> = Vec::new();
    let mut i: usize = 0;
    let ghost input = refs.deep_view();
    assert(out.deep_view() =~= Seq::<Seq<char>>::empty());
    while i < refs.len()
        invariant
            i <= refs@.len(),
            input == refs.deep_view(),
            input.len() == refs@.len(),
            out.deep_view() == canonical_refs(input.subrange(0, i as int)),
            strictly_sorted(out.deep_view()),
        decreases refs@.len() - i,
    {
        let x = refs[i].clone();
        insert_canonical(&mut out, x);
        proof {
            let next = input.subrange(0, i + 1);
            assert(next.drop_last() =~= input.subrange(0, i as int));
            assert(next.last() == input[i as int]);
        }
        i = i + 1;
    }
    assert(input.subrange(0, i as int) =~= input);
    out
}

/// Element-wise equality of two reference lists.
pub fn refs_equal(a: &Vec<String>, b: &Vec<String>) -> (r: bool)
    ensures
        r == (a.deep_view() == b.deep_view()),
{
    if a.len() != b.len() {
        assert(a.deep_view().len() != b.deep_view().len());
        return false;
    }
    let mut i: usize = 0;
    while i < a.len()
        invariant
            i <= a@.len(),
            a@.len() == b@.len(),
            a.deep_view().len() == a@.len(),
            b.deep_view().len() == b@.len(),
            forall|j: int| 0 <= j < i ==> a.deep_view()[j] == b.deep_view()[j],
        decreases a@.len() - i,
    {
        assert(a.deep_view()[i as int] == a@[i as int]@);
        assert(b.deep_view()[i as int] == b@[i as int]@);
        if a[i] != b[i] {
            return false;
        }
        i = i + 1;
    }
    assert(a.deep_view() =~= b.deep_view());
    true
}

pub fn clone_refs(a: &Vec<String>) -> (r: Vec<String>)
    ensures
        r.deep_view() == a.deep_view(),
{
    let mut r: Vec<String> = Vec::new();
    let mut i: usize = 0;
    while i < a.len()
        invariant
            i <= a@.len(),
            r@.len() == i,
            forall|j: int| 0 <= j < i ==> #[trigger] r@[j] == a@[j],
        decreases a@.len() - i,
    {
        r.push(a[i].clone());
        i = i + 1;
    }
    assert(r.deep_view() =~= a.deep_view());
    r
}

proof fn lemma_insert_greatest(s: Seq<Seq<char>>, x: Seq<char>)
    requires
        strictly_sorted(s),
        forall|i: int| 0 <= i < s.len() ==> str_lt(#[trigger] s[i], x),
    ensures
        insert_ref(s, x) == s.push(x),
    decreases s.len(),
{
    if s.len() > 0 {
        lemma_str_lt_irreflexive(x);
        lemma_str_lt_asymmetric(s[0], x);
        let t = s.drop_first();
        assert forall|i: int, j: int| 0 <= i < j < t.len() implies str_lt(#[trigger] t[i], #[trigger] t[j]) by {
            assert(t[i] == s[i + 1] && t[j] == s[j + 1]);
        }
        assert forall|i: int| 0 <= i < t.len() implies str_lt(#[trigger] t[i], x) by {
            assert(t[i] == s[i + 1]);
        }
        lemma_insert_greatest(t, x);
        assert(seq![s[0]] + t.push(x) =~= s.push(x));
    }
}

/// A canonical list is its own canonical form.
pub proof fn lemma_canonical_refs_idempotent(refs: Seq<Seq<char>>)
    requires
        strictly_sorted(refs),
    ensures
        canonical_refs(refs) == refs,
    decreases refs.len(),
{
    if refs.len() > 0 {
        let prefix = refs.drop_last();
        assert forall|i: int, j: int| 0 <= i < j < prefix.len() implies str_lt(
            #[trigger] prefix[i],
            #[trigger] prefix[j],
        ) by {
            assert(prefix[i] == refs[i] && prefix[j] == refs[j]);
        }
        lemma_canonical_refs_idempotent(prefix);
        assert forall|i: int| 0 <= i < prefix.len() implies str_lt(#[trigger] prefix[i], refs.last()) by {
            assert(prefix[i] == refs[i]);
        }
        lemma_insert_greatest(prefix, refs.last());
        assert(prefix.push(refs.last()) =~= refs);
    }
}

} // verus!
