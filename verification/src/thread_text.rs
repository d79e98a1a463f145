//! Thread ids as the wire spells them: the canonical lowercase hyphenated
//! UUID that names a thread, and the UUID spellings a reported id may take
//! (32 hex digits, hyphenated, braced, or as a `urn:uuid:` URN).
use vstd::prelude::*;

use crate::evidence::ThreadId;
use crate::text::{chars_of, str_eq, string_of};

verus! {

pub open spec fn hex_alphabet() -> Seq<char> {
    "0123456789abcdef"@
}

/// The lowercase hex digit of `d`, for `d < 16`.
pub open spec fn hex_char(d: nat) -> char {
    hex_alphabet()[d as int]
}

pub open spec fn is_hex(c: char) -> bool {
    ||| '0' <= c <= '9'
    ||| 'a' <= c <= 'f'
    ||| 'A' <= c <= 'F'
}

/// The value of a hex digit, in either case.
pub open spec fn hex_val(c: char) -> nat {
    if '0' <= c <= '9' {
        (c as int - '0' as int) as nat
    } else if 'a' <= c <= 'f' {
        (c as int - 'a' as int + 10) as nat
    } else {
        (c as int - 'A' as int + 10) as nat
    }
}

pub open spec fn all_hex(s: Seq<char>) -> bool {
    forall|j: int| 0 <= j < s.len() ==> #[trigger] is_hex(s[j])
}

/// The number that a string of hex digits writes, most significant first.
pub open spec fn hex_value(s: Seq<char>) -> nat
    decreases s.len(),
{
    if s.len() == 0 {
        0
    } else {
        hex_value(s.drop_last()) * 16 + hex_val(s.last())
    }
}

pub open spec fn pow16(n: nat) -> nat
    decreases n,
{
    if n == 0 {
        1
    } else {
        16 * pow16((n - 1) as nat)
    }
}

/// The `n` low hex digits of `x`, most significant first.
pub open spec fn hex_digits(x: nat, n: nat) -> Seq<char>
    decreases n,
{
    if n == 0 {
        Seq::empty()
    } else {
        hex_digits(x / 16, (n - 1) as nat).push(hex_char(x % 16))
    }
}

/// The five groups of hex digits of a hyphenated UUID that starts at `o`.
pub open spec fn hyphenated_digits(s: Seq<char>, o: int) -> Seq<char> {
    s.subrange(o, o + 8) + s.subrange(o + 9, o + 13) + s.subrange(o + 14, o + 18) + s.subrange(
        o + 19,
        o + 23,
    ) + s.subrange(o + 24, o + 36)
}

pub open spec fn hyphens_at(s: Seq<char>, o: int) -> bool {
    s[o + 8] == '-' && s[o + 13] == '-' && s[o + 18] == '-' && s[o + 23] == '-'
}

/// The 32 hex-digit positions of a UUID spelling, by its length: simple,
/// hyphenated, braced hyphenated, or a `urn:uuid:` URN.
pub open spec fn uuid_digits(s: Seq<char>) -> Option<Seq<char>> {
    if s.len() == 32 {
        Some(s)
    } else if s.len() == 36 && hyphens_at(s, 0) {
        Some(hyphenated_digits(s, 0))
    } else if s.len() == 38 && s[0] == '{' && s[37] == '}' && hyphens_at(s, 1) {
        Some(hyphenated_digits(s, 1))
    } else if s.len() == 45 && s.subrange(0, 9) == "urn:uuid:"@ && hyphens_at(s, 9) {
        Some(hyphenated_digits(s, 9))
    } else {
        None
    }
}

/// The thread a reported id names, if it is a UUID spelling.
pub open spec fn spec_parse_thread_id(s: Seq<char>) -> Option<ThreadId> {
    match uuid_digits(s) {
        Some(d) => if all_hex(d) {
            Some(ThreadId { raw: hex_value(d) as u128 })
        } else {
            None
        },
        None => None,
    }
}

/// The canonical spelling of a thread id: lowercase, hyphenated.
pub open spec fn thread_id_text(id: ThreadId) -> Seq<char> {
    let h = hex_digits(id.raw as nat, 32);
    h.subrange(0, 8) + seq!['-'] + h.subrange(8, 12) + seq!['-'] + h.subrange(12, 16) + seq!['-']
        + h.subrange(16, 20) + seq!['-'] + h.subrange(20, 32)
}

proof fn lemma_hex_digits_len(x: nat, n: nat)
    ensures
        hex_digits(x, n).len() == n,
    decreases n,
{
    if n > 0 {
        lemma_hex_digits_len(x / 16, (n - 1) as nat);
    }
}

proof fn lemma_pow16_mono(i: nat, j: nat)
    requires
        i <= j,
    ensures
        pow16(i) <= pow16(j),
    decreases j,
{
    if i < j {
        lemma_pow16_mono(i, (j - 1) as nat);
    }
}

fn hex_char_of(d: u128) -> (c: char)
    requires
        d < 16,
    ensures
        c == hex_char(d as nat),
{
    let alphabet = "0123456789abcdef";
    proof {
        reveal_strlit("0123456789abcdef");
    }
    alphabet.get_char(d as usize)
}

fn hex_val_of(c: char) -> (r: Option<u128>)
    ensures
        match r {
            Some(v) => is_hex(c) && v == hex_val(c) && v < 16,
            None => !is_hex(c),
        },
{
    let n = c as u32;
    if '0' <= c && c <= '9' {
        Some((n - 48) as u128)
    } else if 'a' <= c && c <= 'f' {
        Some((n - 87) as u128)
    } else if 'A' <= c && c <= 'F' {
        Some((n - 55) as u128)
    } else {
        None
    }
}

fn hex_digits_of(x: u128, n: usize) -> (v: Vec<char>)
    ensures
        v@ == hex_digits(x as nat, n as nat),
    decreases n,
{
    if n == 0 {
        Vec::new()
    } else {
        let mut v = hex_digits_of(x / 16, n - 1);
        v.push(hex_char_of(x % 16));
        v
    }
}

fn push_range(v: &mut Vec<char>, s: &Vec<char>, from: usize, to: usize)
    requires
        from <= to <= s@.len(),
    ensures
        final(v)@ == old(v)@ + s@.subrange(from as int, to as int),
{
    let ghost start = v@;
    let mut i: usize = from;
    while i < to
        invariant
            from <= i <= to,
            to <= s@.len(),
            v@ == start + s@.subrange(from as int, i as int),
        decreases to - i,
    {
        v.push(s[i]);
        i = i + 1;
        assert(v@ =~= start + s@.subrange(from as int, i as int));
    }
}

/// The canonical spelling of a thread id: lowercase, hyphenated.
pub fn thread_id_string(id: ThreadId) -> (s: String)
    ensures
        s@ == thread_id_text(id),
{
    let h = hex_digits_of(id.raw, 32);
    proof {
        lemma_hex_digits_len(id.raw as nat, 32);
    }
    let mut v: Vec<char> = Vec::new();
    push_range(&mut v, &h, 0, 8);
    v.push('-');
    push_range(&mut v, &h, 8, 12);
    v.push('-');
    push_range(&mut v, &h, 12, 16);
    v.push('-');
    push_range(&mut v, &h, 16, 20);
    v.push('-');
    push_range(&mut v, &h, 20, 32);
    assert(v@ =~= thread_id_text(id));
    string_of(v.as_slice(), 0, v.len())
}

fn hyphens_at_exec(s: &Vec<char>, o: usize) -> (b: bool)
    requires
        o <= 9,
        o + 36 <= s@.len(),
    ensures
        b == hyphens_at(s@, o as int),
{
    s[o + 8] == '-' && s[o + 13] == '-' && s[o + 18] == '-' && s[o + 23] == '-'
}

fn hyphenated_digits_exec(s: &Vec<char>, o: usize) -> (d: Vec<char>)
    requires
        o <= 9,
        o + 36 <= s@.len(),
    ensures
        d@ == hyphenated_digits(s@, o as int),
{
    let mut d: Vec<char> = Vec::new();
    push_range(&mut d, s, o, o + 8);
    push_range(&mut d, s, o + 9, o + 13);
    push_range(&mut d, s, o + 14, o + 18);
    push_range(&mut d, s, o + 19, o + 23);
    push_range(&mut d, s, o + 24, o + 36);
    assert(d@ =~= hyphenated_digits(s@, o as int));
    d
}

fn uuid_digits_exec(s: &Vec<char>) -> (r: Option<Vec<char>>)
    ensures
        match r {
            Some(d) => uuid_digits(s@) == Some(d@),
            None => uuid_digits(s@) is None,
        },
{
    let n = s.len();
    if n == 32 {
        let mut d: Vec<char> = Vec::new();
        push_range(&mut d, s, 0, 32);
        assert(d@ =~= s@);
        Some(d)
    } else if n == 36 && hyphens_at_exec(s, 0) {
        Some(hyphenated_digits_exec(s, 0))
    } else if n == 38 && s[0] == '{' && s[37] == '}' && hyphens_at_exec(s, 1) {
        Some(hyphenated_digits_exec(s, 1))
    } else if n == 45 && str_eq(string_of(s.as_slice(), 0, 9).as_str(), "urn:uuid:")
        && hyphens_at_exec(s, 9) {
        Some(hyphenated_digits_exec(s, 9))
    } else {
        None
    }
}

fn hex_number(d: &Vec<char>) -> (r: Option<u128>)
    requires
        d@.len() == 32,
    ensures
        match r {
            Some(v) => all_hex(d@) && v == hex_value(d@),
            None => !all_hex(d@),
        },
{
    let mut v: u128 = 0;
    let mut i: usize = 0;
    assert(pow16(32) == 0x1_0000_0000_0000_0000_0000_0000_0000_0000) by {
        reveal_with_fuel(pow16, 33);
    }
    while i < 32
        invariant
            d@.len() == 32,
            i <= 32,
            v == hex_value(d@.take(i as int)),
            v < pow16(i as nat),
            all_hex(d@.take(i as int)),
            pow16(32) == 0x1_0000_0000_0000_0000_0000_0000_0000_0000,
        decreases 32 - i,
    {
        let digit = match hex_val_of(d[i]) {
            Some(x) => x,
            None => {
                assert(!is_hex(d@[i as int]));
                return None;
            },
        };
        proof {
            lemma_pow16_mono((i + 1) as nat, 32);
            assert(d@.take(i + 1).drop_last() =~= d@.take(i as int));
            assert(d@.take(i + 1).last() == d@[i as int]);
        }
        v = v * 16 + digit;
        i = i + 1;
        assert(all_hex(d@.take(i as int))) by {
            assert forall|j: int| 0 <= j < i implies #[trigger] is_hex(d@.take(i as int)[j]) by {
                if j < i - 1 {
                    assert(d@.take(i as int)[j] == d@.take(i - 1)[j]);
                }
            }
        }
    }
    assert(d@.take(32) =~= d@);
    Some(v)
}

/// Reads a reported thread id in any UUID spelling, digits in either case;
/// `None` when it is none.
pub fn parse_thread_id(text: &str) -> (r: Option<ThreadId>)
    ensures
        r == spec_parse_thread_id(text@),
{
    let chars = chars_of(text);
    let digits = match uuid_digits_exec(&chars) {
        Some(d) => d,
        None => return None,
    };
    match hex_number(&digits) {
        Some(raw) => Some(ThreadId { raw }),
        None => None,
    }
}

proof fn lemma_hex_char(d: nat)
    requires
        d < 16,
    ensures
        is_hex(hex_char(d)),
        hex_val(hex_char(d)) == d,
{
    reveal_strlit("0123456789abcdef");
    assert(hex_alphabet() =~= seq![
        '0', '1', '2', '3', '4', '5', '6', '7', '8', '9', 'a', 'b', 'c', 'd', 'e', 'f',
    ]);
}

proof fn lemma_hex_digits_value(x: nat, n: nat)
    ensures
        hex_digits(x, n).len() == n,
        all_hex(hex_digits(x, n)),
        hex_value(hex_digits(x, n)) == x % pow16(n),
    decreases n,
{
    if n == 0 {
        assert(x % 1 == 0);
    } else {
        let h = hex_digits(x, n);
        let t = hex_digits(x / 16, (n - 1) as nat);
        let p = pow16((n - 1) as nat);
        lemma_hex_digits_value(x / 16, (n - 1) as nat);
        lemma_hex_char(x % 16);
        assert(h.drop_last() =~= t);
        assert(p > 0) by {
            lemma_pow16_mono(0, (n - 1) as nat);
        }
        vstd::arithmetic::div_mod::lemma_mod_breakdown(x as int, 16, p as int);
        assert forall|j: int| 0 <= j < h.len() implies #[trigger] is_hex(h[j]) by {
            if j < n - 1 {
                assert(h[j] == t[j]);
            }
        }
    }
}

/// A thread's canonical spelling reads back as that thread.
pub proof fn lemma_thread_id_text_round_trip(id: ThreadId)
    ensures
        spec_parse_thread_id(thread_id_text(id)) == Some(id),
{
    let x = id.raw as nat;
    let h = hex_digits(x, 32);
    lemma_hex_digits_value(x, 32);
    let s = thread_id_text(id);
    assert(s.len() == 36);
    assert(hyphens_at(s, 0));
    assert(hyphenated_digits(s, 0) =~= h);
    assert(pow16(32) == 0x1_0000_0000_0000_0000_0000_0000_0000_0000) by {
        reveal_with_fuel(pow16, 33);
    }
    vstd::arithmetic::div_mod::lemma_small_mod(x, pow16(32));
}

} // verus!
