//! The authority header on the first user-supplied Worker assignment.
//!
//! Authority is recognized only when the first non-blank line is exactly the
//! `[adaptive_worker]` table. The table must end at a blank line so ordinary
//! assignment prose can never be read as TOML authority.
use vstd::prelude::*;

use crate::lines::{split_lines, text_lines};
use crate::text::{append, chars_of, is_blank, push_char, str_eq, string_from, trim, trimmed};
use crate::worker::{
    AdaptiveWorkerContext, AdaptiveWorkerRole, WorkerContextView, parse_new_worker_role,
    spec_parse_role,
};

verus! {

/// The table of string fields that `toml::from_str` reads from a TOML
/// document whose top-level values are all tables of strings, each table as
/// its (key, value) pairs; or the text of the error it reports.
pub uninterp spec fn toml_string_tables(text: Seq<char>) -> Result<
    Seq<(Seq<char>, Seq<(Seq<char>, Seq<char>)>)>,
    Seq<char>,
>;

/// Calls `toml::from_str` to read `text` as a map from table names to maps
/// from keys to string values, and hands the maps back as pairs. The contract
/// claims only that the outcome, the pairs or the error's text, is a function
/// of `text`; which documents parse is left to the toml crate.
#[verifier::external_body]
fn parse_toml_string_tables(text: &str) -> (r: Result<Vec<(String, Vec<(String, String)>)>, String>)
    ensures
        match r {
            Ok(doc) => toml_string_tables(text@) == Ok::<
                Seq<(Seq<char>, Seq<(Seq<char>, Seq<char>)>)>,
                Seq<char>,
            >(doc.deep_view()),
            Err(e) => toml_string_tables(text@) == Err::<
                Seq<(Seq<char>, Seq<(Seq<char>, Seq<char>)>)>,
                Seq<char>,
            >(e@),
        },
{
    toml::from_str::<
        std::collections::BTreeMap<String, std::collections::BTreeMap<String, String>>,
    >(text).map(|doc| doc.into_iter().map(|(name, table)| (name, table.into_iter().collect())).collect()).map_err(
        |err| err.to_string(),
    )
}

pub open spec fn header_line() -> Seq<char> {
    "[adaptive_worker]"@
}

pub open spec fn delimiter_message() -> Seq<char> {
    "[adaptive_worker] must be followed by a blank line before the Worker assignment"@
}

pub open spec fn empty_body_message() -> Seq<char> {
    "Worker assignment body must not be empty"@
}

pub open spec fn header_prefix() -> Seq<char> {
    "invalid [adaptive_worker] header: "@
}

pub open spec fn fields_message() -> Seq<char> {
    "expected exactly the string fields `role` and `authorized_scope` in [adaptive_worker]"@
}

pub open spec fn empty_scope_message() -> Seq<char> {
    "adaptive Worker authorized_scope must not be empty"@
}

pub open spec fn role_message(role: Seq<char>) -> Seq<char> {
    "invalid adaptive Worker role `"@ + role + "`; expected implementation, validation, or repair"@
}

pub open spec fn blank(s: Seq<char>) -> bool {
    trim(s).len() == 0
}

/// Index of the first non-blank line at or after `from`.
pub open spec fn first_non_blank(lines: Seq<Seq<char>>, from: int) -> Option<int>
    decreases lines.len() - from,
{
    if from < 0 || from >= lines.len() {
        None
    } else if !blank(lines[from]) {
        Some(from)
    } else {
        first_non_blank(lines, from + 1)
    }
}

/// Index of the first blank line at or after `from`.
pub open spec fn first_blank(lines: Seq<Seq<char>>, from: int) -> Option<int>
    decreases lines.len() - from,
{
    if from < 0 || from >= lines.len() {
        None
    } else if blank(lines[from]) {
        Some(from)
    } else {
        first_blank(lines, from + 1)
    }
}

/// Each line followed by a line feed.
pub open spec fn join_lines(lines: Seq<Seq<char>>) -> Seq<char>
    decreases lines.len(),
{
    if lines.len() == 0 {
        Seq::empty()
    } else {
        join_lines(lines.drop_last()) + lines.last() + seq!['\n']
    }
}

/// The value of `key` in a table of string fields.
pub open spec fn field(table: Seq<(Seq<char>, Seq<char>)>, key: Seq<char>) -> Option<Seq<char>>
    decreases table.len(),
{
    if table.len() == 0 {
        None
    } else if table[0].0 == key {
        Some(table[0].1)
    } else {
        field(table.drop_first(), key)
    }
}

/// The `role` and `authorized_scope` of a header document: it must hold the
/// one table `adaptive_worker`, with exactly those two fields.
pub open spec fn header_fields(doc: Seq<(Seq<char>, Seq<(Seq<char>, Seq<char>)>)>) -> Option<
    (Seq<char>, Seq<char>),
> {
    if doc.len() == 1 && doc[0].0 == "adaptive_worker"@ && (forall|i: int|
        0 <= i < doc[0].1.len() ==> #[trigger] doc[0].1[i].0 == "role"@ || doc[0].1[i].0
            == "authorized_scope"@) && field(doc[0].1, "role"@) is Some && field(
        doc[0].1,
        "authorized_scope"@,
    ) is Some {
        Some((field(doc[0].1, "role"@)->0, field(doc[0].1, "authorized_scope"@)->0))
    } else {
        None
    }
}

/// What a parsed header document grants: the Worker context named by its
/// `role` and `authorized_scope` fields, or the error that refuses it.
pub open spec fn spec_assignment_from_tables(
    doc: Seq<(Seq<char>, Seq<(Seq<char>, Seq<char>)>)>,
) -> Result<Option<WorkerContextView>, Seq<char>> {
    match header_fields(doc) {
        None => Err(header_prefix() + fields_message()),
        Some((role, scope)) => match spec_parse_role(role) {
            None => Err(role_message(role)),
            Some(r) => if blank(scope) {
                Err(empty_scope_message())
            } else {
                Ok(Some(WorkerContextView { role: r, authorized_scope: Some(trim(scope)) }))
            },
        },
    }
}

/// What `parse_adaptive_worker_assignment` answers for `text`.
pub open spec fn spec_parse_assignment(text: Seq<char>) -> Result<
    Option<WorkerContextView>,
    Seq<char>,
> {
    let lines = text_lines(text);
    match first_non_blank(lines, 0) {
        None => Ok(None),
        Some(k) => if trim(lines[k]) != header_line() {
            Ok(None)
        } else {
            match first_blank(lines, k + 1) {
                None => Err(delimiter_message()),
                Some(d) => if forall|j: int| d < j < lines.len() ==> #[trigger] blank(lines[j]) {
                    Err(empty_body_message())
                } else {
                    let header = header_line() + seq!['\n'] + join_lines(lines.subrange(k + 1, d));
                    match toml_string_tables(header) {
                        Err(e) => Err(header_prefix() + e),
                        Ok(doc) => spec_assignment_from_tables(doc),
                    }
                },
            }
        },
    }
}

pub open spec fn assignment_view(r: Result<Option<AdaptiveWorkerContext>, String>) -> Result<
    Option<WorkerContextView>,
    Seq<char>,
> {
    match r {
        Ok(Some(c)) => Ok(Some(c@)),
        Ok(None) => Ok(None),
        Err(e) => Err(e@),
    }
}

fn append_chars(s: &mut String, v: &Vec<char>)
    ensures
        final(s)@ == old(s)@ + v@,
{
    let mut i: usize = 0;
    let ghost start = s@;
    while i < v.len()
        invariant
            i <= v@.len(),
            s@ == start + v@.subrange(0, i as int),
        decreases v@.len() - i,
    {
        push_char(s, v[i]);
        i = i + 1;
        assert(s@ =~= start + v@.subrange(0, i as int));
    }
    assert(v@.subrange(0, i as int) =~= v@);
}

fn chars_blank(v: &Vec<char>) -> (r: bool)
    ensures
        r == blank(v@),
{
    let s = string_from_chars(v);
    is_blank(s.as_str())
}

fn string_from_chars(v: &Vec<char>) -> (s: String)
    ensures
        s@ == v@,
{
    let mut s = String::new();
    append_chars(&mut s, v);
    assert(s@ =~= v@);
    s
}

fn field_value(table: &Vec<(String, String)>, key: &str) -> (r: Option<String>)
    ensures
        crate::worker::opt_str_view(r) == field(table.deep_view(), key@),
{
    let mut i: usize = 0;
    assert(table.deep_view().subrange(0, table@.len() as int) =~= table.deep_view());
    while i < table.len()
        invariant
            i <= table@.len(),
            table.deep_view().len() == table@.len(),
            field(table.deep_view(), key@) == field(
                table.deep_view().subrange(i as int, table@.len() as int),
                key@,
            ),
        decreases table@.len() - i,
    {
        let ghost rest = table.deep_view().subrange(i as int, table@.len() as int);
        assert(rest[0] == table.deep_view()[i as int]);
        if str_eq(table[i].0.as_str(), key) {
            return Some(table[i].1.clone());
        }
        i = i + 1;
        assert(rest.drop_first() =~= table.deep_view().subrange(i as int, table@.len() as int));
    }
    assert(table.deep_view().subrange(i as int, table@.len() as int) =~= Seq::<
        (Seq<char>, Seq<char>),
    >::empty());
    None
}

fn read_header_fields(doc: &Vec<(String, Vec<(String, String)>)>) -> (r: Option<(String, String)>)
    ensures
        match r {
            Some((role, scope)) => header_fields(doc.deep_view()) == Some((role@, scope@)),
            None => header_fields(doc.deep_view()) is None,
        },
{
    if doc.len() != 1 || !str_eq(doc[0].0.as_str(), "adaptive_worker") {
        return None;
    }
    let table = &doc[0].1;
    assert(doc.deep_view()[0].1 == table.deep_view());
    let mut i: usize = 0;
    while i < table.len()
        invariant
            i <= table@.len(),
            doc.deep_view().len() == 1,
            doc.deep_view()[0].1 == table.deep_view(),
            table.deep_view().len() == table@.len(),
            forall|j: int|
                0 <= j < i ==> #[trigger] table.deep_view()[j].0 == "role"@ || table.deep_view()[j].0
                    == "authorized_scope"@,
        decreases table@.len() - i,
    {
        let key = table[i].0.as_str();
        assert(table.deep_view()[i as int].0 == key@);
        if !str_eq(key, "role") && !str_eq(key, "authorized_scope") {
            assert(doc.deep_view()[0].1[i as int].0 == key@);
            return None;
        }
        i = i + 1;
    }
    let role = field_value(table, "role");
    let scope = field_value(table, "authorized_scope");
    match (role, scope) {
        (Some(role), Some(scope)) => Some((role, scope)),
        _ => None,
    }
}

/// Parses the authority header on the first user-supplied Worker assignment.
/// A message without the header returns `Ok(None)`; a malformed authority
/// header fails closed with an error.
pub fn parse_adaptive_worker_assignment(text: &str) -> (r: Result<
    Option<AdaptiveWorkerContext>,
    String,
>)
    ensures
        assignment_view(r) == spec_parse_assignment(text@),
{
    let chars = chars_of(text);
    let lines = split_lines(chars.as_slice());
    let ghost ls = text_lines(text@);
    let n = lines.len();
    let mut k: usize = 0;
    while k < n && chars_blank(&lines[k])
        invariant
            n == ls.len(),
            lines@.len() == n,
            forall|i: int| 0 <= i < n ==> #[trigger] lines@[i]@ == ls[i],
            k <= n,
            first_non_blank(ls, 0) == first_non_blank(ls, k as int),
        decreases n - k,
    {
        k = k + 1;
    }
    if k == n {
        return Ok(None);
    }
    let first = trimmed(string_from_chars(&lines[k]).as_str());
    if !str_eq(first.as_str(), "[adaptive_worker]") {
        return Ok(None);
    }
    let mut header = string_from("[adaptive_worker]\n");
    proof {
        reveal_strlit("[adaptive_worker]\n");
        reveal_strlit("[adaptive_worker]");
    }
    assert(header@ =~= header_line() + seq!['\n']);
    let mut d: usize = k + 1;
    while d < n && !chars_blank(&lines[d])
        invariant
            n == ls.len(),
            lines@.len() == n,
            forall|i: int| 0 <= i < n ==> #[trigger] lines@[i]@ == ls[i],
            k < d <= n,
            first_blank(ls, k + 1) == first_blank(ls, d as int),
            header@ == header_line() + seq!['\n'] + join_lines(ls.subrange(k + 1, d as int)),
        decreases n - d,
    {
        append_chars(&mut header, &lines[d]);
        push_char(&mut header, '\n');
        d = d + 1;
        proof {
            let prev = ls.subrange(k + 1, d - 1);
            let cur = ls.subrange(k + 1, d as int);
            assert(cur.drop_last() =~= prev);
            assert(cur.last() == ls[d - 1]);
            assert(header@ =~= header_line() + seq!['\n'] + join_lines(cur));
        }
    }
    if d == n {
        return Err(string_from(
            "[adaptive_worker] must be followed by a blank line before the Worker assignment",
        ));
    }
    let mut j: usize = d + 1;
    while j < n && chars_blank(&lines[j])
        invariant
            n == ls.len(),
            lines@.len() == n,
            forall|i: int| 0 <= i < n ==> #[trigger] lines@[i]@ == ls[i],
            d < j <= n,
            forall|i: int| d < i < j ==> #[trigger] blank(ls[i]),
        decreases n - j,
    {
        j = j + 1;
    }
    if j == n {
        return Err(string_from("Worker assignment body must not be empty"));
    }
    assert(!blank(ls[j as int]));
    let doc = match parse_toml_string_tables(header.as_str()) {
        Ok(doc) => doc,
        Err(e) => {
            let mut msg = string_from("invalid [adaptive_worker] header: ");
            append(&mut msg, e.as_str());
            return Err(msg);
        },
    };
    assignment_from_tables(&doc)
}

/// Reads the Worker context out of a parsed header document: exactly the
/// string fields `role` and `authorized_scope` of the one `adaptive_worker`
/// table, a known role and a non-blank scope, which is kept trimmed.
pub fn assignment_from_tables(doc: &Vec<(String, Vec<(String, String)>)>) -> (r: Result<
    Option<AdaptiveWorkerContext>,
    String,
>)
    ensures
        assignment_view(r) == spec_assignment_from_tables(doc.deep_view()),
{
    let (role_text, scope_text) = match read_header_fields(doc) {
        Some(fields) => fields,
        None => {
            let mut msg = string_from("invalid [adaptive_worker] header: ");
            append(
                &mut msg,
                "expected exactly the string fields `role` and `authorized_scope` in [adaptive_worker]",
            );
            return Err(msg);
        },
    };
    let role = match parse_new_worker_role(role_text.as_str()) {
        Some(role) => role,
        None => {
            let mut msg = string_from("invalid adaptive Worker role `");
            append(&mut msg, role_text.as_str());
            append(&mut msg, "`; expected implementation, validation, or repair");
            return Err(msg);
        },
    };
    if is_blank(scope_text.as_str()) {
        return Err(string_from("adaptive Worker authorized_scope must not be empty"));
    }
    let scope = trimmed(scope_text.as_str());
    Ok(Some(AdaptiveWorkerContext { role, authorized_scope: Some(scope) }))
}

} // verus!
