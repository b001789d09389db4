use vstd::prelude::*;

use crate::source_map::name_view;
use crate::text::str_eq;

verus! {

#[verifier::external_type_specification]
#[verifier::external_body]
pub struct ExQsError(serde_qs::Error);

/// The key-value pairs that serde_qs decodes from a query string, each value
/// `Some` text where it is a plain string and `None` where it is a nested map
/// or a sequence (from bracketed keys); `None` where serde_qs refuses the
/// query.
pub uninterp spec fn query_pairs(query: Seq<char>) -> Option<Seq<(Seq<char>, Option<Seq<char>>)>>;

pub open spec fn pairs_view(pairs: Seq<(String, Option<String>)>) -> Seq<(Seq<char>, Option<Seq<char>>)> {
    pairs.map_values(|p: (String, Option<String>)| (p.0@, name_view(p.1)))
}

/// Relies on serde_qs::from_str, decoding into a map from string keys to
/// serde_json::Value, which takes a value of any shape: a plain value becomes
/// a string, a bracketed key a nested object or an array. Each value is handed
/// back as its text where it is a string.
#[verifier::external_body]
fn decode_query(query: &str) -> (r: Result<Vec<(String, Option<String>)>, serde_qs::Error>)
    ensures
        match r {
            Ok(pairs) => query_pairs(query@) == Some(pairs_view(pairs@)),
            Err(_) => query_pairs(query@) is None,
        },
{
    let map = serde_qs::from_str::<std::collections::BTreeMap<String, serde_json::Value>>(query)?;
    let mut pairs = Vec::new();
    for (k, v) in map {
        let text = match v {
            serde_json::Value::String(s) => Some(s),
            serde_json::Value::Null | serde_json::Value::Bool(_) => None,
            serde_json::Value::Number(_) => None,
            serde_json::Value::Array(_) | serde_json::Value::Object(_) => None,
        };
        pairs.push((k, text));
    }
    Ok(pairs)
}

/// A stack frame as the client's error overlay reports it.
#[derive(Debug, PartialEq, Eq)]
pub struct StackFrame {
    pub file: String,
    pub line: Option<u64>,
    pub column: Option<u64>,
    pub name: Option<String>,
}

pub struct StackFrameView {
    pub file: Seq<char>,
    pub line: Option<u64>,
    pub column: Option<u64>,
    pub name: Option<Seq<char>>,
}

impl View for StackFrame {
    type V = StackFrameView;

    open spec fn view(&self) -> StackFrameView {
        StackFrameView {
            file: self.file@,
            line: self.line,
            column: self.column,
            name: match self.name {
                Some(n) => Some(n@),
                None => None,
            },
        }
    }
}

impl StackFrameView {
    /// The frame's position, where it has both a line and a column.
    pub open spec fn pos(&self) -> Option<(u64, u64)> {
        match (self.line, self.column) {
            (Some(l), Some(c)) => Some((l, c)),
            _ => None,
        }
    }
}

pub open spec fn frame_view(f: Option<StackFrame>) -> Option<StackFrameView> {
    match f {
        Some(f) => Some(f@),
        None => None,
    }
}

impl StackFrame {
    /// The frame's `(line, column)`, where it has both.
    pub fn get_pos(&self) -> (r: Option<(u64, u64)>)
        ensures
            r == self@.pos(),
    {
        match (self.line, self.column) {
            (Some(l), Some(c)) => Some((l, c)),
            _ => None,
        }
    }
}

pub open spec fn is_digit(c: char) -> bool {
    '0' <= c && c <= '9'
}

/// The value of a string of decimal digits.
pub open spec fn decimal_value(s: Seq<char>) -> int
    decreases s.len(),
{
    if s.len() == 0 {
        0
    } else {
        10 * decimal_value(s.drop_last()) + (s.last() as int - '0' as int)
    }
}

/// The number that a string of one or more decimal digits writes, where it
/// fits in a `u64`.
pub open spec fn spec_parse_digits(s: Seq<char>) -> Option<u64> {
    if s.len() > 0 && (forall|i: int| 0 <= i < s.len() ==> is_digit(#[trigger] s[i]))
        && decimal_value(s) <= u64::MAX {
        Some(decimal_value(s) as u64)
    } else {
        None
    }
}

proof fn lemma_decimal_monotone(s: Seq<char>, i: int)
    requires
        0 <= i <= s.len(),
        forall|j: int| 0 <= j < s.len() ==> is_digit(#[trigger] s[j]),
    ensures
        decimal_value(s.subrange(0, i)) <= decimal_value(s),
    decreases s.len() - i,
{
    if i < s.len() {
        lemma_decimal_monotone(s, i + 1);
        let t = s.subrange(0, i + 1);
        assert(t.drop_last() =~= s.subrange(0, i));
        assert(t.last() == s[i]);
        assert(is_digit(s[i]));
        lemma_decimal_nonneg(s.subrange(0, i));
    } else {
        assert(s.subrange(0, i) =~= s);
    }
}

proof fn lemma_decimal_nonneg(s: Seq<char>)
    requires
        forall|j: int| 0 <= j < s.len() ==> is_digit(#[trigger] s[j]),
    ensures
        decimal_value(s) >= 0,
    decreases s.len(),
{
    if s.len() > 0 {
        assert(is_digit(s[s.len() - 1]));
        lemma_decimal_nonneg(s.drop_last());
    }
}

fn parse_digits(s: &str) -> (r: Option<u64>)
    ensures
        r == spec_parse_digits(s@),
{
    let n = s.unicode_len();
    if n == 0 {
        return None;
    }
    let mut value: u64 = 0;
    let mut i: usize = 0;
    while i < n
        invariant
            n == s@.len(),
            i <= n,
            forall|j: int| 0 <= j < i ==> is_digit(#[trigger] s@[j]),
            value as int == decimal_value(s@.subrange(0, i as int)),
        decreases n - i,
    {
        let c = s.get_char(i);
        proof {
            let t = s@.subrange(0, i + 1);
            assert(t.drop_last() =~= s@.subrange(0, i as int));
            assert(t.last() == c);
        }
        if !('0' <= c && c <= '9') {
            assert(!is_digit(s@[i as int]));
            return None;
        }
        let d = (c as u32 - '0' as u32) as u64;
        if value > (u64::MAX - d) / 10 {
            proof {
                assert(value * 10 + d > u64::MAX) by (nonlinear_arith)
                    requires
                        value > (u64::MAX - d) / 10,
                        d <= 9,
                ;
                if forall|j: int| 0 <= j < n ==> is_digit(#[trigger] s@[j]) {
                    lemma_decimal_monotone(s@, i + 1);
                }
            }
            return None;
        }
        value = value * 10 + d;
        i = i + 1;
    }
    assert(s@.subrange(0, n as int) =~= s@);
    Some(value)
}

/// The number that a string writes in decimal: one or more digits after an
/// optional `+`, where the number fits in a `u64`.
pub open spec fn spec_parse_u64(s: Seq<char>) -> Option<u64> {
    if s.len() > 0 && s[0] == '+' {
        spec_parse_digits(s.subrange(1, s.len() as int))
    } else {
        spec_parse_digits(s)
    }
}

/// Reads a decimal number.
pub fn parse_u64(s: &str) -> (r: Option<u64>)
    ensures
        r == spec_parse_u64(s@),
{
    let n = s.unicode_len();
    if n > 0 && s.get_char(0) == '+' {
        parse_digits(s.substring_char(1, n))
    } else {
        parse_digits(s)
    }
}

/// The value of the first pair whose key is `key`: `None` where no pair has
/// it, `Some(None)` where its value is no string.
pub open spec fn field(pairs: Seq<(Seq<char>, Option<Seq<char>>)>, key: Seq<char>) -> Option<
    Option<Seq<char>>,
>
    decreases pairs.len(),
{
    if pairs.len() == 0 {
        None
    } else if pairs[0].0 == key {
        Some(pairs[0].1)
    } else {
        field(pairs.drop_first(), key)
    }
}

/// An optional text field: absent or empty is `Some(None)`, a value that is
/// no string is `None`.
pub open spec fn text_field(pairs: Seq<(Seq<char>, Option<Seq<char>>)>, key: Seq<char>) -> Option<
    Option<Seq<char>>,
> {
    match field(pairs, key) {
        None => Some(None),
        Some(None) => None,
        Some(Some(v)) => if v.len() == 0 {
            Some(None)
        } else {
            Some(Some(v))
        },
    }
}

/// An optional position field: absent or empty is `Some(None)`; a value that
/// is no number, or is 0 (lines and columns count from 1), is `None`.
pub open spec fn numeric_field(pairs: Seq<(Seq<char>, Option<Seq<char>>)>, key: Seq<char>) -> Option<
    Option<u64>,
> {
    match text_field(pairs, key) {
        None => None,
        Some(None) => Some(None),
        Some(Some(v)) => match spec_parse_u64(v) {
            Some(n) => if n >= 1 {
                Some(Some(n))
            } else {
                None
            },
            None => None,
        },
    }
}

/// The method name of a frame: `methodName`, else `name`.
pub open spec fn name_field(pairs: Seq<(Seq<char>, Option<Seq<char>>)>) -> Option<Option<Seq<char>>> {
    match text_field(pairs, "methodName"@) {
        Some(None) => text_field(pairs, "name"@),
        other => other,
    }
}

/// The stack frame that decoded query pairs describe: `file` is a required
/// string, `lineNumber` and `column` optional numbers from 1, `methodName`
/// (or `name`) an optional string, and other keys are ignored whatever their
/// value.
pub open spec fn frame_of_pairs(pairs: Seq<(Seq<char>, Option<Seq<char>>)>) -> Option<StackFrameView> {
    match (field(pairs, "file"@), numeric_field(pairs, "lineNumber"@), numeric_field(
        pairs,
        "column"@,
    ), name_field(pairs)) {
        (Some(Some(file)), Some(line), Some(column), Some(name)) => Some(
            StackFrameView { file, line, column, name },
        ),
        _ => None,
    }
}

/// The value of the first pair whose key is `key`.
fn find_field<'a>(pairs: &'a Vec<(String, Option<String>)>, key: &str) -> (r: Option<
    &'a Option<String>,
>)
    ensures
        match r {
            Some(v) => field(pairs_view(pairs@), key@) == Some(name_view(*v)),
            None => field(pairs_view(pairs@), key@) is None,
        },
{
    let ghost all = pairs_view(pairs@);
    let mut i: usize = 0;
    assert(all.subrange(0, all.len() as int) =~= all);
    while i < pairs.len()
        invariant
            all == pairs_view(pairs@),
            i <= pairs@.len(),
            field(all, key@) == field(all.subrange(i as int, all.len() as int), key@),
        decreases pairs@.len() - i,
    {
        let ghost rest = all.subrange(i as int, all.len() as int);
        assert(rest[0] == all[i as int]);
        if str_eq(pairs[i].0.as_str(), key) {
            return Some(&pairs[i].1);
        }
        assert(rest.drop_first() =~= all.subrange(i + 1, all.len() as int));
        i = i + 1;
    }
    None
}

fn text(pairs: &Vec<(String, Option<String>)>, key: &str) -> (r: Option<Option<String>>)
    ensures
        match r {
            Some(t) => text_field(pairs_view(pairs@), key@) == Some(name_view(t)),
            None => text_field(pairs_view(pairs@), key@) is None,
        },
{
    match find_field(pairs, key) {
        None => Some(None),
        Some(None) => None,
        Some(Some(v)) => if v.as_str().unicode_len() == 0 {
            Some(None)
        } else {
            Some(Some(v.clone()))
        },
    }
}

fn numeric(pairs: &Vec<(String, Option<String>)>, key: &str) -> (r: Option<Option<u64>>)
    ensures
        r == numeric_field(pairs_view(pairs@), key@),
{
    match text(pairs, key) {
        None => None,
        Some(None) => Some(None),
        Some(Some(v)) => match parse_u64(v.as_str()) {
            Some(n) => if n >= 1 {
                Some(Some(n))
            } else {
                None
            },
            None => None,
        },
    }
}

/// Builds a stack frame from decoded query pairs.
pub fn stack_frame_from_pairs(pairs: &Vec<(String, Option<String>)>) -> (r: Option<StackFrame>)
    ensures
        frame_view(r) == frame_of_pairs(pairs_view(pairs@)),
{
    let file = match find_field(pairs, "file") {
        Some(Some(f)) => f.clone(),
        _ => return None,
    };
    let line = match numeric(pairs, "lineNumber") {
        Some(l) => l,
        None => return None,
    };
    let column = match numeric(pairs, "column") {
        Some(c) => c,
        None => return None,
    };
    let name = match text(pairs, "methodName") {
        None => return None,
        Some(Some(n)) => Some(n),
        Some(None) => match text(pairs, "name") {
            None => return None,
            Some(n) => n,
        },
    };
    Some(StackFrame { file, line, column, name })
}

/// Parses a stack frame from the query part of a url (what follows `?`).
pub fn parse_stack_frame(query: &str) -> (r: Option<StackFrame>)
    ensures
        frame_view(r) == match query_pairs(query@) {
            Some(pairs) => frame_of_pairs(pairs),
            None => None,
        },
{
    match decode_query(query) {
        Ok(pairs) => stack_frame_from_pairs(&pairs),
        Err(_) => None,
    }
}

} // verus!
