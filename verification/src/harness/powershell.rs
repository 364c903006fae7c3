//! Talking to PowerShell: quoting values into scripts, and reading back a
//! result the script printed between two marker lines, as a JSON string.

use vstd::prelude::*;

use crate::text::{chars_of, copy_chars, trim_range, trim_spec};

verus! {

/// The line a script prints before its result.
pub const RESULT_BEGIN: &'static str = "===XTASK-VM-RESULT-BEGIN===";

/// The line a script prints after its result.
pub const RESULT_END: &'static str = "===XTASK-VM-RESULT-END===";

/// `s` with every single quote doubled.
pub open spec fn double_single_quotes(s: Seq<char>) -> Seq<char>
    decreases s.len(),
{
    if s.len() == 0 {
        Seq::empty()
    } else {
        let before = double_single_quotes(s.drop_last());
        if s.last() == '\'' {
            before + seq!['\'', '\'']
        } else {
            before.push(s.last())
        }
    }
}

/// Wraps `value` in single quotes for interpolation into a PowerShell
/// script, doubling any embedded single quotes (PowerShell's escaping rule
/// for single-quoted string literals).
pub fn ps_quote(value: &str) -> (r: String)
    ensures
        r@ == seq!['\''] + double_single_quotes(value@) + seq!['\''],
{
    let v = chars_of(value);
    let mut r = String::new();
    crate::text::push_char(&mut r, '\'');
    let mut i: usize = 0;
    while i < v.len()
        invariant
            v@ == value@,
            i <= v@.len(),
            r@ == seq!['\''] + double_single_quotes(v@.subrange(0, i as int)),
        decreases v.len() - i,
    {
        let ghost prefix = v@.subrange(0, i + 1);
        assert(prefix.drop_last() =~= v@.subrange(0, i as int));
        let c = v[i];
        if c == '\'' {
            crate::text::push_char(&mut r, '\'');
            crate::text::push_char(&mut r, '\'');
        } else {
            crate::text::push_char(&mut r, c);
        }
        i = i + 1;
        assert(r@ =~= seq!['\''] + double_single_quotes(v@.subrange(0, i as int)));
    }
    assert(v@.subrange(0, v@.len() as int) =~= v@);
    crate::text::push_char(&mut r, '\'');
    r
}

/// Whether `p` occurs in `t` at position `i`.
pub open spec fn occurs_at(t: Seq<char>, p: Seq<char>, i: int) -> bool {
    0 <= i && i + p.len() <= t.len() && t.subrange(i, i + p.len()) == p
}

/// The first position at or after `i` where `p` occurs in `t`.
pub open spec fn find_from(t: Seq<char>, p: Seq<char>, i: int) -> Option<int>
    decreases t.len() - i,
{
    if i < 0 || i + p.len() > t.len() {
        None
    } else if occurs_at(t, p, i) {
        Some(i)
    } else if i + 1 + p.len() > t.len() {
        None
    } else {
        find_from(t, p, i + 1)
    }
}

/// The first position where `p` occurs in `t`, as `str::find` reports it.
pub open spec fn find_spec(t: Seq<char>, p: Seq<char>) -> Option<int> {
    find_from(t, p, 0)
}

/// Whether `p` occurs in `t` at position `i`.
fn matches_at(t: &Vec<char>, p: &Vec<char>, i: usize) -> (r: bool)
    requires
        i + p@.len() <= t@.len(),
    ensures
        r == occurs_at(t@, p@, i as int),
{
    let _n = t.len();
    let mut j: usize = 0;
    while j < p.len()
        invariant
            t@.len() <= usize::MAX,
            i + p@.len() <= t@.len(),
            j <= p@.len(),
            forall|k: int| 0 <= k < j ==> t@[i + k] == p@[k],
        decreases p.len() - j,
    {
        if t[i + j] != p[j] {
            assert(t@.subrange(i as int, i + p@.len())[j as int] != p@[j as int]);
            return false;
        }
        j = j + 1;
    }
    assert(t@.subrange(i as int, i + p@.len()) =~= p@);
    true
}

/// The first position at or after `from` where `p` occurs in `t`.
fn find_chars(t: &Vec<char>, p: &Vec<char>, from: usize) -> (r: Option<usize>)
    requires
        from <= t@.len(),
    ensures
        match r {
            Some(k) => find_from(t@, p@, from as int) == Some(k as int) && occurs_at(t@, p@, k as int),
            None => find_from(t@, p@, from as int) is None,
        },
{
    let n = t.len();
    let m = p.len();
    if m > n || from > n - m {
        return None;
    }
    let mut i = from;
    loop
        invariant
            n == t@.len(),
            m == p@.len(),
            m <= n,
            from <= i <= n - m,
            find_from(t@, p@, from as int) == find_from(t@, p@, i as int),
        decreases n - i,
    {
        if matches_at(t, p, i) {
            return Some(i);
        }
        if i == n - m {
            return None;
        }
        i = i + 1;
    }
}

/// The trimmed text between the first `begin` marker and the first `end`
/// marker after it, or the detail of the error naming the missing marker.
pub open spec fn extract_between_spec(text: Seq<char>, begin: Seq<char>, end: Seq<char>) -> Result<Seq<char>, Seq<char>> {
    match find_spec(text, begin) {
        None => Err("PowerShell output is missing the "@ + begin + " marker:\n"@ + text),
        Some(start) => {
            let after = start + begin.len();
            match find_spec(text.subrange(after, text.len() as int), end) {
                None => Err("PowerShell output is missing the "@ + end + " marker:\n"@ + text),
                Some(stop) => Ok(trim_spec(text.subrange(after, after + stop))),
            }
        },
    }
}

/// The error for a missing marker.
fn missing_marker(marker: &str, text: &str) -> (r: String)
    ensures
        r@ == "PowerShell output is missing the "@ + marker@ + " marker:\n"@ + text@,
{
    let mut message = "PowerShell output is missing the ".to_owned();
    message.append(marker);
    message.append(" marker:\n");
    message.append(text);
    message
}

/// Finds the payload a script printed between two marker lines.
pub fn extract_between(text: &str, begin: &str, end: &str) -> (r: Result<String, String>)
    ensures
        match extract_between_spec(text@, begin@, end@) {
            Ok(payload) => r matches Ok(s) && s@ == payload,
            Err(detail) => r matches Err(e) && e@ == detail,
        },
{
    let t = chars_of(text);
    let b = chars_of(begin);
    let e = chars_of(end);
    let tn = t.len();
    let start = match find_chars(&t, &b, 0) {
        Some(start) => start,
        None => return Err(missing_marker(begin, text)),
    };
    let after = start + b.len();
    let rest = copy_chars(&t, after, tn);

    let stop = match find_chars(&rest, &e, 0) {
        Some(stop) => stop,
        None => return Err(missing_marker(end, text)),
    };
    proof {
        assert(rest@.subrange(0, stop as int) =~= t@.subrange(after as int, after + stop));
    }
    Ok(trim_range(&t, after, after + stop))
}

/// What a JSON text reads as, for a result that should be a string.
pub enum JsonReading {
    /// A JSON string, unescaped.
    Text(String),
    /// JSON `null`.
    Null,
    /// Any other JSON value, as rendered back to JSON.
    Other(String),
    /// Not JSON, with the parser's message.
    Invalid(String),
}

/// A [`JsonReading`] as the contracts see it.
pub enum JsonReadingView {
    /// See [`JsonReading::Text`].
    Text(Seq<char>),
    /// See [`JsonReading::Null`].
    Null,
    /// See [`JsonReading::Other`].
    Other(Seq<char>),
    /// See [`JsonReading::Invalid`].
    Invalid(Seq<char>),
}

impl View for JsonReading {
    type V = JsonReadingView;

    open spec fn view(&self) -> JsonReadingView {
        match self {
            JsonReading::Text(t) => JsonReadingView::Text(t@),
            JsonReading::Null => JsonReadingView::Null,
            JsonReading::Other(o) => JsonReadingView::Other(o@),
            JsonReading::Invalid(m) => JsonReadingView::Invalid(m@),
        }
    }
}

/// What `serde_json` reads a text as.
pub uninterp spec fn json_reading_of(raw: Seq<char>) -> JsonReadingView;

/// Parses `raw` with `serde_json::from_str` into a `serde_json::Value` and
/// tells its kinds apart: a string's content, null, any other value
/// rendered with its `Display`, or the parse error's `Display`. The contract
/// names the result as a function of `raw` without restating JSON.
#[verifier::external_body]
fn read_json(raw: &str) -> (r: JsonReading)
    ensures
        r@ == json_reading_of(raw@),
{
    match serde_json::from_str::<serde_json::Value>(raw) {
        Ok(serde_json::Value::String(text)) => JsonReading::Text(text),
        Ok(serde_json::Value::Null) => JsonReading::Null,
        Ok(value @ serde_json::Value::Bool(_)) => JsonReading::Other(value.to_string()),
        Ok(value @ serde_json::Value::Number(_)) => JsonReading::Other(value.to_string()),
        Ok(value @ serde_json::Value::Array(_)) => JsonReading::Other(value.to_string()),
        Ok(value @ serde_json::Value::Object(_)) => JsonReading::Other(value.to_string()),
        Err(error) => JsonReading::Invalid(error.to_string()),
    }
}

/// How `{:?}` renders a string: quoted and escaped.
pub uninterp spec fn debug_form(s: Seq<char>) -> Seq<char>;

/// Renders `s` with its `Debug` format, as `format!("{s:?}")` does; the
/// contract names the rendering as a function of `s`.
#[verifier::external_body]
fn debug_quoted(s: &str) -> (r: String)
    ensures
        r@ == debug_form(s@),
{
    format!("{s:?}")
}

/// The string result a JSON reading gives: a string's content, empty for
/// null, and an error for any other value or for text that is not JSON.
pub open spec fn json_string_spec(raw: Seq<char>, reading: JsonReadingView) -> Result<Seq<char>, Seq<char>> {
    match reading {
        JsonReadingView::Text(t) => Ok(t),
        JsonReadingView::Null => Ok(Seq::empty()),
        JsonReadingView::Other(rendered) => Err("expected a JSON string result, got "@ + rendered),
        JsonReadingView::Invalid(message) => Err(
            "could not parse PowerShell JSON result "@ + debug_form(raw) + ": "@ + message,
        ),
    }
}

/// The string result of a script's JSON output `raw`, given what it reads
/// as.
pub fn json_string_result(raw: &str, reading: JsonReading) -> (r: Result<String, String>)
    ensures
        match json_string_spec(raw@, reading@) {
            Ok(s) => r matches Ok(x) && x@ == s,
            Err(detail) => r matches Err(e) && e@ == detail,
        },
{
    match reading {
        JsonReading::Text(text) => Ok(text),
        JsonReading::Null => Ok(String::new()),
        JsonReading::Other(rendered) => {
            let mut message = "expected a JSON string result, got ".to_owned();
            message.append(rendered.as_str());
            Err(message)
        },
        JsonReading::Invalid(detail) => {
            let mut message = "could not parse PowerShell JSON result ".to_owned();
            let quoted = debug_quoted(raw);
            message.append(quoted.as_str());
            message.append(": ");
            message.append(detail.as_str());
            Err(message)
        },
    }
}

/// The JSON string a script printed between the result markers: empty when
/// nothing was printed or the result is null.
pub open spec fn extract_json_string_spec(stdout: Seq<char>) -> Result<Seq<char>, Seq<char>> {
    match extract_between_spec(stdout, RESULT_BEGIN@, RESULT_END@) {
        Err(detail) => Err(detail),
        Ok(raw) => if raw.len() == 0 {
            Ok(Seq::empty())
        } else {
            json_string_spec(raw, json_reading_of(raw))
        },
    }
}

/// Reads the JSON string result a script printed between the markers.
pub fn extract_json_string(stdout: &str) -> (r: Result<String, String>)
    ensures
        match extract_json_string_spec(stdout@) {
            Ok(s) => r matches Ok(x) && x@ == s,
            Err(detail) => r matches Err(e) && e@ == detail,
        },
{
    let raw = extract_between(stdout, RESULT_BEGIN, RESULT_END)?;
    if raw.unicode_len() == 0 {
        return Ok(String::new());
    }
    let reading = read_json(raw.as_str());
    json_string_result(raw.as_str(), reading)
}

} // verus!
