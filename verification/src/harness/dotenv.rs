//! A minimal `.env` reader for the guest credentials the harness needs:
//! `KEY=VALUE` lines, comments and blank lines. Keys and values are trimmed,
//! and a value wrapped in one matching pair of quotes loses them.

use vstd::prelude::*;

use crate::harness::key_values::{collect_pairs, KeyValues};
use crate::text::{chars_of, find_char, lines, lines_spec, split_once_spec, string_of, trim_range, trim_spec};

verus! {

/// `value` without one matching pair of surrounding double or single
/// quotes.
pub open spec fn unquote_spec(value: Seq<char>) -> Seq<char> {
    if value.len() >= 2 && ((value[0] == '"' && value.last() == '"') || (value[0] == '\'' && value.last() == '\'')) {
        value.subrange(1, value.len() - 1)
    } else {
        value
    }
}

/// Strips a single matching pair of surrounding quotes.
pub fn unquote(value: &str) -> (r: String)
    ensures
        r@ == unquote_spec(value@),
{
    let v = chars_of(value);
    let n = v.len();
    if n >= 2 && ((v[0] == '"' && v[n - 1] == '"') || (v[0] == '\'' && v[n - 1] == '\'')) {
        crate::text::string_of_range(&v, 1, n - 1)
    } else {
        string_of(&v)
    }
}

/// The key and value a `.env` line holds: none for a blank line, a comment,
/// or a line without `=`.
pub open spec fn env_pair(line: Seq<char>) -> Option<(Seq<char>, Seq<char>)> {
    let t = trim_spec(line);
    if t.len() == 0 || t[0] == '#' {
        None
    } else {
        match split_once_spec(t, '=') {
            Some((key, raw)) => Some((trim_spec(key), unquote_spec(trim_spec(raw)))),
            None => None,
        }
    }
}

/// The variables a `.env` text sets; a later line for a key wins.
pub open spec fn parse_spec(text: Seq<char>) -> Seq<(Seq<char>, Seq<char>)> {
    collect_pairs(lines_spec(text), |line: Seq<char>| env_pair(line))
}

/// The key and value of one line.
fn line_pair(line: &Vec<char>) -> (r: Option<(String, String)>)
    ensures
        match env_pair(line@) {
            Some((k, v)) => r matches Some(p) && p.0@ == k && p.1@ == v,
            None => r is None,
        },
{
    assert(line@.subrange(0, line@.len() as int) =~= line@);
    let trimmed = trim_range(line, 0, line.len());
    let t = chars_of(trimmed.as_str());
    if t.len() == 0 || t[0] == '#' {
        return None;
    }
    match find_char(&t, '=') {
        Some(k) => {
            let key = trim_range(&t, 0, k);
            let raw = trim_range(&t, k + 1, t.len());
            Some((key, unquote(raw.as_str())))
        },
        None => None,
    }
}

/// Parses `.env` text into its variables.
pub fn parse(text: &str) -> (r: KeyValues)
    ensures
        r@ == parse_spec(text@),
{
    let all = lines(text);
    let ghost views = all@.map_values(|l: Vec<char>| l@);
    let mut values = KeyValues::new();
    let mut i: usize = 0;
    while i < all.len()
        invariant
            i <= all@.len(),
            views == all@.map_values(|l: Vec<char>| l@),
            views == lines_spec(text@),
            values@ == collect_pairs(views.subrange(0, i as int), |line: Seq<char>| env_pair(line)),
        decreases all.len() - i,
    {
        let ghost prefix = views.subrange(0, i + 1);
        assert(prefix.drop_last() =~= views.subrange(0, i as int));
        assert(prefix.last() == all@[i as int]@);
        match line_pair(&all[i]) {
            Some((key, value)) => values.insert(key, value),
            None => {},
        }
        i = i + 1;
    }
    assert(views.subrange(0, views.len() as int) =~= views);
    values
}

} // verus!
