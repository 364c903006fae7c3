//! The platform-neutral dependency check of `ci`: which lines of a crate's
//! dependency tree name one of the Windows bindings, and the verdict the
//! check reports over every crate, each offence once and in order.

use vstd::prelude::*;

use crate::text::{
    char_is_whitespace, chars_of, is_whitespace, join_with, joined, lines, lines_spec, str_equal, string_of_range,
    trim_start_spec,
};

verus! {

/// Whether `name` is one of the crates through which the workspace reaches
/// the Windows API.
pub open spec fn is_windows_binding(name: Seq<char>) -> bool {
    name == "windows"@ || name == "windows-core"@
}

/// The characters of `s` before its first whitespace.
pub open spec fn leading_word(s: Seq<char>) -> Seq<char>
    decreases s.len(),
{
    if s.len() == 0 || char_is_whitespace(s[0]) {
        Seq::empty()
    } else {
        seq![s[0]] + leading_word(s.drop_first())
    }
}

/// The first whitespace-separated word of a line, as
/// `split_whitespace().next()` gives it.
pub open spec fn first_word(line: Seq<char>) -> Option<Seq<char>> {
    let t = trim_start_spec(line);
    if t.len() == 0 {
        None
    } else {
        Some(leading_word(t))
    }
}

/// The offence one line of `crate_name`'s dependency tree shows: a line
/// whose first word is a Windows binding.
pub open spec fn line_offence(crate_name: Seq<char>, line: Seq<char>) -> Option<Seq<char>> {
    match first_word(line) {
        Some(w) => if is_windows_binding(w) {
            Some(crate_name + " depends on "@ + w)
        } else {
            None
        },
        None => None,
    }
}

/// The offences of a dependency tree's lines, in line order.
pub open spec fn tree_offences_spec(crate_name: Seq<char>, tree_lines: Seq<Seq<char>>) -> Seq<Seq<char>>
    decreases tree_lines.len(),
{
    if tree_lines.len() == 0 {
        Seq::empty()
    } else {
        let before = tree_offences_spec(crate_name, tree_lines.drop_last());
        match line_offence(crate_name, tree_lines.last()) {
            Some(o) => before.push(o),
            None => before,
        }
    }
}

/// The first word of a line.
fn first_word_of(line: &Vec<char>) -> (r: Option<String>)
    ensures
        match first_word(line@) {
            Some(w) => r matches Some(s) && s@ == w,
            None => r is None,
        },
{
    let n = line.len();
    let mut a: usize = 0;
    assert(line@.subrange(0, n as int) =~= line@);
    while a < n && is_whitespace(line[a])
        invariant
            a <= n,
            n == line@.len(),
            trim_start_spec(line@) == trim_start_spec(line@.subrange(a as int, n as int)),
        decreases n - a,
    {
        assert(line@.subrange(a as int, n as int).drop_first() =~= line@.subrange(a + 1, n as int));
        a = a + 1;
    }
    assert(trim_start_spec(line@) == line@.subrange(a as int, n as int)) by {
        let rest = line@.subrange(a as int, n as int);
        if a < n {
            assert(!char_is_whitespace(rest[0]));
        }
    }
    if a == n {
        return None;
    }
    let mut b = a;
    assert(line@.subrange(a as int, a as int) + leading_word(line@.subrange(a as int, n as int)) =~= leading_word(
        line@.subrange(a as int, n as int),
    ));
    while b < n && !is_whitespace(line[b])
        invariant
            a <= b <= n,
            n == line@.len(),
            leading_word(line@.subrange(a as int, n as int)) == line@.subrange(a as int, b as int) + leading_word(
                line@.subrange(b as int, n as int),
            ),
        decreases n - b,
    {
        let ghost rest = line@.subrange(b as int, n as int);
        assert(rest.drop_first() =~= line@.subrange(b + 1, n as int));
        assert(leading_word(rest) == seq![rest[0]] + leading_word(rest.drop_first()));
        assert(line@.subrange(a as int, b as int) + (seq![rest[0]] + leading_word(rest.drop_first())) =~= line@.subrange(
            a as int,
            b + 1,
        ) + leading_word(line@.subrange(b + 1, n as int)));
        b = b + 1;
    }
    assert(leading_word(line@.subrange(b as int, n as int)) =~= Seq::<char>::empty()) by {
        let rest = line@.subrange(b as int, n as int);
        if b < n {
            assert(char_is_whitespace(rest[0]));
        }
    }
    assert(line@.subrange(a as int, b as int) + Seq::<char>::empty() =~= line@.subrange(a as int, b as int));
    Some(string_of_range(line, a, b))
}

/// The offences one crate's dependency tree shows: for each line whose first
/// word is a Windows binding, `<crate> depends on <binding>`, in line order.
pub fn tree_offences(crate_name: &str, tree: &str) -> (r: Vec<String>)
    ensures
        r@.map_values(|s: String| s@) == tree_offences_spec(crate_name@, lines_spec(tree@)),
{
    let all = lines(tree);
    let ghost views = all@.map_values(|l: Vec<char>| l@);
    let mut found: Vec<String> = Vec::new();
    let mut i: usize = 0;
    assert(views.subrange(0, 0) =~= Seq::<Seq<char>>::empty());
    while i < all.len()
        invariant
            views == all@.map_values(|l: Vec<char>| l@),
            views == lines_spec(tree@),
            i <= all@.len(),
            found@.map_values(|s: String| s@) == tree_offences_spec(crate_name@, views.subrange(0, i as int)),
        decreases all.len() - i,
    {
        let ghost upto = views.subrange(0, i + 1);
        assert(upto.drop_last() =~= views.subrange(0, i as int));
        assert(upto.last() == all@[i as int]@);
        let ghost before = found@.map_values(|s: String| s@);
        if let Some(word) = first_word_of(&all[i]) {
            if str_equal(word.as_str(), "windows") || str_equal(word.as_str(), "windows-core") {
                let mut offence = String::new();
                offence.append(crate_name);
                offence.append(" depends on ");
                offence.append(word.as_str());
                found.push(offence);
                assert(found@.map_values(|s: String| s@) =~= before.push(crate_name@ + " depends on "@ + word@));
            }
        }
        i = i + 1;
    }
    assert(views.subrange(0, views.len() as int) =~= views);
    found
}

/// Lexicographic order of character sequences by code point; it is the
/// order of their UTF-8 bytes, which `String`'s `Ord` compares.
pub open spec fn chars_less(a: Seq<char>, b: Seq<char>) -> bool
    decreases a.len(),
{
    if a.len() == 0 {
        b.len() > 0
    } else if b.len() == 0 {
        false
    } else if a[0] != b[0] {
        (a[0] as u32) < (b[0] as u32)
    } else {
        chars_less(a.drop_first(), b.drop_first())
    }
}

/// No sequence comes before itself.
pub proof fn lemma_chars_less_irreflexive(a: Seq<char>)
    ensures
        !chars_less(a, a),
    decreases a.len(),
{
    if a.len() > 0 {
        lemma_chars_less_irreflexive(a.drop_first());
    }
}

/// The order is transitive.
pub proof fn lemma_chars_less_transitive(a: Seq<char>, b: Seq<char>, c: Seq<char>)
    requires
        chars_less(a, b),
        chars_less(b, c),
    ensures
        chars_less(a, c),
    decreases a.len(),
{
    if a.len() > 0 && b.len() > 0 && c.len() > 0 && a[0] == b[0] && b[0] == c[0] {
        lemma_chars_less_transitive(a.drop_first(), b.drop_first(), c.drop_first());
    }
}

/// Of two different sequences, one comes before the other.
pub proof fn lemma_chars_less_total(a: Seq<char>, b: Seq<char>)
    requires
        a != b,
    ensures
        chars_less(a, b) || chars_less(b, a),
    decreases a.len(),
{
    if a.len() > 0 && b.len() > 0 && a[0] == b[0] {
        if a.drop_first() == b.drop_first() {
            assert(a =~= seq![a[0]] + a.drop_first());
            assert(b =~= seq![b[0]] + b.drop_first());
        }
        lemma_chars_less_total(a.drop_first(), b.drop_first());
    } else if a.len() == 0 && b.len() == 0 {
        assert(a =~= b);
    } else if a.len() > 0 && b.len() > 0 {
        vstd::utf8::char_u32_cast(a[0], a[0] as u32);
        vstd::utf8::char_u32_cast(b[0], b[0] as u32);
    }
}

/// Whether two strings are in order, compared as `String`'s `<` compares
/// them.
pub fn str_less(a: &str, b: &str) -> (r: bool)
    ensures
        r == chars_less(a@, b@),
{
    let x = chars_of(a);
    let y = chars_of(b);
    let mut i: usize = 0;
    assert(x@.subrange(0, x@.len() as int) =~= x@);
    assert(y@.subrange(0, y@.len() as int) =~= y@);
    while i < x.len() && i < y.len() && x[i] == y[i]
        invariant
            i <= x@.len(),
            i <= y@.len(),
            chars_less(x@, y@) == chars_less(
                x@.subrange(i as int, x@.len() as int),
                y@.subrange(i as int, y@.len() as int),
            ),
        decreases x.len() - i,
    {
        assert(x@.subrange(i as int, x@.len() as int).drop_first() =~= x@.subrange(i + 1, x@.len() as int));
        assert(y@.subrange(i as int, y@.len() as int).drop_first() =~= y@.subrange(i + 1, y@.len() as int));
        i = i + 1;
    }
    if i == x.len() {
        i < y.len()
    } else if i == y.len() {
        false
    } else {
        let cx = x[i];
        let cy = y[i];
        assert(x@.subrange(i as int, x@.len() as int)[0] == cx);
        assert(y@.subrange(i as int, y@.len() as int)[0] == cy);
        (cx as u32) < (cy as u32)
    }
}

/// Whether every element of `s` comes before each later one.
pub open spec fn strictly_sorted(s: Seq<Seq<char>>) -> bool {
    forall|i: int, j: int| 0 <= i < j < s.len() ==> chars_less(#[trigger] s[i], #[trigger] s[j])
}

/// The strings of `items`, each once, in order.
pub fn sorted_unique(items: &Vec<String>) -> (r: Vec<String>)
    ensures
        strictly_sorted(r@.map_values(|s: String| s@)),
        r@.map_values(|s: String| s@).to_set() == items@.map_values(|s: String| s@).to_set(),
{
    let ghost all = items@.map_values(|s: String| s@);
    let mut out: Vec<String> = Vec::new();
    let mut k: usize = 0;
    assert(out@.map_values(|s: String| s@).to_set() =~= all.subrange(0, 0).to_set());
    while k < items.len()
        invariant
            all == items@.map_values(|s: String| s@),
            k <= items@.len(),
            strictly_sorted(out@.map_values(|s: String| s@)),
            out@.map_values(|s: String| s@).to_set() == all.subrange(0, k as int).to_set(),
        decreases items.len() - k,
    {
        let ghost ov = out@.map_values(|s: String| s@);
        let ghost x = all[k as int];
        assert(x == items@[k as int]@);
        assert(all.subrange(0, k + 1) =~= all.subrange(0, k as int).push(x));
        proof {
            all.subrange(0, k as int).lemma_push_to_set_commute(x);
        }
        let mut p: usize = 0;
        while p < out.len() && str_less(out[p].as_str(), items[k].as_str())
            invariant
                ov == out@.map_values(|s: String| s@),
                k < items@.len(),
                x == items@[k as int]@,
                p <= out@.len(),
                forall|j: int| 0 <= j < p ==> chars_less(#[trigger] ov[j], x),
            decreases out.len() - p,
        {
            p = p + 1;
        }
        if p < out.len() && str_equal(out[p].as_str(), items[k].as_str()) {
            assert(ov[p as int] == x);
            assert(ov.to_set().insert(x) =~= ov.to_set());
        } else {
            let item = crate::text::owned(items[k].as_str());
            out.insert(p, item);
            let ghost nv = out@.map_values(|s: String| s@);
            assert(nv =~= ov.insert(p as int, x));
            proof {
                if p < ov.len() {
                    lemma_chars_less_total(ov[p as int], x);
                }
                assert forall|i: int, j: int| 0 <= i < j < nv.len() implies chars_less(#[trigger] nv[i], #[trigger] nv[j]) by {
                    if j < p {
                        assert(nv[i] == ov[i] && nv[j] == ov[j]);
                    } else if j == p {
                        assert(nv[i] == ov[i]);
                    } else if i < p {
                        assert(nv[i] == ov[i] && nv[j] == ov[j - 1]);
                        assert(chars_less(ov[i], ov[j - 1]));
                    } else if i == p {
                        assert(nv[j] == ov[j - 1]);
                        if j - 1 > p {
                            lemma_chars_less_transitive(x, ov[p as int], ov[j - 1]);
                        }
                    } else {
                        assert(nv[i] == ov[i - 1] && nv[j] == ov[j - 1]);
                    }
                }
                assert forall|s: Seq<char>| nv.to_set().contains(s) == ov.to_set().insert(x).contains(s) by {
                    if nv.contains(s) {
                        let i = choose|i: int| 0 <= i < nv.len() && nv[i] == s;
                        if i < p {
                            assert(ov[i] == s);
                        } else if i > p {
                            assert(ov[i - 1] == s);
                        }
                    }
                    if ov.contains(s) {
                        let i = choose|i: int| 0 <= i < ov.len() && ov[i] == s;
                        if i < p {
                            assert(nv[i] == s);
                        } else {
                            assert(nv[i + 1] == s);
                        }
                    }
                    if s == x {
                        assert(nv[p as int] == x);
                    }
                }
                assert(nv.to_set() =~= ov.to_set().insert(x));
            }
        }
        k = k + 1;
    }
    assert(all.subrange(0, all.len() as int) =~= all);
    out
}

/// A strictly ordered listing is determined by the set it lists: so the
/// dependency check's report depends only on which offences were found, not on the
/// order the crates were examined in or on how often an offence showed.
pub proof fn law_ordered_listing_is_unique(a: Seq<Seq<char>>, b: Seq<Seq<char>>)
    requires
        strictly_sorted(a),
        strictly_sorted(b),
        a.to_set() == b.to_set(),
    ensures
        a == b,
    decreases a.len(),
{
    if a.len() == 0 {
        if b.len() > 0 {
            assert(b.to_set().contains(b[0]));
        }
        assert(a =~= b);
    } else {
        assert(a.to_set().contains(a[0]));
        if b.len() == 0 {
            assert(false);
        }
        let j = choose|j: int| 0 <= j < b.len() && b[j] == a[0];
        assert(b.to_set().contains(b[0]));
        let i = choose|i: int| 0 <= i < a.len() && a[i] == b[0];
        if a[0] != b[0] {
            assert(chars_less(b[0], b[j]));
            assert(chars_less(a[0], a[i]));
            lemma_chars_less_transitive(a[0], b[0], a[0]);
            lemma_chars_less_irreflexive(a[0]);
        }
        let ta = a.drop_first();
        let tb = b.drop_first();
        assert forall|x: Seq<char>| ta.to_set().contains(x) == tb.to_set().contains(x) by {
            if ta.contains(x) {
                let k = choose|k: int| 0 <= k < ta.len() && ta[k] == x;
                assert(a[k + 1] == x);
                assert(a.to_set().contains(x));
                let m = choose|m: int| 0 <= m < b.len() && b[m] == x;
                if m == 0 {
                    assert(chars_less(a[0], a[k + 1]));
                    lemma_chars_less_irreflexive(x);
                }
                assert(tb[m - 1] == x);
            }
            if tb.contains(x) {
                let k = choose|k: int| 0 <= k < tb.len() && tb[k] == x;
                assert(b[k + 1] == x);
                assert(b.to_set().contains(x));
                let m = choose|m: int| 0 <= m < a.len() && a[m] == x;
                if m == 0 {
                    assert(chars_less(b[0], b[k + 1]));
                    lemma_chars_less_irreflexive(x);
                }
                assert(ta[m - 1] == x);
            }
        }
        assert(ta.to_set() =~= tb.to_set());
        law_ordered_listing_is_unique(ta, tb);
        assert(a =~= seq![a[0]] + ta);
        assert(b =~= seq![b[0]] + tb);
    }
}

/// The first line of the dependency check's failure report.
pub open spec fn neutrality_header() -> Seq<char> {
    "platform-neutral crates must not depend on the Windows bindings:\n  "@
}

/// The dependency check's verdict over the offences every crate showed: success when
/// there are none, else a report naming each offence once, in order, one
/// per line.
pub fn neutrality_verdict(offences: &Vec<String>) -> (r: Result<(), String>)
    ensures
        offences@.len() == 0 ==> r is Ok,
        offences@.len() > 0 ==> (r matches Err(e) && exists|s: Seq<Seq<char>>|
            #[trigger] strictly_sorted(s) && s.to_set() == offences@.map_values(|o: String| o@).to_set() && e@
                == neutrality_header() + joined(s, "\n  "@)),
{
    if offences.len() == 0 {
        return Ok(());
    }
    let listed = sorted_unique(offences);
    let mut report = String::new();
    report.append("platform-neutral crates must not depend on the Windows bindings:\n  ");
    let body = join_with(&listed, "\n  ");
    report.append(body.as_str());
    let ghost s = listed@.map_values(|o: String| o@);
    assert(strictly_sorted(s));
    Err(report)
}

} // verus!
