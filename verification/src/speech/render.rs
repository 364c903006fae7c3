//! The presentation stage: flattening an utterance's segments, once each has
//! been given its spoken words, into the flat text and language handed to
//! the synthesizer.
//!
//! A segment contributes zero or one word group: literal text (labels,
//! values, descriptions, shortcuts) passes through unless it is empty, and
//! tokens (roles, states, positions, levels) contribute their localized
//! spoken form when they have one. The groups are joined with single spaces,
//! and the language tag is taken from the first segment that overrides it.

use vstd::prelude::*;

use crate::text::joined;

verus! {

/// The spoken word groups of segments, skipping those with nothing to say.
pub open spec fn spoken_groups(words: Seq<Option<Seq<char>>>) -> Seq<Seq<char>>
    decreases words.len(),
{
    if words.len() == 0 {
        Seq::empty()
    } else {
        let rest = spoken_groups(words.drop_last());
        match words.last() {
            Some(w) => rest.push(w),
            None => rest,
        }
    }
}

/// The first language override among segments.
pub open spec fn first_language(languages: Seq<Option<Seq<char>>>) -> Option<Seq<char>>
    decreases languages.len(),
{
    if languages.len() == 0 {
        None
    } else {
        match languages[0] {
            Some(l) => Some(l),
            None => first_language(languages.drop_first()),
        }
    }
}

/// An optional string as the contracts see it.
pub open spec fn opt_view(o: Option<String>) -> Option<Seq<char>> {
    match o {
        Some(s) => Some(s@),
        None => None,
    }
}

/// A list of optional strings as the contracts see it.
pub open spec fn opts_view(v: Seq<Option<String>>) -> Seq<Option<Seq<char>>> {
    v.map_values(|o: Option<String>| opt_view(o))
}

/// One segment of an utterance with its spoken form resolved.
pub struct SpokenSegment {
    /// The segment's spoken words, or `None` when it has nothing to say.
    pub words: Option<String>,
    /// The language the segment overrides the utterance's with, if any.
    pub language: Option<String>,
}

/// The spoken form of a literal text segment: the text itself, or nothing
/// when it is empty.
pub fn spoken_text(text: &str) -> (r: Option<String>)
    ensures
        opt_view(r) == if text@.len() == 0 {
            None
        } else {
            Some(text@)
        },
{
    if text.unicode_len() == 0 {
        None
    } else {
        Some(text.to_owned())
    }
}

/// The default theme: plain speech, no earcons, no voice changes; spans
/// become their spoken words and nothing else.
#[derive(Clone, Copy, Debug, Default)]
pub struct PlainTheme;

impl PlainTheme {
    /// Flattens resolved segments into the request text, the spoken groups
    /// joined with single spaces, and the first language override.
    pub fn flatten(&self, segments: &Vec<SpokenSegment>) -> (r: (String, Option<String>))
        ensures
            r.0@ == joined(spoken_groups(opts_view(segments@.map_values(|s: SpokenSegment| s.words))), " "@),
            opt_view(r.1) == first_language(opts_view(segments@.map_values(|s: SpokenSegment| s.language))),
    {
        flatten(segments)
    }
}

/// Flattens resolved segments into the request text, the spoken groups
/// joined with single spaces, and the first language override.
pub fn flatten(segments: &Vec<SpokenSegment>) -> (r: (String, Option<String>))
    ensures
        r.0@ == joined(spoken_groups(opts_view(segments@.map_values(|s: SpokenSegment| s.words))), " "@),
        opt_view(r.1) == first_language(opts_view(segments@.map_values(|s: SpokenSegment| s.language))),
{
    let ghost words = opts_view(segments@.map_values(|s: SpokenSegment| s.words));
    let ghost languages = opts_view(segments@.map_values(|s: SpokenSegment| s.language));
    let mut text = String::new();
    let mut any = false;
    let mut i: usize = 0;
    while i < segments.len()
        invariant
            i <= segments@.len(),
            words.len() == segments@.len(),
            words == opts_view(segments@.map_values(|s: SpokenSegment| s.words)),
            text@ == joined(spoken_groups(words.subrange(0, i as int)), " "@),
            any == (spoken_groups(words.subrange(0, i as int)).len() > 0),
        decreases segments.len() - i,
    {
        let ghost before = words.subrange(0, i as int);
        let ghost after = words.subrange(0, i + 1);
        assert(after.drop_last() =~= before);
        assert(after.last() == words[i as int]);
        match &segments[i].words {
            Some(w) => {
                if any {
                    text.append(" ");
                }
                text.append(w.as_str());
                any = true;
                proof {
                    let g = spoken_groups(before);
                    assert(spoken_groups(after) == g.push(w@));
                    assert(g.push(w@).drop_last() =~= g);
                    assert(text@ =~= joined(g.push(w@), " "@));
                }
            },
            None => {
                assert(spoken_groups(after) == spoken_groups(before));
            },
        }
        i = i + 1;
    }
    assert(words.subrange(0, segments@.len() as int) =~= words);
    assert(languages.subrange(0, languages.len() as int) =~= languages);
    let mut k: usize = 0;
    while k < segments.len()
        invariant
            k <= segments@.len(),
            languages.len() == segments@.len(),
            languages == opts_view(segments@.map_values(|s: SpokenSegment| s.language)),
            first_language(languages) == first_language(languages.subrange(k as int, languages.len() as int)),
            text@ == joined(spoken_groups(words), " "@),
            words == opts_view(segments@.map_values(|s: SpokenSegment| s.words)),
        decreases segments.len() - k,
    {
        let ghost rest = languages.subrange(k as int, languages.len() as int);
        assert(rest[0] == languages[k as int]);
        match &segments[k].language {
            Some(l) => {
                let language = l.clone();
                return (text, Some(language));
            },
            None => {
                assert(rest.drop_first() =~= languages.subrange(k + 1, languages.len() as int));
            },
        }
        k = k + 1;
    }
    (text, None)
}

} // verus!
