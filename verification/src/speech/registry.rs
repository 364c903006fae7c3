//! The synth driver registry: named factories the pipeline builds active
//! drivers from, and switches between at runtime.
//!
//! Registration records an id and display name alongside the factory, so the
//! synthesizer list can be shown without constructing every driver. A later
//! registration under an id already present replaces the earlier one in
//! place, so ids stay unique and the display order is the order of first
//! registration.

use vstd::prelude::*;

use crate::speech::driver::{SynthError, SynthErrorView};
use crate::speech::settings::{SynthChoice, SynthId};

verus! {

/// One registered synthesizer.
pub struct RegisteredSynth<F> {
    /// Stable identifier.
    pub id: SynthId,
    /// Name shown in the synthesizer list.
    pub display_name: String,
    /// Builds a fresh driver.
    pub factory: F,
}

/// The (id, display name) pairs of a list of entries, in order.
pub open spec fn entry_names<F>(entries: Seq<RegisteredSynth<F>>) -> Seq<(Seq<char>, Seq<char>)> {
    entries.map_values(|e: RegisteredSynth<F>| (e.id@, e.display_name@))
}

/// The ids of a list of (id, display name) pairs, in order.
pub open spec fn names_ids(names: Seq<(Seq<char>, Seq<char>)>) -> Seq<Seq<char>> {
    names.map_values(|n: (Seq<char>, Seq<char>)| n.0)
}

/// No id occurs twice.
pub open spec fn ids_unique(names: Seq<(Seq<char>, Seq<char>)>) -> bool {
    forall|i: int, j: int| 0 <= i < j < names.len() ==> names[i].0 != names[j].0
}

/// The list after registering `id` under `name`: the entry with that id is
/// renamed in place, or a new entry is appended.
pub open spec fn register_spec(names: Seq<(Seq<char>, Seq<char>)>, id: Seq<char>, name: Seq<char>) -> Seq<
    (Seq<char>, Seq<char>),
> {
    match names_ids(names).index_of_first(id) {
        Some(i) => names.update(i, (id, name)),
        None => names.push((id, name)),
    }
}

/// The detail of the error `build` reports for an id nothing is registered
/// under.
pub open spec fn unregistered_detail(id: Seq<char>) -> Seq<char> {
    "no synthesizer registered as "@ + id
}

/// A set of synth driver factories keyed by [`SynthId`], in registration
/// (display) order.
pub struct SynthRegistry<F> {
    entries: Vec<RegisteredSynth<F>>,
}

impl<F> SynthRegistry<F> {
    /// The registered (id, display name) pairs, in display order.
    pub closed spec fn names(&self) -> Seq<(Seq<char>, Seq<char>)> {
        entry_names(self.entries@)
    }

    /// The factory registered at position `i`.
    pub closed spec fn factory_at(&self, i: int) -> F {
        self.entries@[i].factory
    }

    /// The registry's invariant: no id is registered twice.
    pub closed spec fn wf(&self) -> bool {
        ids_unique(self.names())
    }

    /// Creates an empty registry.
    pub fn new() -> (r: Self)
        ensures
            r.wf(),
            r.names() == Seq::<(Seq<char>, Seq<char>)>::empty(),
    {
        let r = SynthRegistry { entries: Vec::new() };
        assert(r.names() =~= Seq::<(Seq<char>, Seq<char>)>::empty());
        r
    }

    /// The position of the entry registered under `id`.
    fn position(&self, id: &SynthId) -> (r: Option<usize>)
        ensures
            names_ids(self.names()).index_of_first(id@) == (match r {
                Some(i) => Some(i as int),
                None => None::<int>,
            }),
            r matches Some(i) ==> i < self.entries@.len(),
    {
        let ghost keys = names_ids(self.names());
        let mut i: usize = 0;
        while i < self.entries.len()
            invariant
                keys == names_ids(self.names()),
                keys.len() == self.entries@.len(),
                i <= self.entries@.len(),
                forall|j: int| 0 <= j < i ==> keys[j] != id@,
            decreases self.entries.len() - i,
        {
            if self.entries[i].id.0 == id.0 {
                proof {
                    assert(keys[i as int] == id@);
                    crate::speech::host::lemma_first_index_is(keys, id@, i as int);
                }
                return Some(i);
            }
            assert(keys[i as int] != id@);
            i = i + 1;
        }
        proof {
            crate::speech::host::lemma_first_index_none(keys, id@);
        }
        None
    }

    /// Registers a factory under `id` with the given display name; a later
    /// registration with the same id replaces the earlier one in place.
    pub fn register(&mut self, id: SynthId, display_name: &str, factory: F)
        requires
            old(self).wf(),
        ensures
            final(self).wf(),
            final(self).names() == register_spec(old(self).names(), id@, display_name@),
            (match names_ids(old(self).names()).index_of_first(id@) {
                Some(i) => final(self).factory_at(i) == factory && forall|j: int|
                    0 <= j < old(self).names().len() && j != i ==> final(self).factory_at(j) == old(
                        self,
                    ).factory_at(j),
                None => final(self).factory_at(old(self).names().len() as int) == factory && forall|j: int|
                    0 <= j < old(self).names().len() ==> final(self).factory_at(j) == old(self).factory_at(j),
            }),
    {
        let ghost before = self.names();
        let ghost idv = id@;
        let ghost keys = names_ids(before);
        proof {
            keys.index_of_first_ensures(idv);
        }
        let entry = RegisteredSynth { id, display_name: display_name.to_owned(), factory };
        match self.position(&entry.id) {
            Some(i) => {
                self.entries.set(i, entry);
                assert(self.names() =~= before.update(i as int, (idv, display_name@)));
                assert forall|a: int, b: int| 0 <= a < b < self.names().len() implies self.names()[a].0
                    != self.names()[b].0 by {
                    if a == i as int {
                        assert(keys[b] == before[b].0);
                    } else if b == i as int {
                        assert(keys[a] == before[a].0);
                    }
                }
            },
            None => {
                self.entries.push(entry);
                assert(self.names() =~= before.push((idv, display_name@)));
                assert forall|a: int, b: int| 0 <= a < b < self.names().len() implies self.names()[a].0
                    != self.names()[b].0 by {
                    if b == before.len() {
                        assert(keys[a] == before[a].0);
                        assert(keys[a] != idv);
                    }
                }
            },
        }
    }

    /// The registered synthesizers as choices, in display order.
    pub fn choices(&self) -> (r: Vec<SynthChoice>)
        ensures
            crate::speech::host::choices_view(r@) == self.names(),
    {
        let mut r: Vec<SynthChoice> = Vec::new();
        let mut i: usize = 0;
        while i < self.entries.len()
            invariant
                i <= self.entries@.len(),
                r@.len() == i,
                forall|j: int|
                    0 <= j < i ==> crate::speech::host::choice_view(#[trigger] r@[j]) == (
                        self.entries@[j].id@,
                        self.entries@[j].display_name@,
                    ),
            decreases self.entries.len() - i,
        {
            r.push(
                SynthChoice {
                    id: SynthId(self.entries[i].id.0.clone()),
                    display_name: self.entries[i].display_name.clone(),
                },
            );
            i = i + 1;
        }
        assert(crate::speech::host::choices_view(r@) =~= self.names());
        r
    }

    /// Whether a synthesizer with this id is registered.
    pub fn contains(&self, id: &SynthId) -> (r: bool)
        ensures
            r == names_ids(self.names()).contains(id@),
    {
        let ghost keys = names_ids(self.names());
        proof {
            keys.index_of_first_ensures(id@);
        }
        self.position(id).is_some()
    }

    /// Builds the driver registered under `id` by calling its factory; an id
    /// nothing is registered under is reported as unavailable.
    pub fn build<D>(&self, id: &SynthId) -> (r: Result<D, SynthError>) where F: Fn() -> Result<D, SynthError>
        requires
            forall|i: int| 0 <= i < self.names().len() ==> call_requires(self.factory_at(i), ()),
        ensures
            match names_ids(self.names()).index_of_first(id@) {
                Some(i) => call_ensures(self.factory_at(i), (), r),
                None => r matches Err(e) && e@ == SynthErrorView::Unavailable(unregistered_detail(id@)),
            },
    {
        match self.position(id) {
            Some(i) => {
                assert(call_requires(self.factory_at(i as int), ()));
                (self.entries[i].factory)()
            },
            None => {
                let mut detail = "no synthesizer registered as ".to_owned();
                detail.append(id.as_str());
                Err(SynthError::Unavailable(detail))
            },
        }
    }
}

/// Registering an id makes it registered, and keeps every id unique.
pub proof fn law_register_then_contains(names: Seq<(Seq<char>, Seq<char>)>, id: Seq<char>, name: Seq<char>)
    requires
        ids_unique(names),
    ensures
        names_ids(register_spec(names, id, name)).contains(id),
        ids_unique(register_spec(names, id, name)),
        register_spec(names, id, name).len() == if names_ids(names).contains(id) {
            names.len()
        } else {
            names.len() + 1
        },
{
    let keys = names_ids(names);
    let after = register_spec(names, id, name);
    keys.index_of_first_ensures(id);
    match keys.index_of_first(id) {
        Some(i) => {
            assert(names_ids(after)[i] == id);
            assert forall|a: int, b: int| 0 <= a < b < after.len() implies after[a].0 != after[b].0 by {
                if a == i {
                    assert(keys[b] == names[b].0);
                } else if b == i {
                    assert(keys[a] == names[a].0);
                }
            }
        },
        None => {
            assert(names_ids(after)[names.len() as int] == id);
            assert forall|a: int, b: int| 0 <= a < b < after.len() implies after[a].0 != after[b].0 by {
                if b == names.len() {
                    assert(keys[a] == names[a].0);
                }
            }
        },
    }
}

/// Registering the same id twice leaves one entry, under the later name.
pub proof fn law_reregistering_replaces(
    names: Seq<(Seq<char>, Seq<char>)>,
    id: Seq<char>,
    first: Seq<char>,
    second: Seq<char>,
)
    requires
        ids_unique(names),
    ensures
        register_spec(register_spec(names, id, first), id, second) == register_spec(names, id, second),
{
    let keys = names_ids(names);
    let once = register_spec(names, id, first);
    let once_keys = names_ids(once);
    keys.index_of_first_ensures(id);
    match keys.index_of_first(id) {
        Some(i) => {
            assert forall|j: int| 0 <= j < i implies once_keys[j] != id by {
                assert(keys[j] != id);
            }
            crate::speech::host::lemma_first_index_is(once_keys, id, i);
            assert(register_spec(once, id, second) =~= register_spec(names, id, second));
        },
        None => {
            let n = names.len() as int;
            assert forall|j: int| 0 <= j < n implies once_keys[j] != id by {
                assert(keys[j] != id);
            }
            crate::speech::host::lemma_first_index_is(once_keys, id, n);
            assert(register_spec(once, id, second) =~= register_spec(names, id, second));
        },
    }
}

} // verus!
