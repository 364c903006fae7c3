//! The settings mirror behind the settings GUI: the active synthesizer's
//! descriptors, its current (live) values and its last committed values.
//!
//! Set calls validate against the descriptors and apply to the current
//! values; `commit` makes the active synthesizer and its current values the
//! committed ones, and `revert` restores the committed synthesizer and
//! values.

use vstd::prelude::*;

use crate::speech::driver::{SynthError, SynthErrorView};
use crate::speech::settings::{
    SettingDescriptor, SettingDescriptorView, SettingId, SettingValue, SettingValueView, SynthChoice, SynthId,
};
use crate::text::{decimal, push_decimal, str_equal};

verus! {

/// The live handle the settings GUI uses to inspect and adjust speech.
///
/// Set calls apply immediately to the running synthesizer so slider drags
/// are audible as they happen; `commit` persists the active synthesizer and
/// its current values, and `revert` restores the last committed synthesizer
/// and values (the Cancel path).
pub trait SpeechSettingsHost {
    /// Every installed synthesizer, in display order.
    fn synthesizers(&self) -> Vec<SynthChoice>;

    /// The active synthesizer.
    fn active_synthesizer(&self) -> SynthChoice;

    /// Switches the active synthesizer, applying its persisted settings.
    fn set_active_synthesizer(&self, id: &SynthId) -> Result<(), SynthError>;

    /// Setting descriptors for the active synthesizer, in display order.
    fn setting_descriptors(&self) -> Vec<SettingDescriptor>;

    /// The current value of one setting of the active synthesizer.
    fn setting(&self, id: &SettingId) -> Option<SettingValue>;

    /// Applies a setting to the running synthesizer immediately, without
    /// persisting it.
    fn set_setting(&self, id: &SettingId, value: SettingValue) -> Result<(), SynthError>;

    /// Persists the active synthesizer and its current setting values.
    fn commit(&self) -> Result<(), SynthError>;

    /// Restores the last committed synthesizer and setting values,
    /// discarding uncommitted live changes.
    fn revert(&self);
}

/// A list of setting values as the contracts see it.
pub open spec fn values_view(v: Seq<(SettingId, SettingValue)>) -> Seq<(Seq<char>, SettingValueView)> {
    v.map_values(|e: (SettingId, SettingValue)| (e.0@, e.1@))
}

/// A list of descriptors as the contracts see it.
pub open spec fn descriptors_view(v: Seq<SettingDescriptor>) -> Seq<SettingDescriptorView> {
    v.map_values(|d: SettingDescriptor| d@)
}

/// The ids of a value list, in order.
pub open spec fn value_keys(values: Seq<(Seq<char>, SettingValueView)>) -> Seq<Seq<char>> {
    values.map_values(|e: (Seq<char>, SettingValueView)| e.0)
}

/// The first position in `values` whose id is `id`.
pub open spec fn first_value_index(values: Seq<(Seq<char>, SettingValueView)>, id: Seq<char>) -> Option<int> {
    value_keys(values).index_of_first(id)
}

/// The value `values` holds for `id`: the first one listed.
pub open spec fn lookup_value(values: Seq<(Seq<char>, SettingValueView)>, id: Seq<char>) -> Option<SettingValueView> {
    match first_value_index(values, id) {
        Some(i) => Some(values[i].1),
        None => None,
    }
}

/// `values` with `id`'s value replaced in place, or appended when absent.
pub open spec fn upsert_spec(
    values: Seq<(Seq<char>, SettingValueView)>,
    id: Seq<char>,
    value: SettingValueView,
) -> Seq<(Seq<char>, SettingValueView)> {
    match first_value_index(values, id) {
        Some(i) => values.update(i, (id, value)),
        None => values.push((id, value)),
    }
}

/// The ids of a descriptor list, in order.
pub open spec fn descriptor_keys(descriptors: Seq<SettingDescriptorView>) -> Seq<Seq<char>> {
    descriptors.map_values(|d: SettingDescriptorView| d.id())
}

/// The first descriptor in `descriptors` whose id is `id`.
pub open spec fn first_descriptor(descriptors: Seq<SettingDescriptorView>, id: Seq<char>) -> Option<SettingDescriptorView> {
    match descriptor_keys(descriptors).index_of_first(id) {
        Some(i) => Some(descriptors[i]),
        None => None,
    }
}

/// A position that holds `x` with no `x` before it is the first position of `x`.
pub proof fn lemma_first_index_is<A>(s: Seq<A>, x: A, k: int)
    requires
        0 <= k < s.len(),
        s[k] == x,
        forall|j: int| 0 <= j < k ==> s[j] != x,
    ensures
        s.index_of_first(x) == Some(k),
{
    s.index_of_first_ensures(x);
    assert(s.contains(x));
    let i = s.index_of_first(x).unwrap();
    if i < k {
        assert(s[i] != x);
    } else if i > k {
        assert(s[k] != x);
    }
}

/// A sequence without `x` has no first position of `x`.
pub proof fn lemma_first_index_none<A>(s: Seq<A>, x: A)
    requires
        forall|j: int| 0 <= j < s.len() ==> s[j] != x,
    ensures
        s.index_of_first(x) is None,
{
    s.index_of_first_ensures(x);
    if s.index_of_first(x) is Some {
        let i = s.index_of_first(x).unwrap();
        assert(s[i] != x);
    }
}

/// Whether `value` fits the descriptor with id `id`; on a misfit, the detail
/// of the [`SynthError::Setting`] error.
pub open spec fn validate_spec(
    descriptors: Seq<SettingDescriptorView>,
    id: Seq<char>,
    value: SettingValueView,
) -> Result<(), Seq<char>> {
    match first_descriptor(descriptors, id) {
        None => Err("unknown setting "@ + id),
        Some(descriptor) => match (descriptor, value) {
            (SettingDescriptorView::Numeric { min, max, .. }, SettingValueView::Number(n)) => if min <= n
                <= max {
                Ok(())
            } else {
                Err(
                    "setting "@ + id + " value "@ + decimal(n as int) + " outside "@ + decimal(min as int) + "..="@
                        + decimal(max as int),
                )
            },
            (SettingDescriptorView::Choice { options, .. }, SettingValueView::Choice(choice)) => if exists|k: int|
                0 <= k < options.len() && options[k].0 == choice {
                Ok(())
            } else {
                Err("setting "@ + id + " has no option "@ + choice)
            },
            (SettingDescriptorView::Toggle { .. }, SettingValueView::Toggle(_)) => Ok(()),
            _ => Err("setting "@ + id + " value has the wrong type"@),
        },
    }
}

/// The position of the first descriptor with id `id`.
fn find_descriptor(descriptors: &Vec<SettingDescriptor>, id: &SettingId) -> (r: Option<usize>)
    ensures
        r matches Some(i) ==> i < descriptors@.len() && first_descriptor(descriptors_view(descriptors@), id@) == Some(
            descriptors@[i as int]@,
        ),
        r is None ==> first_descriptor(descriptors_view(descriptors@), id@) is None,
{
    let ghost keys = descriptor_keys(descriptors_view(descriptors@));
    let mut i: usize = 0;
    while i < descriptors.len()
        invariant
            keys == descriptor_keys(descriptors_view(descriptors@)),
            keys.len() == descriptors@.len(),
            i <= descriptors@.len(),
            forall|j: int| 0 <= j < i ==> keys[j] != id@,
        decreases descriptors.len() - i,
    {
        if descriptors[i].id().0 == id.0 {
            proof {
                assert(keys[i as int] == id@);
                lemma_first_index_is(keys, id@, i as int);
            }
            return Some(i);
        }
        assert(keys[i as int] != id@);
        i = i + 1;
    }
    proof {
        lemma_first_index_none(keys, id@);
    }
    None
}

/// The position of the first value with id `id`.
fn find_value(values: &Vec<(SettingId, SettingValue)>, id: &SettingId) -> (r: Option<usize>)
    ensures
        r matches Some(i) ==> i < values@.len() && first_value_index(values_view(values@), id@) == Some(i as int),
        r is None ==> first_value_index(values_view(values@), id@) is None,
{
    let ghost keys = value_keys(values_view(values@));
    let mut i: usize = 0;
    while i < values.len()
        invariant
            keys == value_keys(values_view(values@)),
            keys.len() == values@.len(),
            i <= values@.len(),
            forall|j: int| 0 <= j < i ==> keys[j] != id@,
        decreases values.len() - i,
    {
        if values[i].0.0 == id.0 {
            proof {
                assert(keys[i as int] == id@);
                lemma_first_index_is(keys, id@, i as int);
            }
            return Some(i);
        }
        assert(keys[i as int] != id@);
        i = i + 1;
    }
    proof {
        lemma_first_index_none(keys, id@);
    }
    None
}

/// Validates a value against the descriptor with the given id.
#[verifier::loop_isolation(false)]
pub fn validate(descriptors: &Vec<SettingDescriptor>, id: &SettingId, value: &SettingValue) -> (r: Result<(), SynthError>)
    ensures
        match validate_spec(descriptors_view(descriptors@), id@, value@) {
            Ok(()) => r is Ok,
            Err(detail) => r matches Err(e) && e@ == SynthErrorView::Setting(detail),
        },
{
    match find_descriptor(descriptors, id) {
        None => {
            let mut message = "unknown setting ".to_owned();
            message.append(id.as_str());
            Err(SynthError::Setting(message))
        },
        Some(index) => {
            let descriptor = &descriptors[index];
            match (descriptor, value) {
                (SettingDescriptor::Numeric { min, max, .. }, SettingValue::Number(number)) => {
                    if *min <= *number && *number <= *max {
                        Ok(())
                    } else {
                        let mut message = "setting ".to_owned();
                        message.append(id.as_str());
                        message.append(" value ");
                        push_decimal(&mut message, *number as i64);
                        message.append(" outside ");
                        push_decimal(&mut message, *min as i64);
                        message.append("..=");
                        push_decimal(&mut message, *max as i64);
                        Err(SynthError::Setting(message))
                    }
                },
                (SettingDescriptor::Choice { options, .. }, SettingValue::Choice(choice)) => {
                    let ghost ov = crate::speech::settings::options_view(options@);
                    let mut k: usize = 0;
                    while k < options.len()
                        invariant
                            ov == crate::speech::settings::options_view(options@),
                            k <= options@.len(),
                            forall|j: int| 0 <= j < k ==> ov[j].0 != choice@,
                        decreases options.len() - k,
                    {
                        if options[k].0 == *choice {
                            assert(ov[k as int].0 == choice@);
                            assert(first_descriptor(descriptors_view(descriptors@), id@) == Some(descriptors@[index as int]@));
                            assert(descriptors@[index as int] == *descriptor);
                            assert(descriptor@ matches SettingDescriptorView::Choice { options: o, .. } && o == ov);
                            assert(value@ == SettingValueView::Choice(choice@));
                            return Ok(());
                        }
                        k = k + 1;
                    }
                    let mut message = "setting ".to_owned();
                    message.append(id.as_str());
                    message.append(" has no option ");
                    message.append(choice.as_str());
                    Err(SynthError::Setting(message))
                },
                (SettingDescriptor::Toggle { .. }, SettingValue::Toggle(_)) => Ok(()),
                _ => {
                    let mut message = "setting ".to_owned();
                    message.append(id.as_str());
                    message.append(" value has the wrong type");
                    Err(SynthError::Setting(message))
                },
            }
        },
    }
}

/// Inserts or replaces `id`'s value in a value list, preserving order.
pub fn upsert(values: &mut Vec<(SettingId, SettingValue)>, id: SettingId, value: SettingValue)
    ensures
        values_view(final(values)@) == upsert_spec(values_view(old(values)@), id@, value@),
{
    let ghost idv = id@;
    let ghost valv = value@;
    match find_value(values, &id) {
        Some(i) => {
            values.set(i, (id, value));
            assert(values_view(values@) =~= values_view(old(values)@).update(i as int, (idv, valv)));
        },
        None => {
            values.push((id, value));
            assert(values_view(values@) =~= values_view(old(values)@).push((idv, valv)));
        },
    }
}

/// A copy of a value list.
pub fn copy_values(values: &Vec<(SettingId, SettingValue)>) -> (r: Vec<(SettingId, SettingValue)>)
    ensures
        values_view(r@) == values_view(values@),
{
    let mut r: Vec<(SettingId, SettingValue)> = Vec::new();
    let mut i: usize = 0;
    while i < values.len()
        invariant
            i <= values@.len(),
            r@.len() == i,
            forall|j: int| 0 <= j < i ==> r@[j].0@ == values@[j].0@ && r@[j].1@ == values@[j].1@,
        decreases values.len() - i,
    {
        let id = SettingId(values[i].0.0.clone());
        let value = values[i].1.duplicate();
        r.push((id, value));
        i = i + 1;
    }
    assert(values_view(r@) =~= values_view(values@));
    r
}

/// A copy of a descriptor.
pub fn copy_descriptor(d: &SettingDescriptor) -> (r: SettingDescriptor)
    ensures
        r@ == d@,
{
    match d {
        SettingDescriptor::Numeric { id, label_key, min, max, small_step, normal_step, large_step } =>
            SettingDescriptor::Numeric {
            id: SettingId(id.0.clone()),
            label_key: label_key.clone(),
            min: *min,
            max: *max,
            small_step: *small_step,
            normal_step: *normal_step,
            large_step: *large_step,
        },
        SettingDescriptor::Choice { id, label_key, options } => {
            let mut copied: Vec<(String, String)> = Vec::new();
            let mut i: usize = 0;
            while i < options.len()
                invariant
                    i <= options@.len(),
                    copied@.len() == i,
                    forall|j: int| 0 <= j < i ==> copied@[j].0@ == options@[j].0@ && copied@[j].1@ == options@[j].1@,
                decreases options.len() - i,
            {
                copied.push((options[i].0.clone(), options[i].1.clone()));
                i = i + 1;
            }
            assert(crate::speech::settings::options_view(copied@) =~= crate::speech::settings::options_view(options@));
            SettingDescriptor::Choice { id: SettingId(id.0.clone()), label_key: label_key.clone(), options: copied }
        },
        SettingDescriptor::Toggle { id, label_key } => SettingDescriptor::Toggle {
            id: SettingId(id.0.clone()),
            label_key: label_key.clone(),
        },
    }
}

/// A copy of a descriptor list.
pub fn copy_descriptors(descriptors: &Vec<SettingDescriptor>) -> (r: Vec<SettingDescriptor>)
    ensures
        descriptors_view(r@) == descriptors_view(descriptors@),
{
    let mut r: Vec<SettingDescriptor> = Vec::new();
    let mut i: usize = 0;
    while i < descriptors.len()
        invariant
            i <= descriptors@.len(),
            r@.len() == i,
            forall|j: int| 0 <= j < i ==> r@[j]@ == descriptors@[j]@,
        decreases descriptors.len() - i,
    {
        r.push(copy_descriptor(&descriptors[i]));
        i = i + 1;
    }
    assert(descriptors_view(r@) =~= descriptors_view(descriptors@));
    r
}

/// A synthesizer choice as the contracts see it: id and display name.
pub open spec fn choice_view(c: SynthChoice) -> (Seq<char>, Seq<char>) {
    (c.id@, c.display_name@)
}

/// A list of synthesizer choices as the contracts see it.
pub open spec fn choices_view(v: Seq<SynthChoice>) -> Seq<(Seq<char>, Seq<char>)> {
    v.map_values(|c: SynthChoice| choice_view(c))
}

/// A copy of a synthesizer choice.
pub fn copy_choice(c: &SynthChoice) -> (r: SynthChoice)
    ensures
        choice_view(r) == choice_view(*c),
{
    SynthChoice { id: SynthId(c.id.0.clone()), display_name: c.display_name.clone() }
}

/// A copy of a list of synthesizer choices.
pub fn copy_choices(v: &Vec<SynthChoice>) -> (r: Vec<SynthChoice>)
    ensures
        choices_view(r@) == choices_view(v@),
{
    let mut r: Vec<SynthChoice> = Vec::new();
    let mut i: usize = 0;
    while i < v.len()
        invariant
            i <= v@.len(),
            r@.len() == i,
            forall|j: int| 0 <= j < i ==> choice_view(r@[j]) == choice_view(v@[j]),
        decreases v.len() - i,
    {
        r.push(copy_choice(&v[i]));
        i = i + 1;
    }
    assert(choices_view(r@) =~= choices_view(v@));
    r
}

/// The (id, value) pairs of the settings a driver reported a value for, in
/// descriptor order.
pub open spec fn snapshot_spec(descriptors: Seq<SettingDescriptorView>, readings: Seq<Option<SettingValueView>>) -> Seq<
    (Seq<char>, SettingValueView),
>
    decreases descriptors.len(),
{
    if descriptors.len() == 0 || readings.len() == 0 {
        Seq::empty()
    } else {
        let before = snapshot_spec(descriptors.drop_last(), readings.drop_last());
        match readings.last() {
            Some(v) => before.push((descriptors.last().id(), v)),
            None => before,
        }
    }
}

/// A list of optional setting values as the contracts see it.
pub open spec fn readings_view(readings: Seq<Option<SettingValue>>) -> Seq<Option<SettingValueView>> {
    readings.map_values(
        |o: Option<SettingValue>|
            match o {
                Some(v) => Some(v@),
                None => None,
            },
    )
}

/// Pairs each descriptor with the value the driver reported for it, in
/// descriptor order, leaving out the settings it reported none for: the
/// snapshot a settings mirror starts from.
pub fn snapshot_values(descriptors: &Vec<SettingDescriptor>, readings: Vec<Option<SettingValue>>) -> (r: Vec<(SettingId, SettingValue)>)
    requires
        descriptors@.len() == readings@.len(),
    ensures
        values_view(r@) == snapshot_spec(descriptors_view(descriptors@), readings_view(readings@)),
{
    let ghost dv = descriptors_view(descriptors@);
    let ghost rv = readings_view(readings@);
    let mut out: Vec<(SettingId, SettingValue)> = Vec::new();
    let mut i: usize = 0;
    while i < descriptors.len()
        invariant
            descriptors@.len() == readings@.len(),
            dv == descriptors_view(descriptors@),
            rv == readings_view(readings@),
            i <= descriptors@.len(),
            values_view(out@) == snapshot_spec(dv.subrange(0, i as int), rv.subrange(0, i as int)),
        decreases descriptors.len() - i,
    {
        assert(dv.subrange(0, i + 1).drop_last() =~= dv.subrange(0, i as int));
        assert(rv.subrange(0, i + 1).drop_last() =~= rv.subrange(0, i as int));
        match &readings[i] {
            Some(value) => {
                let ghost before = values_view(out@);
                let id = SettingId(descriptors[i].id().0.clone());
                let v = value.duplicate();
                out.push((id, v));
                assert(values_view(out@) =~= before.push((dv[i as int].id(), rv[i as int]->Some_0)));
            },
            None => {},
        }
        i = i + 1;
    }
    assert(dv.subrange(0, dv.len() as int) =~= dv);
    assert(rv.subrange(0, rv.len() as int) =~= rv);
    out
}

/// The abstract state of a [`SettingsMirror`].
pub struct MirrorView {
    /// Every installed synthesizer, in display order.
    pub synths: Seq<(Seq<char>, Seq<char>)>,
    /// The active synthesizer.
    pub active: (Seq<char>, Seq<char>),
    /// Its setting descriptors, in display order.
    pub descriptors: Seq<SettingDescriptorView>,
    /// Its live values.
    pub current: Seq<(Seq<char>, SettingValueView)>,
    /// The last committed values.
    pub committed: Seq<(Seq<char>, SettingValueView)>,
    /// The last committed synthesizer.
    pub committed_active: (Seq<char>, Seq<char>),
    /// The last committed synthesizer's setting descriptors.
    pub committed_descriptors: Seq<SettingDescriptorView>,
}

/// The mirror of the active synthesizer's settings state.
pub struct SettingsMirror {
    synths: Vec<SynthChoice>,
    active: SynthChoice,
    descriptors: Vec<SettingDescriptor>,
    current: Vec<(SettingId, SettingValue)>,
    committed: Vec<(SettingId, SettingValue)>,
    committed_active: SynthChoice,
    committed_descriptors: Vec<SettingDescriptor>,
}

/// What a revert hands back for the driver: the committed synthesizer to
/// switch back to, when another one became active since, and the committed
/// values to reapply.
pub struct Reverted {
    /// The synthesizer to switch the driver back to, if the active one
    /// changed since the last commit.
    pub switch_back: Option<SynthChoice>,
    /// The committed values.
    pub values: Vec<(SettingId, SettingValue)>,
}

impl View for SettingsMirror {
    type V = MirrorView;

    closed spec fn view(&self) -> MirrorView {
        MirrorView {
            synths: choices_view(self.synths@),
            active: choice_view(self.active),
            descriptors: descriptors_view(self.descriptors@),
            current: values_view(self.current@),
            committed: values_view(self.committed@),
            committed_active: choice_view(self.committed_active),
            committed_descriptors: descriptors_view(self.committed_descriptors@),
        }
    }
}

impl SettingsMirror {
    /// A mirror of a freshly built driver: it and its values are both the
    /// current and the committed state.
    pub fn new(
        synths: Vec<SynthChoice>,
        active: SynthChoice,
        descriptors: Vec<SettingDescriptor>,
        values: Vec<(SettingId, SettingValue)>,
    ) -> (r: Self)
        ensures
            r@ == (MirrorView {
                synths: choices_view(synths@),
                active: choice_view(active),
                descriptors: descriptors_view(descriptors@),
                current: values_view(values@),
                committed: values_view(values@),
                committed_active: choice_view(active),
                committed_descriptors: descriptors_view(descriptors@),
            }),
    {
        let committed = copy_values(&values);
        let committed_active = copy_choice(&active);
        let committed_descriptors = copy_descriptors(&descriptors);
        SettingsMirror { synths, active, descriptors, current: values, committed, committed_active, committed_descriptors }
    }

    /// Every installed synthesizer, in display order.
    pub fn synthesizers(&self) -> (r: Vec<SynthChoice>)
        ensures
            choices_view(r@) == self@.synths,
    {
        copy_choices(&self.synths)
    }

    /// The active synthesizer.
    pub fn active_synthesizer(&self) -> (r: SynthChoice)
        ensures
            choice_view(r) == self@.active,
    {
        copy_choice(&self.active)
    }

    /// The active synthesizer's setting descriptors, in display order.
    pub fn setting_descriptors(&self) -> (r: Vec<SettingDescriptor>)
        ensures
            descriptors_view(r@) == self@.descriptors,
    {
        copy_descriptors(&self.descriptors)
    }

    /// The current value of one setting.
    pub fn setting(&self, id: &SettingId) -> (r: Option<SettingValue>)
        ensures
            match r {
                Some(v) => lookup_value(self@.current, id@) == Some(v@),
                None => lookup_value(self@.current, id@) is None,
            },
    {
        match find_value(&self.current, id) {
            Some(i) => Some(self.current[i].1.duplicate()),
            None => None,
        }
    }

    /// Validates a value and applies it to the current values; an invalid
    /// value changes nothing.
    pub fn set_setting(&mut self, id: &SettingId, value: SettingValue) -> (r: Result<(), SynthError>)
        ensures
            match validate_spec(old(self)@.descriptors, id@, value@) {
                Ok(()) => r is Ok && final(self)@ == (MirrorView {
                    current: upsert_spec(old(self)@.current, id@, value@),
                    ..old(self)@
                }),
                Err(detail) => r matches Err(e) && e@ == SynthErrorView::Setting(detail) && final(self)@ == old(
                    self,
                )@,
            },
    {
        validate(&self.descriptors, id, &value)?;
        upsert(&mut self.current, SettingId(id.0.clone()), value);
        Ok(())
    }

    /// The active synthesizer's id and its current values: what a commit
    /// persists.
    pub fn to_persist(&self) -> (r: (SynthId, Vec<(SettingId, SettingValue)>))
        ensures
            r.0@ == self@.active.0,
            values_view(r.1@) == self@.current,
    {
        (SynthId(self.active.id.0.clone()), copy_values(&self.current))
    }

    /// Makes the active synthesizer and its current values the committed
    /// ones, after they were persisted.
    pub fn mark_committed(&mut self)
        ensures
            final(self)@ == old(self)@.committed_now(),
    {
        self.committed = copy_values(&self.current);
        self.committed_active = copy_choice(&self.active);
        self.committed_descriptors = copy_descriptors(&self.descriptors);
    }

    /// Finishes a commit once the persistence callback has answered: on
    /// success the active synthesizer and its current values become the
    /// committed ones; a failure
    /// message comes back as a [`SynthError::Setting`] and nothing changes.
    pub fn commit_with(&mut self, persisted: Result<(), String>) -> (r: Result<(), SynthError>)
        ensures
            match persisted {
                Ok(()) => r is Ok && final(self)@ == old(self)@.committed_now(),
                Err(message) => r matches Err(e) && e@ == SynthErrorView::Setting(message@) && final(self)@ == old(
                    self,
                )@,
            },
    {
        match persisted {
            Ok(()) => {
                self.mark_committed();
                Ok(())
            },
            Err(message) => Err(SynthError::Setting(message)),
        }
    }

    /// Restores the last committed synthesizer, its descriptors and its
    /// values, discarding uncommitted changes, and returns what the driver
    /// needs: the synthesizer to switch back to when another one became
    /// active since the commit, and the values to reapply.
    pub fn revert(&mut self) -> (r: Reverted)
        ensures
            final(self)@ == old(self)@.reverted(),
            values_view(r.values@) == old(self)@.committed,
            match r.switch_back {
                Some(c) => choice_view(c) == old(self)@.committed_active && old(self)@.active.0
                    != old(self)@.committed_active.0,
                None => old(self)@.active.0 == old(self)@.committed_active.0,
            },
    {
        let switch_back = if str_equal(self.active.id.0.as_str(), self.committed_active.id.0.as_str()) {
            None
        } else {
            Some(copy_choice(&self.committed_active))
        };
        self.active = copy_choice(&self.committed_active);
        self.descriptors = copy_descriptors(&self.committed_descriptors);
        self.current = copy_values(&self.committed);
        Reverted { switch_back, values: copy_values(&self.committed) }
    }

    /// Adopts a newly activated synthesizer: its choice, descriptors and
    /// persisted values become the current state; the committed state stays
    /// until the next commit.
    pub fn switch_to(&mut self, active: SynthChoice, descriptors: Vec<SettingDescriptor>, values: Vec<(SettingId, SettingValue)>)
        ensures
            final(self)@ == (MirrorView {
                active: choice_view(active),
                descriptors: descriptors_view(descriptors@),
                current: values_view(values@),
                ..old(self)@
            }),
    {
        self.active = active;
        self.descriptors = descriptors;
        self.current = values;
    }
}

impl MirrorView {
    /// This state with the active synthesizer and its current values
    /// committed.
    pub open spec fn committed_now(self) -> MirrorView {
        MirrorView {
            committed: self.current,
            committed_active: self.active,
            committed_descriptors: self.descriptors,
            ..self
        }
    }

    /// This state with the committed synthesizer and values restored.
    pub open spec fn reverted(self) -> MirrorView {
        MirrorView {
            active: self.committed_active,
            descriptors: self.committed_descriptors,
            current: self.committed,
            ..self
        }
    }
}

/// What a set writes is what a read gives back.
pub proof fn law_set_then_read_gives_the_value(
    values: Seq<(Seq<char>, SettingValueView)>,
    id: Seq<char>,
    value: SettingValueView,
)
    ensures
        lookup_value(upsert_spec(values, id, value), id) == Some(value),
{
    let keys = value_keys(values);
    let after = upsert_spec(values, id, value);
    let after_keys = value_keys(after);
    keys.index_of_first_ensures(id);
    match first_value_index(values, id) {
        Some(i) => {
            assert forall|j: int| 0 <= j < i implies after_keys[j] != id by {
                assert(after[j] == values[j]);
                assert(keys[j] != id);
            }
            lemma_first_index_is(after_keys, id, i);
        },
        None => {
            let n = values.len() as int;
            assert forall|j: int| 0 <= j < n implies after_keys[j] != id by {
                assert(after[j] == values[j]);
                assert(keys[j] != id);
            }
            lemma_first_index_is(after_keys, id, n);
        },
    }
}

/// A set leaves the values of every other setting as they were.
pub proof fn law_set_keeps_other_settings(
    values: Seq<(Seq<char>, SettingValueView)>,
    id: Seq<char>,
    value: SettingValueView,
    other: Seq<char>,
)
    requires
        other != id,
    ensures
        lookup_value(upsert_spec(values, id, value), other) == lookup_value(values, other),
{
    let keys = value_keys(values);
    let after = upsert_spec(values, id, value);
    let after_keys = value_keys(after);
    keys.index_of_first_ensures(id);
    keys.index_of_first_ensures(other);
    assert(after.len() >= values.len());
    assert forall|j: int| 0 <= j < after.len() && (j >= values.len() || keys[j] == id) implies after_keys[j] != other by {
        if first_value_index(values, id) is Some {
            let i = first_value_index(values, id).unwrap();
            if j == i {
            } else {
                assert(after[j] == values[j]);
            }
        }
    }
    assert forall|j: int| 0 <= j < values.len() && keys[j] != id implies after[j] == values[j] by {
        if first_value_index(values, id) is Some {
            let i = first_value_index(values, id).unwrap();
            assert(j != i);
        }
    }
    match first_value_index(values, other) {
        Some(k) => {
            assert(after[k] == values[k]);
            assert forall|j: int| 0 <= j < k implies after_keys[j] != other by {
                if keys[j] != id {
                    assert(after[j] == values[j]);
                }
            }
            lemma_first_index_is(after_keys, other, k);
        },
        None => {
            assert forall|j: int| 0 <= j < after_keys.len() implies after_keys[j] != other by {
                if j < values.len() && keys[j] != id {
                    assert(after[j] == values[j]);
                    assert(keys[j] != other);
                }
            }
            lemma_first_index_none(after_keys, other);
        },
    }
}

/// Committing and then reverting leaves the live state as it was.
pub proof fn law_commit_then_revert_keeps_current(m: MirrorView)
    ensures
        m.committed_now().reverted() == m.committed_now(),
        m.committed_now().reverted().active == m.active,
        m.committed_now().reverted().current == m.current,
{
}

/// Reverting after a switch to another synthesizer and any changes, with no
/// commit between, brings back the last committed synthesizer, its
/// descriptors and its values.
pub proof fn law_revert_undoes_a_switch(
    m: MirrorView,
    active: (Seq<char>, Seq<char>),
    descriptors: Seq<SettingDescriptorView>,
    values: Seq<(Seq<char>, SettingValueView)>,
)
    ensures
        ({
            let switched = MirrorView { active, descriptors, current: values, ..m };
            let back = switched.reverted();
            &&& back.active == m.committed_active
            &&& back.descriptors == m.committed_descriptors
            &&& back.current == m.committed
        }),
{
}

} // verus!
