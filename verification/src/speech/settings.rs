//! Data-driven synthesizer settings: descriptors the settings GUI generates
//! its controls from, and the values they take.

use vstd::prelude::*;

verus! {

/// Stable identifier of a synthesizer, used in config and the synth list.
#[derive(Clone, Debug, PartialEq, Eq, Hash)]
pub struct SynthId(pub String);

impl View for SynthId {
    type V = Seq<char>;

    open spec fn view(&self) -> Seq<char> {
        self.0@
    }
}

impl SynthId {
    /// Wraps an identifier string such as `onecore`.
    pub fn new(id: &str) -> (r: Self)
        ensures
            r@ == id@,
    {
        SynthId(id.to_owned())
    }

    /// The identifier text.
    pub fn as_str(&self) -> (r: &str)
        ensures
            r@ == self@,
    {
        self.0.as_str()
    }
}

/// One entry in the synthesizer list: id plus display name.
#[derive(Clone, Debug, PartialEq, Eq)]
pub struct SynthChoice {
    /// Stable identifier.
    pub id: SynthId,
    /// Human-readable name shown in the Select Synthesizer dialog.
    pub display_name: String,
}

/// Stable identifier of one driver setting, such as `rate` or `voice`.
#[derive(Clone, Debug, PartialEq, Eq, Hash)]
pub struct SettingId(pub String);

impl View for SettingId {
    type V = Seq<char>;

    open spec fn view(&self) -> Seq<char> {
        self.0@
    }
}

impl SettingId {
    /// Wraps an identifier string such as `rate`.
    pub fn new(id: &str) -> (r: Self)
        ensures
            r@ == id@,
    {
        SettingId(id.to_owned())
    }

    /// The identifier text.
    pub fn as_str(&self) -> (r: &str)
        ensures
            r@ == self@,
    {
        self.0.as_str()
    }
}

/// The value of one driver setting, as the contracts see it.
pub enum SettingValueView {
    /// A numeric value.
    Number(i32),
    /// A selected option id.
    Choice(Seq<char>),
    /// A toggle state.
    Toggle(bool),
}

/// The value of one driver setting.
#[derive(Clone, Debug, PartialEq, Eq)]
pub enum SettingValue {
    /// Value of a [`SettingDescriptor::Numeric`] setting.
    Number(i32),
    /// Selected option id of a [`SettingDescriptor::Choice`] setting.
    Choice(String),
    /// Value of a [`SettingDescriptor::Toggle`] setting.
    Toggle(bool),
}

impl View for SettingValue {
    type V = SettingValueView;

    open spec fn view(&self) -> SettingValueView {
        match self {
            SettingValue::Number(n) => SettingValueView::Number(*n),
            SettingValue::Choice(c) => SettingValueView::Choice(c@),
            SettingValue::Toggle(b) => SettingValueView::Toggle(*b),
        }
    }
}

impl SettingValue {
    /// A copy of this value.
    pub fn duplicate(&self) -> (r: Self)
        ensures
            r@ == self@,
    {
        match self {
            SettingValue::Number(n) => SettingValue::Number(*n),
            SettingValue::Choice(c) => SettingValue::Choice(c.clone()),
            SettingValue::Toggle(b) => SettingValue::Toggle(*b),
        }
    }
}

/// A descriptor as the contracts see it.
pub enum SettingDescriptorView {
    /// A slider with its range and steps.
    Numeric {
        id: Seq<char>,
        label_key: Seq<char>,
        min: i32,
        max: i32,
        small_step: i32,
        normal_step: i32,
        large_step: i32,
    },
    /// A combo box with its (option id, display name) pairs.
    Choice { id: Seq<char>, label_key: Seq<char>, options: Seq<(Seq<char>, Seq<char>)> },
    /// A check box.
    Toggle { id: Seq<char>, label_key: Seq<char> },
}

impl SettingDescriptorView {
    /// The setting's stable id.
    pub open spec fn id(self) -> Seq<char> {
        match self {
            SettingDescriptorView::Numeric { id, .. } => id,
            SettingDescriptorView::Choice { id, .. } => id,
            SettingDescriptorView::Toggle { id, .. } => id,
        }
    }

    /// The label's message id.
    pub open spec fn label_key(self) -> Seq<char> {
        match self {
            SettingDescriptorView::Numeric { label_key, .. } => label_key,
            SettingDescriptorView::Choice { label_key, .. } => label_key,
            SettingDescriptorView::Toggle { label_key, .. } => label_key,
        }
    }
}

/// The option ids and display names of a choice descriptor.
pub open spec fn options_view(options: Seq<(String, String)>) -> Seq<(Seq<char>, Seq<char>)> {
    options.map_values(|o: (String, String)| (o.0@, o.1@))
}

/// Describes one driver setting so the GUI can generate a control for it.
/// `label_key` fields are message ids, never display text.
#[derive(Clone, Debug, PartialEq, Eq)]
pub enum SettingDescriptor {
    /// A numeric setting rendered as a slider.
    Numeric {
        /// Stable setting id.
        id: SettingId,
        /// Message id of the control label.
        label_key: String,
        /// Smallest value.
        min: i32,
        /// Largest value.
        max: i32,
        /// Arrow-key step.
        small_step: i32,
        /// Step used by the settings ring.
        normal_step: i32,
        /// Page-up and page-down step.
        large_step: i32,
    },
    /// A string setting with enumerated options, rendered as a combo box.
    Choice {
        /// Stable setting id.
        id: SettingId,
        /// Message id of the control label.
        label_key: String,
        /// Option pairs of stable option id and display name, in display
        /// order.
        options: Vec<(String, String)>,
    },
    /// A boolean setting rendered as a check box.
    Toggle {
        /// Stable setting id.
        id: SettingId,
        /// Message id of the control label.
        label_key: String,
    },
}

impl View for SettingDescriptor {
    type V = SettingDescriptorView;

    open spec fn view(&self) -> SettingDescriptorView {
        match self {
            SettingDescriptor::Numeric { id, label_key, min, max, small_step, normal_step, large_step } =>
                SettingDescriptorView::Numeric {
                id: id@,
                label_key: label_key@,
                min: *min,
                max: *max,
                small_step: *small_step,
                normal_step: *normal_step,
                large_step: *large_step,
            },
            SettingDescriptor::Choice { id, label_key, options } => SettingDescriptorView::Choice {
                id: id@,
                label_key: label_key@,
                options: options_view(options@),
            },
            SettingDescriptor::Toggle { id, label_key } => SettingDescriptorView::Toggle {
                id: id@,
                label_key: label_key@,
            },
        }
    }
}

impl SettingDescriptor {
    /// A numeric descriptor with the standard 0 to 100 range and steps 1, 5
    /// and 10.
    pub fn standard_numeric(id: &str, label_key: &str) -> (r: Self)
        ensures
            r@ == (SettingDescriptorView::Numeric {
                id: id@,
                label_key: label_key@,
                min: 0,
                max: 100,
                small_step: 1,
                normal_step: 5,
                large_step: 10,
            }),
    {
        SettingDescriptor::Numeric {
            id: SettingId::new(id),
            label_key: label_key.to_owned(),
            min: 0,
            max: 100,
            small_step: 1,
            normal_step: 5,
            large_step: 10,
        }
    }

    /// The setting's stable id.
    pub fn id(&self) -> (r: &SettingId)
        ensures
            r@ == self@.id(),
    {
        match self {
            SettingDescriptor::Numeric { id, .. } => id,
            SettingDescriptor::Choice { id, .. } => id,
            SettingDescriptor::Toggle { id, .. } => id,
        }
    }

    /// The message id of the control label.
    pub fn label_key(&self) -> (r: &str)
        ensures
            r@ == self@.label_key(),
    {
        match self {
            SettingDescriptor::Numeric { label_key, .. } => label_key.as_str(),
            SettingDescriptor::Choice { label_key, .. } => label_key.as_str(),
            SettingDescriptor::Toggle { label_key, .. } => label_key.as_str(),
        }
    }
}

} // verus!
