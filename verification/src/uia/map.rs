//! Mapping from UIA control types and cached properties into the normalized
//! model: roles from control-type ids, states from cached flags, and which
//! elements are mere layout.

use vstd::prelude::*;

use crate::text::{char_is_whitespace, is_whitespace};

verus! {

/// `UIA_ButtonControlTypeId`.
pub const BUTTON_CONTROL_TYPE: i32 = 50000;
/// `UIA_CheckBoxControlTypeId`.
pub const CHECK_BOX_CONTROL_TYPE: i32 = 50002;
/// `UIA_ComboBoxControlTypeId`.
pub const COMBO_BOX_CONTROL_TYPE: i32 = 50003;
/// `UIA_EditControlTypeId`.
pub const EDIT_CONTROL_TYPE: i32 = 50004;
/// `UIA_HyperlinkControlTypeId`.
pub const HYPERLINK_CONTROL_TYPE: i32 = 50005;
/// `UIA_ListItemControlTypeId`.
pub const LIST_ITEM_CONTROL_TYPE: i32 = 50007;
/// `UIA_ListControlTypeId`.
pub const LIST_CONTROL_TYPE: i32 = 50008;
/// `UIA_MenuControlTypeId`.
pub const MENU_CONTROL_TYPE: i32 = 50009;
/// `UIA_MenuBarControlTypeId`.
pub const MENU_BAR_CONTROL_TYPE: i32 = 50010;
/// `UIA_MenuItemControlTypeId`.
pub const MENU_ITEM_CONTROL_TYPE: i32 = 50011;
/// `UIA_RadioButtonControlTypeId`.
pub const RADIO_BUTTON_CONTROL_TYPE: i32 = 50013;
/// `UIA_SliderControlTypeId`.
pub const SLIDER_CONTROL_TYPE: i32 = 50015;
/// `UIA_SpinnerControlTypeId`.
pub const SPINNER_CONTROL_TYPE: i32 = 50016;
/// `UIA_StatusBarControlTypeId`.
pub const STATUS_BAR_CONTROL_TYPE: i32 = 50017;
/// `UIA_TabControlTypeId`.
pub const TAB_CONTROL_TYPE: i32 = 50018;
/// `UIA_TabItemControlTypeId`.
pub const TAB_ITEM_CONTROL_TYPE: i32 = 50019;
/// `UIA_TextControlTypeId`.
pub const TEXT_CONTROL_TYPE: i32 = 50020;
/// `UIA_ToolBarControlTypeId`.
pub const TOOL_BAR_CONTROL_TYPE: i32 = 50021;
/// `UIA_GroupControlTypeId`.
pub const GROUP_CONTROL_TYPE: i32 = 50026;
/// `UIA_DocumentControlTypeId`.
pub const DOCUMENT_CONTROL_TYPE: i32 = 50030;
/// `UIA_WindowControlTypeId`.
pub const WINDOW_CONTROL_TYPE: i32 = 50032;
/// `UIA_PaneControlTypeId`.
pub const PANE_CONTROL_TYPE: i32 = 50033;

/// `ToggleState_On`.
pub const TOGGLE_STATE_ON: i32 = 1;
/// `ToggleState_Indeterminate`.
pub const TOGGLE_STATE_INDETERMINATE: i32 = 2;
/// `ExpandCollapseState_Collapsed`.
pub const EXPAND_STATE_COLLAPSED: i32 = 0;
/// `ExpandCollapseState_Expanded`.
pub const EXPAND_STATE_EXPANDED: i32 = 1;

/// A normalized role.
#[derive(Clone, Copy, Debug, PartialEq, Eq, Structural, Hash)]
pub enum Role {
    Button,
    CheckBox,
    ComboBox,
    EditableText,
    Slider,
    SpinButton,
    List,
    ListItem,
    Menu,
    MenuBar,
    MenuItem,
    Window,
    StaticText,
    TabControl,
    Tab,
    Link,
    ToolBar,
    StatusBar,
    Group,
    Pane,
    RadioButton,
    PropertyPage,
    TreeItem,
    Unknown,
}

/// The role of a UIA control-type id; unmapped types are unknown, so new
/// UIA controls degrade rather than mislead.
pub open spec fn role_of_control_type(control_type: i32) -> Role {
    if control_type == BUTTON_CONTROL_TYPE {
        Role::Button
    } else if control_type == CHECK_BOX_CONTROL_TYPE {
        Role::CheckBox
    } else if control_type == COMBO_BOX_CONTROL_TYPE {
        Role::ComboBox
    } else if control_type == EDIT_CONTROL_TYPE || control_type == DOCUMENT_CONTROL_TYPE {
        Role::EditableText
    } else if control_type == SLIDER_CONTROL_TYPE {
        Role::Slider
    } else if control_type == SPINNER_CONTROL_TYPE {
        Role::SpinButton
    } else if control_type == LIST_CONTROL_TYPE {
        Role::List
    } else if control_type == LIST_ITEM_CONTROL_TYPE {
        Role::ListItem
    } else if control_type == MENU_CONTROL_TYPE {
        Role::Menu
    } else if control_type == MENU_BAR_CONTROL_TYPE {
        Role::MenuBar
    } else if control_type == MENU_ITEM_CONTROL_TYPE {
        Role::MenuItem
    } else if control_type == WINDOW_CONTROL_TYPE {
        Role::Window
    } else if control_type == TEXT_CONTROL_TYPE {
        Role::StaticText
    } else if control_type == TAB_CONTROL_TYPE {
        Role::TabControl
    } else if control_type == TAB_ITEM_CONTROL_TYPE {
        Role::Tab
    } else if control_type == HYPERLINK_CONTROL_TYPE {
        Role::Link
    } else if control_type == TOOL_BAR_CONTROL_TYPE {
        Role::ToolBar
    } else if control_type == STATUS_BAR_CONTROL_TYPE {
        Role::StatusBar
    } else if control_type == GROUP_CONTROL_TYPE {
        Role::Group
    } else if control_type == PANE_CONTROL_TYPE {
        Role::Pane
    } else if control_type == RADIO_BUTTON_CONTROL_TYPE {
        Role::RadioButton
    } else {
        Role::Unknown
    }
}

/// Maps a UIA control-type id to a normalized role.
pub fn role_from_control_type(control_type: i32) -> (r: Role)
    ensures
        r == role_of_control_type(control_type),
{
    if control_type == BUTTON_CONTROL_TYPE {
        Role::Button
    } else if control_type == CHECK_BOX_CONTROL_TYPE {
        Role::CheckBox
    } else if control_type == COMBO_BOX_CONTROL_TYPE {
        Role::ComboBox
    } else if control_type == EDIT_CONTROL_TYPE || control_type == DOCUMENT_CONTROL_TYPE {
        Role::EditableText
    } else if control_type == SLIDER_CONTROL_TYPE {
        Role::Slider
    } else if control_type == SPINNER_CONTROL_TYPE {
        Role::SpinButton
    } else if control_type == LIST_CONTROL_TYPE {
        Role::List
    } else if control_type == LIST_ITEM_CONTROL_TYPE {
        Role::ListItem
    } else if control_type == MENU_CONTROL_TYPE {
        Role::Menu
    } else if control_type == MENU_BAR_CONTROL_TYPE {
        Role::MenuBar
    } else if control_type == MENU_ITEM_CONTROL_TYPE {
        Role::MenuItem
    } else if control_type == WINDOW_CONTROL_TYPE {
        Role::Window
    } else if control_type == TEXT_CONTROL_TYPE {
        Role::StaticText
    } else if control_type == TAB_CONTROL_TYPE {
        Role::TabControl
    } else if control_type == TAB_ITEM_CONTROL_TYPE {
        Role::Tab
    } else if control_type == HYPERLINK_CONTROL_TYPE {
        Role::Link
    } else if control_type == TOOL_BAR_CONTROL_TYPE {
        Role::ToolBar
    } else if control_type == STATUS_BAR_CONTROL_TYPE {
        Role::StatusBar
    } else if control_type == GROUP_CONTROL_TYPE {
        Role::Group
    } else if control_type == PANE_CONTROL_TYPE {
        Role::Pane
    } else if control_type == RADIO_BUTTON_CONTROL_TYPE {
        Role::RadioButton
    } else {
        Role::Unknown
    }
}

/// The UIA control types the role mapping knows, each with the role it
/// stands for.
pub open spec fn known_control_types() -> Seq<(i32, Role)> {
    seq![
        (BUTTON_CONTROL_TYPE, Role::Button),
        (CHECK_BOX_CONTROL_TYPE, Role::CheckBox),
        (COMBO_BOX_CONTROL_TYPE, Role::ComboBox),
        (EDIT_CONTROL_TYPE, Role::EditableText),
        (DOCUMENT_CONTROL_TYPE, Role::EditableText),
        (HYPERLINK_CONTROL_TYPE, Role::Link),
        (LIST_ITEM_CONTROL_TYPE, Role::ListItem),
        (LIST_CONTROL_TYPE, Role::List),
        (MENU_CONTROL_TYPE, Role::Menu),
        (MENU_BAR_CONTROL_TYPE, Role::MenuBar),
        (MENU_ITEM_CONTROL_TYPE, Role::MenuItem),
        (RADIO_BUTTON_CONTROL_TYPE, Role::RadioButton),
        (SLIDER_CONTROL_TYPE, Role::Slider),
        (SPINNER_CONTROL_TYPE, Role::SpinButton),
        (STATUS_BAR_CONTROL_TYPE, Role::StatusBar),
        (TAB_CONTROL_TYPE, Role::TabControl),
        (TAB_ITEM_CONTROL_TYPE, Role::Tab),
        (TEXT_CONTROL_TYPE, Role::StaticText),
        (TOOL_BAR_CONTROL_TYPE, Role::ToolBar),
        (GROUP_CONTROL_TYPE, Role::Group),
        (WINDOW_CONTROL_TYPE, Role::Window),
        (PANE_CONTROL_TYPE, Role::Pane),
    ]
}

/// Each known UIA control type maps to its own role (the radio button to
/// the radio-button role, the check box to the check-box role, and so on);
/// two different known control types share a role only when they are Edit
/// and Document, which both read as editable text; a known control type is
/// never unknown, and every other id is.
pub proof fn law_control_types_map_to_their_own_roles()
    ensures
        forall|i: int|
            0 <= i < known_control_types().len() ==> role_of_control_type(#[trigger] known_control_types()[i].0)
                == known_control_types()[i].1,
        forall|i: int, j: int|
            0 <= i < known_control_types().len() && 0 <= j < known_control_types().len() && i != j && !(
            known_control_types()[i].0 == EDIT_CONTROL_TYPE && known_control_types()[j].0 == DOCUMENT_CONTROL_TYPE) && !(
            known_control_types()[i].0 == DOCUMENT_CONTROL_TYPE && known_control_types()[j].0 == EDIT_CONTROL_TYPE)
                ==> role_of_control_type(#[trigger] known_control_types()[i].0) != role_of_control_type(
                #[trigger] known_control_types()[j].0,
            ),
        forall|i: int|
            0 <= i < known_control_types().len() ==> role_of_control_type(#[trigger] known_control_types()[i].0)
                != Role::Unknown,
        forall|t: i32|
            (forall|i: int| 0 <= i < known_control_types().len() ==> #[trigger] known_control_types()[i].0 != t)
                ==> role_of_control_type(t) == Role::Unknown,
{
    let k = known_control_types();
    assert(k.len() == 22);
    assert forall|t: i32|
        (forall|i: int| 0 <= i < k.len() ==> #[trigger] k[i].0 != t) implies role_of_control_type(t) == Role::Unknown by {
        assert(k[0].0 != t);
        assert(k[1].0 != t);
        assert(k[2].0 != t);
        assert(k[3].0 != t);
        assert(k[4].0 != t);
        assert(k[5].0 != t);
        assert(k[6].0 != t);
        assert(k[7].0 != t);
        assert(k[8].0 != t);
        assert(k[9].0 != t);
        assert(k[10].0 != t);
        assert(k[11].0 != t);
        assert(k[12].0 != t);
        assert(k[13].0 != t);
        assert(k[14].0 != t);
        assert(k[15].0 != t);
        assert(k[16].0 != t);
        assert(k[17].0 != t);
        assert(k[18].0 != t);
        assert(k[19].0 != t);
        assert(k[20].0 != t);
        assert(k[21].0 != t);
    }
}

/// A normalized state.
#[derive(Clone, Copy, Debug, PartialEq, Eq, Structural, Hash)]
pub enum State {
    Focused,
    Focusable,
    Disabled,
    Offscreen,
    Checked,
    Mixed,
    Expanded,
    Collapsed,
}

/// The raw cached inputs to the UIA state mapping: one cached UIA flag or
/// value each.
#[derive(Clone, Copy, Debug)]
pub struct RawUiaStates {
    /// `HasKeyboardFocus`.
    pub has_focus: bool,
    /// `IsKeyboardFocusable`.
    pub focusable: bool,
    /// `IsEnabled`.
    pub enabled: bool,
    /// `IsOffscreen`.
    pub offscreen: bool,
    /// Whether the element exposes `TogglePattern`; UIA reports a default
    /// toggle state for controls that do not, so the value counts only when
    /// the pattern is there.
    pub toggle_available: bool,
    /// `ToggleState`, when cached.
    pub toggle_state: Option<i32>,
    /// Whether the element exposes `ExpandCollapsePattern`.
    pub expand_available: bool,
    /// `ExpandCollapseState`, when cached.
    pub expand_state: Option<i32>,
}

/// Whether the cached inputs put `state` in the normalized state set.
pub open spec fn has_state(raw: RawUiaStates, state: State) -> bool {
    match state {
        State::Focused => raw.has_focus,
        State::Focusable => raw.focusable,
        State::Disabled => !raw.enabled,
        State::Offscreen => raw.offscreen,
        State::Checked => raw.toggle_available && raw.toggle_state == Some(TOGGLE_STATE_ON),
        State::Mixed => raw.toggle_available && raw.toggle_state == Some(TOGGLE_STATE_INDETERMINATE),
        State::Expanded => raw.expand_available && raw.expand_state == Some(EXPAND_STATE_EXPANDED),
        State::Collapsed => raw.expand_available && raw.expand_state == Some(EXPAND_STATE_COLLAPSED),
    }
}

/// A set of normalized states.
pub struct StateSet {
    states: Vec<State>,
}

impl View for StateSet {
    type V = Set<State>;

    closed spec fn view(&self) -> Set<State> {
        self.states@.to_set()
    }
}

impl StateSet {
    /// The empty set.
    pub fn new() -> (r: Self)
        ensures
            r@ == Set::<State>::empty(),
    {
        let r = StateSet { states: Vec::new() };
        assert(r@ =~= Set::<State>::empty());
        r
    }

    /// Adds a state.
    pub fn insert(&mut self, state: State)
        ensures
            final(self)@ == old(self)@.insert(state),
    {
        self.states.push(state);
        assert(self.states@.to_set() =~= old(self).states@.to_set().insert(state)) by {
            assert forall|s: State| self.states@.contains(s) <==> (old(self).states@.contains(s) || s == state) by {
                if s == state {
                    assert(self.states@[self.states@.len() - 1] == state);
                }
                if old(self).states@.contains(s) {
                    let k = choose|k: int| 0 <= k < old(self).states@.len() && old(self).states@[k] == s;
                    assert(self.states@[k] == s);
                }
            }
        }
    }

    /// Whether the set holds `state`.
    pub fn contains(&self, state: State) -> (r: bool)
        ensures
            r == self@.contains(state),
    {
        let mut i: usize = 0;
        while i < self.states.len()
            invariant
                i <= self.states@.len(),
                forall|j: int| 0 <= j < i ==> self.states@[j] != state,
            decreases self.states.len() - i,
        {
            if self.states[i] == state {
                assert(self.states@[i as int] == state);
                return true;
            }
            i = i + 1;
        }
        false
    }
}

/// Maps the raw cached state inputs to a normalized state set. Toggle and
/// expand values count only when their pattern is available, so a non-toggle
/// control's default indeterminate toggle state never becomes a spurious
/// `Mixed`.
pub fn states_from_uia(raw: &RawUiaStates) -> (r: StateSet)
    ensures
        forall|s: State| r@.contains(s) <==> has_state(*raw, s),
{
    let mut states = StateSet::new();
    if raw.has_focus {
        states.insert(State::Focused);
    }
    if raw.focusable {
        states.insert(State::Focusable);
    }
    if !raw.enabled {
        states.insert(State::Disabled);
    }
    if raw.offscreen {
        states.insert(State::Offscreen);
    }
    if raw.toggle_available {
        if raw.toggle_state == Some(TOGGLE_STATE_ON) {
            states.insert(State::Checked);
        } else if raw.toggle_state == Some(TOGGLE_STATE_INDETERMINATE) {
            states.insert(State::Mixed);
        }
    }
    if raw.expand_available {
        if raw.expand_state == Some(EXPAND_STATE_EXPANDED) {
            states.insert(State::Expanded);
        } else if raw.expand_state == Some(EXPAND_STATE_COLLAPSED) {
            states.insert(State::Collapsed);
        }
    }
    states
}

/// Whether every character of a text is whitespace.
pub open spec fn all_whitespace(t: Seq<char>) -> bool {
    forall|i: int| 0 <= i < t.len() ==> char_is_whitespace(#[trigger] t[i])
}

/// Whether a text is absent or only whitespace.
pub open spec fn is_blank(text: Option<Seq<char>>) -> bool {
    match text {
        None => true,
        Some(t) => all_whitespace(t),
    }
}

/// Whether an optional text is absent or only whitespace.
pub fn blank(text: Option<&str>) -> (r: bool)
    ensures
        r == is_blank(
            match text {
                Some(t) => Some(t@),
                None => None,
            },
        ),
{
    match text {
        None => true,
        Some(t) => {
            let chars = crate::text::chars_of(t);
            let mut i: usize = 0;
            while i < chars.len()
                invariant
                    text == Some(t),
                    chars@ == t@,
                    i <= chars@.len(),
                    forall|j: int| 0 <= j < i ==> char_is_whitespace(#[trigger] t@[j]),
                decreases chars.len() - i,
            {
                if !is_whitespace(chars[i]) {
                    assert(!char_is_whitespace(t@[i as int]));
                    assert(!all_whitespace(t@));
                    return false;
                }
                i = i + 1;
            }
            true
        },
    }
}

/// Whether an element is mere layout: unknown roles and panes always,
/// static text without a name, and windows, property pages and groups with
/// neither a name nor a description.
pub open spec fn is_layout_spec(role: Role, name: Option<Seq<char>>, description: Option<Seq<char>>) -> bool {
    match role {
        Role::Unknown | Role::Pane => true,
        Role::StaticText => is_blank(name),
        Role::Window | Role::PropertyPage | Role::Group => is_blank(name) && is_blank(description),
        _ => false,
    }
}

/// An optional string slice as the contracts see it.
pub open spec fn opt_str(text: Option<&str>) -> Option<Seq<char>> {
    match text {
        Some(t) => Some(t@),
        None => None,
    }
}

/// Whether an element with this role, name and description is mere layout,
/// which spoken focus ancestry leaves out.
pub fn is_layout(role: Role, name: Option<&str>, description: Option<&str>) -> (r: bool)
    ensures
        r == is_layout_spec(role, opt_str(name), opt_str(description)),
{
    match role {
        Role::Unknown | Role::Pane => true,
        Role::StaticText => blank(name),
        Role::Window | Role::PropertyPage | Role::Group => blank(name) && blank(description),
        _ => false,
    }
}

/// Whether an ancestor is worth speaking as focus context: not layout, and
/// not a role that never meaningfully contains the focus (list items, tree
/// items, editable text).
pub open spec fn is_presentable_spec(role: Role, name: Option<Seq<char>>, description: Option<Seq<char>>) -> bool {
    !is_layout_spec(role, name, description) && !(role is ListItem || role is TreeItem || role is EditableText)
}

/// Whether an ancestor is worth speaking as focus context.
pub fn is_presentable_focus_ancestor(role: Role, name: Option<&str>, description: Option<&str>) -> (r: bool)
    ensures
        r == is_presentable_spec(role, opt_str(name), opt_str(description)),
{
    !is_layout(role, name, description) && !matches!(role, Role::ListItem | Role::TreeItem | Role::EditableText)
}

/// A window, property page or group is layout exactly when both its name
/// and its description are absent or blank: a named or described one is
/// focus context worth speaking.
pub proof fn law_containers_are_layout_only_when_unnamed(
    role: Role,
    name: Option<Seq<char>>,
    description: Option<Seq<char>>,
)
    requires
        role is Window || role is PropertyPage || role is Group,
    ensures
        is_layout_spec(role, name, description) <==> (is_blank(name) && is_blank(description)),
{
}

/// An element whose name holds a character that is not whitespace is layout
/// only when its role is unknown or a pane; and layout is never presentable.
pub proof fn law_named_elements_are_layout_only_as_panes(
    role: Role,
    name: Seq<char>,
    description: Option<Seq<char>>,
    k: int,
)
    requires
        0 <= k < name.len(),
        !char_is_whitespace(name[k]),
    ensures
        is_layout_spec(role, Some(name), description) ==> (role is Unknown || role is Pane),
        is_layout_spec(role, Some(name), description) ==> !is_presentable_spec(role, Some(name), description),
{
}

/// The cached flags map one to one onto the plain states; a toggle or
/// expand state counts only when its pattern is exposed; checked and mixed
/// never hold together, nor do expanded and collapsed.
pub proof fn law_states_follow_the_cached_flags(raw: RawUiaStates)
    ensures
        has_state(raw, State::Focused) == raw.has_focus,
        has_state(raw, State::Focusable) == raw.focusable,
        has_state(raw, State::Disabled) == !raw.enabled,
        has_state(raw, State::Offscreen) == raw.offscreen,
        !raw.toggle_available ==> !has_state(raw, State::Checked) && !has_state(raw, State::Mixed),
        !raw.expand_available ==> !has_state(raw, State::Expanded) && !has_state(raw, State::Collapsed),
        raw.toggle_available ==> (has_state(raw, State::Checked) <==> raw.toggle_state == Some(TOGGLE_STATE_ON)),
        raw.expand_available ==> (has_state(raw, State::Expanded) <==> raw.expand_state == Some(
            EXPAND_STATE_EXPANDED,
        )),
        !(has_state(raw, State::Checked) && has_state(raw, State::Mixed)),
        !(has_state(raw, State::Expanded) && has_state(raw, State::Collapsed)),
{
}

/// List items, tree items and editable text are never spoken as focus
/// context; any other role is spoken exactly when it is not layout, so a
/// button, list or dialog-like window with a name always is.
pub proof fn law_presentable_ancestors(role: Role, name: Option<Seq<char>>, description: Option<Seq<char>>)
    ensures
        (role is ListItem || role is TreeItem || role is EditableText) ==> !is_presentable_spec(role, name, description),
        !(role is ListItem || role is TreeItem || role is EditableText) ==> (is_presentable_spec(role, name, description)
            <==> !is_layout_spec(role, name, description)),
        (role is Unknown || role is Pane) ==> is_layout_spec(role, name, description),
        !(role is Unknown || role is Pane || role is StaticText || role is Window || role is PropertyPage
            || role is Group) ==> !is_layout_spec(role, name, description),
        role is StaticText ==> (is_layout_spec(role, name, description) <==> is_blank(name)),
{
}

} // verus!
