use verbatim::uia::map::{
    is_layout, is_presentable_focus_ancestor, role_from_control_type, states_from_uia, RawUiaStates, Role, State,
    BUTTON_CONTROL_TYPE, CHECK_BOX_CONTROL_TYPE, DOCUMENT_CONTROL_TYPE, EDIT_CONTROL_TYPE, EXPAND_STATE_COLLAPSED,
    EXPAND_STATE_EXPANDED, MENU_ITEM_CONTROL_TYPE, TAB_CONTROL_TYPE, TAB_ITEM_CONTROL_TYPE, TOGGLE_STATE_INDETERMINATE,
    TOGGLE_STATE_ON,
};
use verbatim::uia::registry::{ElementCache, NodeId, NodeIdTable, MAX_CACHED_ELEMENTS};

#[test]
fn known_control_types_map_to_expected_roles() {
    assert_eq!(role_from_control_type(BUTTON_CONTROL_TYPE), Role::Button);
    assert_eq!(role_from_control_type(CHECK_BOX_CONTROL_TYPE), Role::CheckBox);
    assert_eq!(role_from_control_type(EDIT_CONTROL_TYPE), Role::EditableText);
    assert_eq!(role_from_control_type(MENU_ITEM_CONTROL_TYPE), Role::MenuItem);
    assert_eq!(role_from_control_type(TAB_ITEM_CONTROL_TYPE), Role::Tab);
    assert_eq!(role_from_control_type(TAB_CONTROL_TYPE), Role::TabControl);
}

#[test]
fn control_type_ids_are_the_uia_values() {
    assert_eq!(BUTTON_CONTROL_TYPE, 50000);
    assert_eq!(role_from_control_type(50004), Role::EditableText);
    assert_eq!(role_from_control_type(DOCUMENT_CONTROL_TYPE), Role::EditableText);
    assert_eq!(role_from_control_type(50033), Role::Pane);
    assert_eq!(role_from_control_type(50032), Role::Window);
}

#[test]
fn unmapped_control_type_is_unknown() {
    assert_eq!(role_from_control_type(-1), Role::Unknown);
    assert_eq!(role_from_control_type(999_999), Role::Unknown);
}

#[test]
fn unavailable_toggle_pattern_never_yields_mixed() {
    let raw = RawUiaStates {
        has_focus: true,
        focusable: true,
        enabled: true,
        offscreen: false,
        toggle_available: false,
        toggle_state: Some(TOGGLE_STATE_INDETERMINATE),
        expand_available: false,
        expand_state: Some(3),
    };
    let states = states_from_uia(&raw);
    assert!(states.contains(State::Focused));
    assert!(states.contains(State::Focusable));
    assert!(!states.contains(State::Mixed), "a non-toggle element must not be reported as half-checked");
    assert!(!states.contains(State::Expanded));
    assert!(!states.contains(State::Collapsed));
}

#[test]
fn available_toggle_pattern_maps_toggle_state() {
    let base = RawUiaStates {
        has_focus: false,
        focusable: true,
        enabled: true,
        offscreen: false,
        toggle_available: true,
        toggle_state: Some(TOGGLE_STATE_ON),
        expand_available: false,
        expand_state: None,
    };
    assert!(states_from_uia(&base).contains(State::Checked));
    let indeterminate = RawUiaStates { toggle_state: Some(TOGGLE_STATE_INDETERMINATE), ..base };
    assert!(states_from_uia(&indeterminate).contains(State::Mixed));
    let off = RawUiaStates { toggle_state: Some(0), ..base };
    let off_states = states_from_uia(&off);
    assert!(!off_states.contains(State::Checked));
    assert!(!off_states.contains(State::Mixed));
}

#[test]
fn available_expand_pattern_maps_expand_state() {
    let expanded = RawUiaStates {
        has_focus: false,
        focusable: true,
        enabled: true,
        offscreen: false,
        toggle_available: false,
        toggle_state: None,
        expand_available: true,
        expand_state: Some(EXPAND_STATE_EXPANDED),
    };
    assert!(states_from_uia(&expanded).contains(State::Expanded));
    let collapsed = RawUiaStates { expand_state: Some(EXPAND_STATE_COLLAPSED), ..expanded };
    assert!(states_from_uia(&collapsed).contains(State::Collapsed));
}

#[test]
fn disabled_when_not_enabled() {
    let raw = RawUiaStates {
        has_focus: false,
        focusable: false,
        enabled: false,
        offscreen: true,
        toggle_available: false,
        toggle_state: None,
        expand_available: false,
        expand_state: None,
    };
    let states = states_from_uia(&raw);
    assert!(states.contains(State::Disabled));
    assert!(states.contains(State::Offscreen));
}

#[test]
fn panes_and_unknowns_are_always_layout() {
    assert!(is_layout(Role::Pane, Some("named"), None));
    assert!(is_layout(Role::Unknown, Some("named"), None));
}

#[test]
fn unnamed_groupings_and_windows_are_layout_but_named_ones_are_content() {
    assert!(is_layout(Role::Group, None, None));
    assert!(is_layout(Role::Window, Some("  "), None));
    assert!(!is_layout(Role::Group, Some("Quick access"), None));
    assert!(!is_layout(Role::Group, None, Some("described")));
}

#[test]
fn blank_static_text_is_layout_and_real_text_is_content() {
    assert!(is_layout(Role::StaticText, None, None));
    assert!(!is_layout(Role::StaticText, Some("3 items"), None));
}

#[test]
fn interactive_roles_are_content_even_unnamed() {
    assert!(!is_layout(Role::List, None, None));
    assert!(!is_layout(Role::ListItem, None, None));
    assert!(!is_layout(Role::Button, None, None));
}

#[test]
fn item_and_text_roles_are_not_presentable_focus_ancestors() {
    assert!(!is_presentable_focus_ancestor(Role::ListItem, Some("Desktop"), None));
    assert!(!is_presentable_focus_ancestor(Role::TreeItem, Some("Home"), None));
    assert!(!is_presentable_focus_ancestor(Role::EditableText, Some("Search"), None));
    assert!(is_presentable_focus_ancestor(Role::Group, Some("Quick access"), None));
    assert!(!is_presentable_focus_ancestor(Role::Pane, Some("named"), None));
}

#[test]
fn same_runtime_id_maps_to_same_node_id() {
    let mut counter = 1u64;
    let mut registry = NodeIdTable::new();
    let first = registry.id_for(&[42, 7], &mut counter);
    let again = registry.id_for(&[42, 7], &mut counter);
    let other = registry.id_for(&[42, 8], &mut counter);
    assert_eq!(first, again);
    assert_ne!(first, other);
}

#[test]
fn reverse_lookup_round_trips() {
    let mut counter = 1u64;
    let mut registry = NodeIdTable::new();
    let id = registry.id_for(&[1, 2, 3], &mut counter);
    assert_eq!(registry.runtime_id_of(id), Some(vec![1, 2, 3]));
}

#[test]
fn shared_counter_keeps_ids_distinct_across_registries() {
    let mut counter = 1u64;
    let mut uia = NodeIdTable::new();
    let mut other = NodeIdTable::new();
    let a = uia.id_for(&[1], &mut counter);
    let b = other.id_for(&[1], &mut counter);
    assert_ne!(a, b, "distinct registries sharing a counter never collide");
}

#[test]
fn empty_runtime_ids_always_get_a_fresh_identity() {
    let mut counter = 10u64;
    let mut registry = NodeIdTable::new();
    let a = registry.id_for(&[], &mut counter);
    let b = registry.id_for(&[], &mut counter);
    assert_eq!(a, NodeId(10));
    assert_eq!(b, NodeId(11));
    assert_eq!(registry.runtime_id_of(a), None);
    assert_eq!(counter, 12);
}

#[test]
fn element_cache_is_cleared_when_full() {
    let mut cache: ElementCache<u32> = ElementCache::new();
    for node in 0..MAX_CACHED_ELEMENTS as u64 {
        cache.insert(NodeId(node), 1);
    }
    assert_eq!(cache.len(), MAX_CACHED_ELEMENTS);
    assert_eq!(cache.get(NodeId(5)), Some(&1));
    cache.insert(NodeId(99_999), 3);
    assert_eq!(cache.len(), 1, "a full cache is cleared before the insert");
    assert_eq!(cache.get(NodeId(99_999)), Some(&3));
    assert_eq!(cache.get(NodeId(5)), None);
    cache.evict(NodeId(99_999));
    assert_eq!(cache.get(NodeId(99_999)), None);
}
