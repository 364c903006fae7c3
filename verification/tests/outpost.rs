use verbatim::launch::{parse_args, Mode};
use verbatim::protocol::{
    msaa_listener_fact, uia_listener_fact, DeliveredFact, ListenerFact, NavigateDirection, NavigateOutcome,
    WinEventKind,
};
use verbatim::query_pool::{next_wake, sweep_watches, worker_count, WatchFate};
use verbatim::runtime::{
    active_top_level_window, fetch_result_for_navigate, msaa_event_gate, uia_navigate_direction, wants_selected_child,
    Announcer, AttemptEnd, AttemptStart, FetchResult, MsaaGate, WindowFacts, ANNOUNCE_RETRY_ATTEMPTS,
};
use verbatim::uia::map::Role;

fn args(list: &[&str]) -> Vec<String> {
    list.iter().map(|s| s.to_string()).collect()
}

#[test]
fn pipe_mode_needs_both_handles() {
    assert_eq!(
        parse_args(&args(&["outpost", "--pipe-in", "12", "--pipe-out", "+34"])),
        Some(Mode::Pipe { pipe_in: 12, pipe_out: 34 })
    );
    assert_eq!(parse_args(&args(&["outpost", "--pipe-in", "12"])), None);
    assert_eq!(parse_args(&args(&["outpost", "--pipe-in", "x1", "--pipe-out", "2"])), None);
    assert_eq!(parse_args(&args(&["outpost"])), None);
}

#[test]
fn attach_mode_wins_and_later_flags_override_earlier_ones() {
    assert_eq!(
        parse_args(&args(&["outpost", "--pipe-in", "1", "--pipe-out", "2", "--attach", "4242"])),
        Some(Mode::Attach { pid: 4242 })
    );
    assert_eq!(
        parse_args(&args(&["outpost", "--attach", "1", "--attach", "2"])),
        Some(Mode::Attach { pid: 2 })
    );
    assert_eq!(parse_args(&args(&["outpost", "--attach", "4294967296"])), None);
    assert_eq!(parse_args(&args(&["outpost", "--attach"])), None);
    assert_eq!(parse_args(&args(&["outpost", "--attach", "-1"])), None);
}

#[test]
fn an_unrecognized_or_incomplete_argument_rejects_the_command_line() {
    assert_eq!(parse_args(&args(&["verbatim-outpost", "--bogus", "1", "--attach", "77"])), None);
    assert_eq!(parse_args(&args(&["verbatim-outpost", "--attach", "77", "--bogus", "1"])), None);
    assert_eq!(parse_args(&args(&["verbatim-outpost", "--attach", "77", "--pipe-in"])), None);
    assert_eq!(parse_args(&args(&["verbatim-outpost", "--attach", "77", "--pipe-in", "x"])), None);
    assert_eq!(parse_args(&args(&["verbatim-outpost", "--attach", "77"])), Some(Mode::Attach { pid: 77 }));
}

#[test]
fn every_listener_fact_variant_routes_and_strips_its_pid() {
    let facts: Vec<(ListenerFact<Vec<i32>>, DeliveredFact<Vec<i32>>)> = vec![
        (
            ListenerFact::UiaFocus { pid: 11, hwnd: 0, snapshot: vec![1, 2] },
            DeliveredFact::UiaFocus { hwnd: 0, snapshot: vec![1, 2] },
        ),
        (
            ListenerFact::MsaaFocus { pid: 12, hwnd: 5, id_object: -4, id_child: 3 },
            DeliveredFact::MsaaFocus { hwnd: 5, id_object: -4, id_child: 3 },
        ),
        (ListenerFact::Foreground { pid: 13, hwnd: 6 }, DeliveredFact::Foreground { hwnd: 6 }),
        (
            ListenerFact::MenuPopup { pid: 14, hwnd: 7, id_object: -3, id_child: 0 },
            DeliveredFact::MenuPopup { hwnd: 7, id_object: -3, id_child: 0 },
        ),
    ];
    for (index, (fact, delivered)) in facts.into_iter().enumerate() {
        assert_eq!(fact.pid(), 11 + index as u32);
        assert_eq!(fact.into_delivered(), delivered);
    }
}

#[test]
fn the_listener_forwards_only_focus_foreground_and_menu_events() {
    assert_eq!(
        msaa_listener_fact::<()>(WinEventKind::Focus, 5, 9, -4, 2),
        Some(ListenerFact::MsaaFocus { pid: 9, hwnd: 5, id_object: -4, id_child: 2 })
    );
    assert_eq!(
        msaa_listener_fact::<()>(WinEventKind::Foreground, 5, 9, 0, 0),
        Some(ListenerFact::Foreground { pid: 9, hwnd: 5 })
    );
    assert_eq!(
        msaa_listener_fact::<()>(WinEventKind::MenuPopupStart, 5, 9, -3, 0),
        Some(ListenerFact::MenuPopup { pid: 9, hwnd: 5, id_object: -3, id_child: 0 })
    );
    assert_eq!(msaa_listener_fact::<()>(WinEventKind::ValueChange, 5, 9, 0, 0), None);
    assert_eq!(msaa_listener_fact::<()>(WinEventKind::Focus, 0, 9, 0, 0), None);
    assert_eq!(msaa_listener_fact::<()>(WinEventKind::Focus, 5, 0, 0, 0), None);
    assert_eq!(uia_listener_fact(Some(3), 8, "snap"), Some(ListenerFact::UiaFocus { pid: 3, hwnd: 8, snapshot: "snap" }));
    assert_eq!(uia_listener_fact(Some(0), 8, "snap"), None);
    assert_eq!(uia_listener_fact(None, 8, "snap"), None);
}

#[test]
fn timeout_reports_gone_not_no_neighbor() {
    assert_eq!(fetch_result_for_navigate::<&str>(None), FetchResult::Gone);
}

#[test]
fn acquisition_failure_reports_gone_not_no_neighbor() {
    let outcome = Some(Err("could not re-fetch the node".to_owned()));
    assert_eq!(fetch_result_for_navigate::<&str>(outcome), FetchResult::Gone);
}

#[test]
fn genuine_edge_reports_no_neighbor() {
    let outcome = Some(Ok(NavigateOutcome::NoNeighbor));
    assert_eq!(fetch_result_for_navigate::<&str>(outcome), FetchResult::NoNeighbor);
}

#[test]
fn found_neighbor_reports_the_node() {
    let node = "Item";
    let outcome = Some(Ok(NavigateOutcome::Found(node)));
    assert_eq!(fetch_result_for_navigate(outcome), FetchResult::Node(node));
}

#[test]
fn protocol_directions_map_onto_the_uia_backend() {
    assert_eq!(uia_navigate_direction(NavigateDirection::Parent), verbatim::uia::NavigateDirection::Parent);
    assert_eq!(uia_navigate_direction(NavigateDirection::NextSibling), verbatim::uia::NavigateDirection::NextSibling);
    assert_eq!(
        uia_navigate_direction(NavigateDirection::PreviousSibling),
        verbatim::uia::NavigateDirection::PreviousSibling
    );
    assert_eq!(uia_navigate_direction(NavigateDirection::FirstChild), verbatim::uia::NavigateDirection::FirstChild);
}

#[test]
fn selection_containers_announce_their_selected_child() {
    assert!(wants_selected_child(Role::List));
    assert!(wants_selected_child(Role::TabControl));
    assert!(!wants_selected_child(Role::ListItem));
}

#[test]
fn the_announced_window_skips_the_hidden_frame_and_invisible_windows() {
    let frame = WindowFacts { hwnd: 1, hidden_frame: true, visible: true };
    let housekeeping = WindowFacts { hwnd: 2, hidden_frame: false, visible: false };
    let dialog = WindowFacts { hwnd: 3, hidden_frame: false, visible: true };
    let foreground = WindowFacts { hwnd: 9, hidden_frame: false, visible: true };
    let windows = vec![frame, housekeeping, dialog];
    assert_eq!(active_top_level_window(Some(foreground), &windows), Some(9));
    assert_eq!(active_top_level_window(Some(frame), &windows), Some(3));
    assert_eq!(active_top_level_window(None, &windows), Some(3));
    assert_eq!(active_top_level_window(None, &vec![frame, housekeeping]), None);
}

#[test]
fn msaa_events_are_gated_by_the_hidden_frame_and_the_verdict() {
    assert_eq!(msaa_event_gate(true, 0, true, None), MsaaGate::Drop);
    assert_eq!(msaa_event_gate(true, 3, true, Some(false)), MsaaGate::Acquire { schedule_probe: false });
    assert_eq!(msaa_event_gate(false, 0, true, Some(true)), MsaaGate::Drop);
    assert_eq!(msaa_event_gate(false, 0, false, None), MsaaGate::Acquire { schedule_probe: true });
}

#[test]
fn an_announcement_retries_until_both_parts_are_heard() {
    let mut announcer = Announcer::new();
    assert_eq!(announcer.begin_attempt(true), AttemptStart::Look { window: true, control: true });
    assert!(announcer.wants_window());
    assert!(!announcer.window_found(Some(false), true), "a nameless window is not announced");
    assert!(announcer.wants_control(true));
    assert!(announcer.control_found(true, true));
    assert_eq!(announcer.end_attempt(true), AttemptEnd::Retry);
    assert_eq!(announcer.begin_attempt(true), AttemptStart::Look { window: true, control: false });
    assert!(announcer.wants_window());
    assert!(!announcer.wants_control(true), "the control is announced once");
    assert!(announcer.window_found(Some(true), true));
    assert_eq!(announcer.end_attempt(true), AttemptEnd::Done);
}

#[test]
fn an_announcement_gives_up_after_its_attempts() {
    let mut announcer = Announcer::new();
    let mut ends = Vec::new();
    for _ in 0..ANNOUNCE_RETRY_ATTEMPTS {
        announcer.window_found(None, true);
        announcer.control_found(false, true);
        ends.push(announcer.end_attempt(true));
    }
    assert_eq!(ends.len(), 10);
    assert!(ends[..9].iter().all(|end| *end == AttemptEnd::Retry));
    assert_eq!(ends[9], AttemptEnd::Exhausted);
}

#[test]
fn a_superseded_announcement_stops_without_reporting_exhaustion() {
    let mut announcer = Announcer::new();
    assert_eq!(announcer.begin_attempt(false), AttemptStart::Superseded);
    for _ in 0..ANNOUNCE_RETRY_ATTEMPTS - 1 {
        assert_eq!(announcer.end_attempt(false), AttemptEnd::Retry);
    }
    assert_eq!(announcer.end_attempt(false), AttemptEnd::Superseded);
}

#[test]
fn the_query_pool_watchdog_parks_only_unfinished_overdue_jobs() {
    assert_eq!(worker_count(0), 1);
    assert_eq!(worker_count(4), 4);
    assert_eq!(next_wake(&vec![], 100), None);
    assert_eq!(next_wake(&vec![150, 120, 90], 100), Some(0));
    assert_eq!(next_wake(&vec![150, 120], 100), Some(20));
    let (fates, parked) = sweep_watches(&vec![(90, true), (90, false), (150, false)], 100);
    assert_eq!(fates, vec![WatchFate::Finished, WatchFate::Expired, WatchFate::Waiting]);
    assert_eq!(parked, 1);
}
