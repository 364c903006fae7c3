use verbatim::protocol::DeliveredFact;
use verbatim::supervisor::{
    idle_decision, wedge_decision, ListenerBeat, ListenerSlot, OutpostBook, PendingFacts, RouteOutcome, WedgeReason, IDLE_RETIREMENT_MS,
    MISSED_PONG_THRESHOLD, PARKED_THREAD_KILL_THRESHOLD, PING_INTERVAL_MS,
};

const START: u64 = 1_700_000_000_000;

#[test]
fn idle_decision_is_false_before_the_threshold() {
    let now = START + 119_000;
    assert!(!idle_decision(START, now, 120_000));
}

#[test]
fn idle_decision_is_true_at_and_past_the_threshold() {
    assert!(idle_decision(START, START + 120_000, 120_000));
    assert!(idle_decision(START, START + 200_000, 120_000));
}

#[test]
fn idle_decision_never_panics_when_now_precedes_last_foreground() {
    let earlier = START - 5_000;
    assert!(!idle_decision(START, earlier, 120_000));
}

#[test]
fn wedge_decision_is_none_when_recently_ponged_and_unparked() {
    let now = START + 1_000;
    assert_eq!(wedge_decision(START, now, 3_000, 3, 0, 8), None);
}

#[test]
fn wedge_decision_is_none_just_before_the_missed_pong_threshold() {
    let now = START + 3_000 * 3 - 1;
    assert_eq!(wedge_decision(START, now, 3_000, 3, 0, 8), None);
}

#[test]
fn wedge_decision_is_missed_heartbeats_at_and_past_the_threshold() {
    let interval = 3_000;
    assert_eq!(
        wedge_decision(START, START + interval * 3, interval, 3, 0, 8),
        Some(WedgeReason::MissedHeartbeats)
    );
    assert_eq!(
        wedge_decision(START, START + interval * 10, interval, 3, 0, 8),
        Some(WedgeReason::MissedHeartbeats)
    );
}

#[test]
fn wedge_decision_is_none_just_below_the_parked_threshold() {
    assert_eq!(wedge_decision(START, START, 3_000, 3, 7, 8), None);
}

#[test]
fn wedge_decision_is_parked_threads_at_and_past_the_threshold() {
    assert_eq!(wedge_decision(START, START, 3_000, 3, 8, 8), Some(WedgeReason::ParkedThreads));
    assert_eq!(wedge_decision(START, START, 3_000, 3, 50, 8), Some(WedgeReason::ParkedThreads));
}

#[test]
fn wedge_decision_prefers_parked_threads_when_both_conditions_hold() {
    let interval = 3_000;
    assert_eq!(
        wedge_decision(START, START + interval * 5, interval, 3, 8, 8),
        Some(WedgeReason::ParkedThreads)
    );
}

#[test]
fn wedge_decision_never_panics_when_now_precedes_last_pong() {
    let earlier = START - 5_000;
    assert_eq!(wedge_decision(START, earlier, 3_000, 3, 0, 8), None);
}

fn uia_focus(runtime: i32) -> DeliveredFact<Vec<i32>> {
    DeliveredFact::UiaFocus { hwnd: 0, snapshot: vec![runtime] }
}

fn msaa_focus(id_child: i32) -> DeliveredFact<Vec<i32>> {
    DeliveredFact::MsaaFocus { hwnd: 9, id_object: -4, id_child }
}

#[test]
fn pending_facts_keep_newest_within_each_backend_and_survive_both() {
    let mut pending: PendingFacts<u64, Vec<i32>> = PendingFacts::new();
    pending.store(1, 1, uia_focus(1));
    pending.store(2, 2, uia_focus(2));
    pending.store(3, 3, msaa_focus(10));
    pending.store(4, 4, msaa_focus(20));
    let drained = pending.drain();
    assert_eq!(drained.len(), 2, "one MSAA and one UIA focus fact survive");
    assert_eq!(drained[0].observed_at_ms, 4);
    assert_eq!(drained[0].fact, msaa_focus(20));
    assert_eq!(drained[1].observed_at_ms, 2);
    assert_eq!(drained[1].fact, uia_focus(2));
}

#[test]
fn pending_facts_drain_in_foreground_msaa_uia_menu_order() {
    let mut pending: PendingFacts<u64, Vec<i32>> = PendingFacts::new();
    pending.store(1, 40, DeliveredFact::MenuPopup { hwnd: 3, id_object: -3, id_child: 0 });
    pending.store(2, 30, uia_focus(2));
    pending.store(3, 20, msaa_focus(5));
    pending.store(4, 10, DeliveredFact::Foreground { hwnd: 1 });
    let order: Vec<u64> = pending.drain().iter().map(|p| p.observed_at_ms).collect();
    assert_eq!(order, vec![10, 20, 30, 40]);
}

#[test]
fn pending_facts_drain_leaves_slots_empty() {
    let mut pending: PendingFacts<u64, Vec<i32>> = PendingFacts::new();
    pending.store(1, 1, DeliveredFact::Foreground { hwnd: 1 });
    assert_eq!(pending.drain().len(), 1);
    assert!(pending.drain().is_empty(), "a second drain finds nothing");
}

#[test]
fn policy_constants_match_the_supervisor_defaults() {
    assert_eq!(IDLE_RETIREMENT_MS, 120_000);
    assert_eq!(PING_INTERVAL_MS, 3_000);
    assert_eq!(MISSED_PONG_THRESHOLD, 3);
    assert_eq!(PARKED_THREAD_KILL_THRESHOLD, 8);
}

#[test]
fn wedge_reasons_read_as_log_text() {
    assert_eq!(WedgeReason::MissedHeartbeats.as_str(), "missed heartbeats");
    assert_eq!(WedgeReason::ParkedThreads.as_str(), "parked threads");
}

#[test]
fn a_spawning_outpost_queues_facts_and_flushes_them_on_ready() {
    let mut book: OutpostBook<u64, Vec<i32>> = OutpostBook::new();
    assert_eq!(book.route(7, 1, 10, DeliveredFact::Foreground { hwnd: 5 }), RouteOutcome::NoOutpost);
    let generation = book.next_generation();
    assert_eq!(generation, 1);
    book.insert_spawned(7, generation, START);
    assert!(book.contains(7));
    assert_eq!(book.route(7, 2, 20, DeliveredFact::Foreground { hwnd: 5 }), RouteOutcome::Queued);
    assert_eq!(book.route(7, 3, 30, msaa_focus(1)), RouteOutcome::Queued);
    // A Ready from a stale spawn changes nothing.
    assert!(book.on_ready(7, generation + 1).is_empty());
    let flushed = book.on_ready(7, generation);
    let order: Vec<u64> = flushed.iter().map(|p| p.observed_at_ms).collect();
    assert_eq!(order, vec![20, 30]);
    match book.route(7, 4, 40, DeliveredFact::Foreground { hwnd: 6 }) {
        RouteOutcome::Deliver(fact) => assert_eq!(fact.observed_at_ms, 40),
        other => panic!("expected delivery, got {other:?}"),
    }
}

#[test]
fn heartbeat_pings_the_healthy_and_kills_the_wedged() {
    let mut book: OutpostBook<u64, Vec<i32>> = OutpostBook::new();
    let first = book.next_generation();
    book.insert_spawned(10, first, START);
    let second = book.next_generation();
    book.insert_spawned(20, second, START);
    book.record_pong(10, first, 0, START + 8_000);
    let plan = book.heartbeat(START + 9_000, PING_INTERVAL_MS, MISSED_PONG_THRESHOLD, PARKED_THREAD_KILL_THRESHOLD);
    assert_eq!(plan.ping, vec![10]);
    assert_eq!(plan.wedged, vec![(20, second, WedgeReason::MissedHeartbeats)]);
}

#[test]
fn idle_sweep_spares_the_foreground_and_the_supervisors_own_process() {
    let mut book: OutpostBook<u64, Vec<i32>> = OutpostBook::new();
    for pid in [1u32, 2, 3, 4] {
        let generation = book.next_generation();
        book.insert_spawned(pid, generation, START);
    }
    assert!(book.note_foreground(4, START + 100_000));
    let retired = book.sweep_idle(Some(2), 3, START + 120_000, IDLE_RETIREMENT_MS);
    assert_eq!(retired, vec![1]);
    assert!(!book.contains(1));
    assert!(book.contains(2));
    assert!(book.contains(3));
    assert!(book.contains(4));
}

#[test]
fn the_listener_slot_follows_the_generation_discipline() {
    let mut slot = ListenerSlot::new();
    assert_eq!(slot.heartbeat(START, PING_INTERVAL_MS, MISSED_PONG_THRESHOLD), ListenerBeat::Spawn);
    slot.spawned(3, START);
    assert!(slot.is_filled());
    assert_eq!(slot.heartbeat(START + 8_999, PING_INTERVAL_MS, MISSED_PONG_THRESHOLD), ListenerBeat::Ping);
    slot.record_pong(2, START + 8_000);
    assert_eq!(
        slot.heartbeat(START + 9_000, PING_INTERVAL_MS, MISSED_PONG_THRESHOLD),
        ListenerBeat::Wedged(3, WedgeReason::MissedHeartbeats),
        "a stale pong does not keep the current listener alive"
    );
    slot.record_pong(3, START + 8_000);
    assert_eq!(slot.heartbeat(START + 9_000, PING_INTERVAL_MS, MISSED_PONG_THRESHOLD), ListenerBeat::Ping);
    assert!(!slot.take_if_current(2));
    assert!(slot.is_filled());
    assert!(slot.take_if_current(3));
    assert!(!slot.is_filled());
}
