use verbatim::arbitration::Arbitrator;

#[test]
fn good_class_is_uia_without_probing() {
    let mut arb = Arbitrator::new(&[]);
    let mut probed = false;
    let resolution = arb.resolve_with(1, "RAIL_WINDOW", |_| {
        probed = true;
        Some(false)
    });
    assert!(resolution.is_uia);
    assert!(!probed, "good class must not invoke the probe");
}

#[test]
fn bad_class_is_non_uia_without_probing() {
    let arb = Arbitrator::new(&[]);
    assert_eq!(arb.verdict(1, "Edit"), Some(false));
    assert_eq!(arb.verdict(1, "RichEdit20"), Some(false));
}

#[test]
fn extra_good_class_overrides_to_uia() {
    let arb = Arbitrator::new(&["MyAppCanvas"]);
    assert_eq!(arb.verdict(1, "MyAppCanvas"), Some(true));
}

#[test]
fn unknown_class_needs_probe_then_caches() {
    let mut arb = Arbitrator::new(&[]);
    assert_eq!(arb.verdict(42, "SomeUnknownClass"), None);
    let mut calls = 0;
    let first = arb.resolve_with(42, "SomeUnknownClass", |_| {
        calls += 1;
        Some(true)
    });
    assert!(first.is_uia);
    assert_eq!(calls, 1);
    let second = arb.resolve_with(42, "SomeUnknownClass", |_| {
        calls += 1;
        Some(false)
    });
    assert!(second.is_uia);
    assert_eq!(calls, 1, "cached verdict must not re-probe");
    assert_eq!(arb.verdict(42, "SomeUnknownClass"), Some(true));
}

#[test]
fn probe_timeout_is_non_uia_and_flagged() {
    let mut arb = Arbitrator::new(&[]);
    let resolution = arb.resolve_with(7, "AnotherClass", |_| None);
    assert!(!resolution.is_uia);
    assert!(resolution.probe_timed_out);
}

#[test]
fn forced_backend_overrides_class_lists_and_cache() {
    let mut arb = Arbitrator::new(&[]);
    arb.set_forced(Some(false));
    assert_eq!(arb.verdict(1, "RAIL_WINDOW"), Some(false));
    arb.set_forced(Some(true));
    assert_eq!(arb.verdict(1, "Edit"), Some(true));
    arb.set_forced(None);
    assert_eq!(arb.verdict(1, "Edit"), Some(false));
}

#[test]
fn recorded_probe_is_read_back_and_expires() {
    let mut arb = Arbitrator::new(&[]);
    arb.record_probe_at(5, true, 1_000);
    assert_eq!(arb.cached_probe(5, 1_000), Some(true));
    assert_eq!(arb.cached_probe(5, 1_499), Some(true));
    assert_eq!(arb.cached_probe(5, 1_500), None);
    assert_eq!(arb.verdict_at(5, "SomeUnknownClass", 1_200), Some(true));
    assert_eq!(arb.verdict_at(6, "SomeUnknownClass", 1_200), None);
}

#[test]
fn class_lists_decide_before_a_cached_probe() {
    let mut arb = Arbitrator::new(&[]);
    arb.record_probe_at(9, true, 0);
    assert_eq!(arb.verdict_at(9, "Edit", 10), Some(false));
}

#[test]
fn resolution_at_a_reading_caches_the_probe_answer() {
    let mut arb = Arbitrator::new(&[]);
    let first = arb.resolve_at(3, "Unknown", 100, |_| Some(false), || 180);
    assert!(!first.is_uia);
    assert!(!first.probe_timed_out);
    assert_eq!(arb.cached_probe(3, 679), Some(false), "stamped when the probe answered, not when it started");
    assert_eq!(arb.cached_probe(3, 680), None);
    let forced_class = arb.resolve_at(4, "Edit", 100, |_| panic!("never probed"), || panic!("never read"));
    assert!(!forced_class.is_uia);
}
