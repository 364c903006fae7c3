use verbatim::speech::driver::SynthError;
use verbatim::speech::host::{snapshot_values, upsert, validate, SettingsMirror};
use verbatim::speech::queue::{job_ending, JobEnding, SpeechLanes, SpeechPriority};
use verbatim::speech::registry::SynthRegistry;
use verbatim::speech::render::{flatten, spoken_text, PlainTheme, SpokenSegment};
use verbatim::speech::settings::{SettingDescriptor, SettingId, SettingValue, SynthChoice, SynthId};
use verbatim::synth::capture::CaptureSynth;

#[test]
fn standard_numeric_uses_nvda_range_and_steps() {
    let descriptor = SettingDescriptor::standard_numeric("rate", "setting-rate");
    let SettingDescriptor::Numeric { min, max, small_step, normal_step, large_step, .. } = descriptor else {
        panic!("expected numeric descriptor");
    };
    assert_eq!((min, max), (0, 100));
    assert_eq!((small_step, normal_step, large_step), (1, 5, 10));
}

#[test]
fn descriptor_accessors_reach_every_variant() {
    let toggle = SettingDescriptor::Toggle { id: SettingId::new("rate-boost"), label_key: "setting-rate-boost".into() };
    assert_eq!(toggle.id().0, "rate-boost");
    assert_eq!(toggle.label_key(), "setting-rate-boost");
}

#[test]
fn next_lane_jumps_ahead_of_queued() {
    let mut lanes: SpeechLanes<&str> = SpeechLanes::new();
    let mut spoken = Vec::new();
    let first = lanes.speak(SpeechPriority::Queued, "first");
    assert!(!first.cancel);
    spoken.push(first.job.expect("idle pipeline dispatches at once"));
    assert!(lanes.speak(SpeechPriority::Queued, "second-queued").job.is_none());
    assert!(lanes.speak(SpeechPriority::Next, "third-next").job.is_none());
    spoken.push(lanes.finished().expect("next job"));
    spoken.push(lanes.finished().expect("next job"));
    assert_eq!(lanes.finished(), None);
    assert_eq!(spoken, ["first", "third-next", "second-queued"]);
    assert!(!lanes.is_busy());
}

#[test]
fn interrupt_cancels_current_and_queued() {
    let mut lanes: SpeechLanes<&str> = SpeechLanes::new();
    assert_eq!(lanes.speak(SpeechPriority::Queued, "current").job, Some("current"));
    assert!(lanes.speak(SpeechPriority::Queued, "queued-victim").job.is_none());
    let urgent = lanes.speak(SpeechPriority::Interrupt, "urgent");
    assert!(urgent.cancel, "an interrupt cancels the current utterance");
    assert!(urgent.job.is_none(), "the cancelled utterance still holds the synth thread");
    // The cancelled job returns: its audio is discarded, not drained.
    assert_eq!(job_ending(true, true, false, false), JobEnding::Stop);
    assert_eq!(lanes.finished(), Some("urgent"));
    assert_eq!(job_ending(true, false, false, false), JobEnding::Drain);
    assert_eq!(lanes.finished(), None, "the queued victim never speaks");
}

#[test]
fn switching_synthesizers_drops_everything_waiting() {
    let mut lanes: SpeechLanes<u32> = SpeechLanes::new();
    assert_eq!(lanes.speak(SpeechPriority::Queued, 1).job, Some(1));
    lanes.speak(SpeechPriority::Next, 2);
    lanes.speak(SpeechPriority::Queued, 3);
    assert!(lanes.switch_synth());
    assert_eq!(lanes.finished(), None);
}

#[test]
fn job_ending_covers_every_outcome() {
    assert_eq!(job_ending(false, true, true, true), JobEnding::Nothing);
    assert_eq!(job_ending(true, false, true, false), JobEnding::Stop);
    assert_eq!(job_ending(true, false, false, true), JobEnding::Stop);
    assert_eq!(job_ending(true, false, false, false), JobEnding::Drain);
}

fn capture_mirror() -> SettingsMirror {
    let synth = CaptureSynth::new();
    let descriptors = synth.supported_settings();
    let readings = descriptors.iter().map(|descriptor| synth.setting(descriptor.id())).collect();
    let values = snapshot_values(&descriptors, readings);
    let choice = SynthChoice { id: synth.id(), display_name: synth.display_name() };
    SettingsMirror::new(vec![choice.clone()], choice, descriptors, values)
}

#[test]
fn settings_host_get_set_commit_revert() {
    let mut host = capture_mirror();
    let rate = SettingId::new("rate");
    let voice = SettingId::new("voice");

    assert_eq!(host.active_synthesizer().id, SynthId::new("capture"));
    assert!(host.synthesizers().iter().any(|choice| choice.id == SynthId::new("capture")));
    assert_eq!(host.setting(&rate), Some(SettingValue::Number(50)));

    host.set_setting(&rate, SettingValue::Number(75)).unwrap();
    assert_eq!(host.setting(&rate), Some(SettingValue::Number(75)));

    let err = host.set_setting(&rate, SettingValue::Number(500)).unwrap_err();
    assert!(matches!(err, SynthError::Setting(_)));
    assert_eq!(host.setting(&rate), Some(SettingValue::Number(75)));

    host.set_setting(&voice, SettingValue::Choice("capture-b".to_owned())).unwrap();
    let (persisted_id, values) = host.to_persist();
    assert_eq!(persisted_id, SynthId::new("capture"));
    assert!(values.contains(&(rate.clone(), SettingValue::Number(75))));
    assert!(values.contains(&(voice.clone(), SettingValue::Choice("capture-b".to_owned()))));
    host.commit_with(Ok(())).unwrap();

    host.set_setting(&rate, SettingValue::Number(10)).unwrap();
    assert_eq!(host.setting(&rate), Some(SettingValue::Number(10)));
    let restored = host.revert();
    assert!(restored.switch_back.is_none());
    assert!(restored.values.contains(&(rate.clone(), SettingValue::Number(75))));
    assert_eq!(host.setting(&rate), Some(SettingValue::Number(75)));
}

#[test]
fn revert_after_a_switch_restores_the_committed_synthesizer() {
    let mut host = capture_mirror();
    let rate = SettingId::new("rate");
    let capture = host.active_synthesizer();
    let other = SynthChoice { id: SynthId::new("onecore"), display_name: "Windows OneCore voices".to_owned() };
    let descriptors = host.setting_descriptors();
    host.switch_to(other.clone(), descriptors, vec![(rate.clone(), SettingValue::Number(30))]);
    assert_eq!(host.active_synthesizer(), other);
    assert_eq!(host.setting(&rate), Some(SettingValue::Number(30)));

    let reverted = host.revert();
    assert_eq!(reverted.switch_back, Some(capture.clone()));
    assert!(reverted.values.contains(&(rate.clone(), SettingValue::Number(50))));
    assert_eq!(host.active_synthesizer(), capture);
    assert_eq!(host.setting(&rate), Some(SettingValue::Number(50)));

    host.switch_to(other.clone(), host.setting_descriptors(), vec![(rate.clone(), SettingValue::Number(30))]);
    host.commit_with(Ok(())).unwrap();
    let reverted = host.revert();
    assert_eq!(reverted.switch_back, None);
    assert_eq!(host.active_synthesizer(), other);
    assert_eq!(host.setting(&rate), Some(SettingValue::Number(30)));
}

#[test]
fn a_failed_persist_is_a_setting_error_and_commits_nothing() {
    let mut host = capture_mirror();
    let rate = SettingId::new("rate");
    host.set_setting(&rate, SettingValue::Number(20)).unwrap();
    let err = host.commit_with(Err("disk full".to_owned())).unwrap_err();
    assert_eq!(err, SynthError::Setting("disk full".to_owned()));
    host.revert();
    assert_eq!(host.setting(&rate), Some(SettingValue::Number(50)));
}

#[test]
fn validation_errors_name_the_setting_and_the_problem() {
    let descriptors = CaptureSynth::new().supported_settings();
    let rate = SettingId::new("rate");
    let voice = SettingId::new("voice");
    assert_eq!(validate(&descriptors, &rate, &SettingValue::Number(100)), Ok(()));
    assert_eq!(
        validate(&descriptors, &rate, &SettingValue::Number(101)),
        Err(SynthError::Setting("setting rate value 101 outside 0..=100".to_owned()))
    );
    assert_eq!(
        validate(&descriptors, &rate, &SettingValue::Number(-3)),
        Err(SynthError::Setting("setting rate value -3 outside 0..=100".to_owned()))
    );
    assert_eq!(
        validate(&descriptors, &voice, &SettingValue::Choice("nobody".to_owned())),
        Err(SynthError::Setting("setting voice has no option nobody".to_owned()))
    );
    assert_eq!(
        validate(&descriptors, &voice, &SettingValue::Toggle(true)),
        Err(SynthError::Setting("setting voice value has the wrong type".to_owned()))
    );
    assert_eq!(
        validate(&descriptors, &SettingId::new("pitch"), &SettingValue::Number(1)),
        Err(SynthError::Setting("unknown setting pitch".to_owned()))
    );
}

#[test]
fn upsert_replaces_in_place_and_appends_new_ids() {
    let mut values = vec![
        (SettingId::new("voice"), SettingValue::Choice("a".to_owned())),
        (SettingId::new("rate"), SettingValue::Number(1)),
    ];
    upsert(&mut values, SettingId::new("voice"), SettingValue::Choice("b".to_owned()));
    upsert(&mut values, SettingId::new("pitch"), SettingValue::Number(3));
    assert_eq!(
        values,
        vec![
            (SettingId::new("voice"), SettingValue::Choice("b".to_owned())),
            (SettingId::new("rate"), SettingValue::Number(1)),
            (SettingId::new("pitch"), SettingValue::Number(3)),
        ]
    );
}

#[test]
fn synth_errors_read_as_messages() {
    assert_eq!(SynthError::Unavailable("x".to_owned()).message(), "synthesizer unavailable: x");
    assert_eq!(SynthError::Setting("y".to_owned()).message(), "synthesizer setting rejected: y");
    assert_eq!(SynthError::Synthesis("z".to_owned()).message(), "synthesis failed: z");
}

fn words(text: &str) -> SpokenSegment {
    SpokenSegment { words: spoken_text(text), language: None }
}

fn token(spoken: &str) -> SpokenSegment {
    SpokenSegment { words: Some(spoken.to_owned()), language: None }
}

fn silent() -> SpokenSegment {
    SpokenSegment { words: None, language: None }
}

#[test]
fn render_renders_text_and_role_joined_with_spaces() {
    let (text, language) = flatten(&vec![words("Settings"), token("menu item")]);
    assert_eq!(text, "Settings menu item");
    assert_eq!(language, None);
}

#[test]
fn render_drops_silent_states_and_keeps_announced_ones() {
    let (text, _) = flatten(&vec![words("Bold"), silent(), token("not checked")]);
    assert_eq!(text, "Bold not checked");
}

#[test]
fn render_language_override_flows_from_first_tagged_segment() {
    let mut segment = words("hola");
    segment.language = Some("es".to_owned());
    let (_, language) = flatten(&vec![words("x"), segment, SpokenSegment { words: None, language: Some("fr".to_owned()) }]);
    assert_eq!(language.as_deref(), Some("es"));
}

#[test]
fn theme_renders_text_and_role_joined_with_spaces() {
    let (text, _) = PlainTheme.flatten(&vec![words("Settings"), token("menu item")]);
    assert_eq!(text, "Settings menu item");
}

#[test]
fn theme_drops_silent_states_and_keeps_announced_ones() {
    let (text, _) = PlainTheme.flatten(&vec![words("Bold"), silent(), token("not checked")]);
    assert_eq!(text, "Bold not checked");
}

#[test]
fn theme_language_override_flows_from_first_tagged_segment() {
    let mut segment = words("hola");
    segment.language = Some("es".to_owned());
    let (_, language) = PlainTheme.flatten(&vec![segment]);
    assert_eq!(language.as_deref(), Some("es"));
}

#[test]
fn labels_values_and_descriptions_render_as_their_text() {
    // The slider role enters as the localized word it resolves to.
    let (text, _) = PlainTheme.flatten(&vec![words("Rate"), token("slider"), words("50"), words("Speech rate")]);
    assert_eq!(text, "Rate slider 50 Speech rate");
    assert_eq!(spoken_text(""), None);
}

#[test]
fn registry_replaces_a_reregistered_id_and_builds_through_its_factory() {
    let mut registry: SynthRegistry<Box<dyn Fn() -> Result<u32, SynthError>>> = SynthRegistry::new();
    registry.register(SynthId::new("onecore"), "OneCore", Box::new(|| Ok(1)));
    registry.register(SynthId::new("capture"), "Capture synth", Box::new(|| Ok(2)));
    registry.register(SynthId::new("onecore"), "OneCore voices", Box::new(|| Ok(3)));
    let choices = registry.choices();
    assert_eq!(choices.len(), 2);
    assert_eq!(choices[0].id, SynthId::new("onecore"));
    assert_eq!(choices[0].display_name, "OneCore voices");
    assert_eq!(choices[1].id, SynthId::new("capture"));
    assert!(registry.contains(&SynthId::new("capture")));
    assert!(!registry.contains(&SynthId::new("espeak")));
    assert_eq!(registry.build(&SynthId::new("onecore")), Ok(3));
    assert_eq!(registry.build(&SynthId::new("capture")), Ok(2));
    assert_eq!(
        registry.build(&SynthId::new("espeak")),
        Err(SynthError::Unavailable("no synthesizer registered as espeak".to_owned()))
    );
}

#[test]
fn snapshots_pair_descriptors_with_reported_values() {
    let descriptors = vec![
        SettingDescriptor::standard_numeric("rate", "setting-rate"),
        SettingDescriptor::Toggle { id: SettingId::new("boost"), label_key: "setting-boost".to_owned() },
        SettingDescriptor::standard_numeric("pitch", "setting-pitch"),
    ];
    let values = snapshot_values(&descriptors, vec![Some(SettingValue::Number(5)), None, Some(SettingValue::Number(7))]);
    assert_eq!(
        values,
        vec![(SettingId::new("rate"), SettingValue::Number(5)), (SettingId::new("pitch"), SettingValue::Number(7))]
    );
}
