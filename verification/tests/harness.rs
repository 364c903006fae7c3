use verbatim::harness::ci::{neutrality_verdict, sorted_unique, str_less, tree_offences};
use verbatim::harness::commands::{ffmpeg_args, rdp_file_contents, recording_guest_path, seconds_of_millis};
use verbatim::harness::deploy::{
    artifacts_needing_copy, copy_plan, eq_ignore_ascii_case, guest_hash_script, parse_guest_hashes, CopyPlan,
};
use verbatim::harness::dotenv::{parse, unquote};
use verbatim::harness::guest::{guest_dir_listing, guest_file_bytes, read_file_block, vm_exists_in};
use verbatim::harness::key_values::KeyValues;
use verbatim::harness::powershell::{
    extract_between, extract_json_string, json_string_result, ps_quote, JsonReading, RESULT_BEGIN, RESULT_END,
};
use verbatim::harness::verbs::{
    hcl_string_value, paced_run, parse_test_flags, parse_vm_command, recording_next, run_outcome, suite_environment,
    RecordingNext, TestAction, TestEvent, TestFlags, TestPhase, TestRun, VmCommand,
};

#[test]
fn parse_guest_hashes_reads_path_equals_hash_lines() {
    let output = "C:\\a\\verbatim.exe=ABCD1234\nC:\\a\\settings.toml=MISSING\n";
    let parsed = parse_guest_hashes(output);
    assert_eq!(parsed.get("C:\\a\\verbatim.exe").map(String::as_str), Some("ABCD1234"));
    assert_eq!(parsed.get("C:\\a\\settings.toml").map(String::as_str), Some("MISSING"));
}

#[test]
fn parse_guest_hashes_ignores_blank_lines() {
    let output = "\nC:\\a\\verbatim.exe=ABCD1234\n\n";
    let parsed = parse_guest_hashes(output);
    assert_eq!(parsed.len(), 1);
}

#[test]
fn parse_guest_hashes_keeps_the_last_line_for_a_path_and_splits_at_the_first_equals() {
    let parsed = parse_guest_hashes("  a=1\r\na=2\nb=x=y\nno separator\n");
    assert_eq!(parsed.len(), 2);
    assert_eq!(parsed.get("a").map(String::as_str), Some("2"));
    assert_eq!(parsed.get("b").map(String::as_str), Some("x=y"));
}

#[test]
fn parses_plain_and_quoted_and_commented_lines() {
    let text = "\
# a comment
VERBATIM_VM_USERNAME=verbatim
VERBATIM_VM_PASSWORD=\"has spaces\"

TRAILING = value  ";
    let values = parse(text);
    assert_eq!(values.get("VERBATIM_VM_USERNAME"), Some(&"verbatim".to_owned()));
    assert_eq!(values.get("VERBATIM_VM_PASSWORD"), Some(&"has spaces".to_owned()));
    assert_eq!(values.get("TRAILING"), Some(&"value".to_owned()));
}

#[test]
fn unquote_strips_one_matching_pair_only() {
    assert_eq!(unquote("\"a\""), "a");
    assert_eq!(unquote("'a'"), "a");
    assert_eq!(unquote("\"a'"), "\"a'");
    assert_eq!(unquote("\""), "\"");
    assert_eq!(unquote("\"\""), "");
    assert_eq!(unquote("\"\"x\"\""), "\"x\"");
}

#[test]
fn key_values_read_back_what_was_written() {
    let mut values = KeyValues::new();
    values.insert("k".to_owned(), "1".to_owned());
    values.insert("j".to_owned(), "2".to_owned());
    values.insert("k".to_owned(), "3".to_owned());
    assert_eq!(values.len(), 2);
    assert_eq!(values.get("k"), Some(&"3".to_owned()));
    assert_eq!(values.get("j"), Some(&"2".to_owned()));
    assert_eq!(values.get("x"), None);
}

#[test]
fn ps_quote_doubles_embedded_single_quotes() {
    assert_eq!(ps_quote("plain"), "'plain'");
    assert_eq!(ps_quote("has'quote"), "'has''quote'");
}

#[test]
fn extract_between_finds_the_marked_payload() {
    let text = format!("noise before\n{RESULT_BEGIN}\npayload\n{RESULT_END}\nnoise after");
    assert_eq!(extract_between(&text, RESULT_BEGIN, RESULT_END).unwrap(), "payload");
}

#[test]
fn extract_between_reports_a_missing_marker() {
    let error = extract_between("no markers here", RESULT_BEGIN, RESULT_END).unwrap_err();
    assert!(error.contains(RESULT_BEGIN));
    let only_begin = format!("{RESULT_BEGIN}\npayload");
    let error = extract_between(&only_begin, RESULT_BEGIN, RESULT_END).unwrap_err();
    assert_eq!(error, format!("PowerShell output is missing the {RESULT_END} marker:\n{only_begin}"));
}

#[test]
fn extract_json_string_reads_a_quoted_value() {
    let text = format!("{RESULT_BEGIN}\n\"10.0.0.5\"\n{RESULT_END}");
    assert_eq!(extract_json_string(&text).unwrap(), "10.0.0.5");
}

#[test]
fn extract_json_string_treats_null_as_empty() {
    let text = format!("{RESULT_BEGIN}\nnull\n{RESULT_END}");
    assert_eq!(extract_json_string(&text).unwrap(), "");
}

#[test]
fn extract_json_string_rejects_other_values_and_non_json() {
    let number = format!("{RESULT_BEGIN}\n42\n{RESULT_END}");
    assert_eq!(extract_json_string(&number).unwrap_err(), "expected a JSON string result, got 42");
    let garbage = format!("{RESULT_BEGIN}\nnot json\n{RESULT_END}");
    assert!(extract_json_string(&garbage).unwrap_err().starts_with("could not parse PowerShell JSON result \"not json\": "));
    let empty = format!("{RESULT_BEGIN}\n\n{RESULT_END}");
    assert_eq!(extract_json_string(&empty).unwrap(), "");
}

#[test]
fn json_string_result_maps_each_reading() {
    assert_eq!(json_string_result("\"a\"", JsonReading::Text("a".to_owned())), Ok("a".to_owned()));
    assert_eq!(json_string_result("null", JsonReading::Null), Ok(String::new()));
    assert_eq!(
        json_string_result("[1]", JsonReading::Other("[1]".to_owned())),
        Err("expected a JSON string result, got [1]".to_owned())
    );
    assert_eq!(
        json_string_result("x", JsonReading::Invalid("bad".to_owned())),
        Err("could not parse PowerShell JSON result \"x\": bad".to_owned())
    );
}

#[test]
fn rdp_file_contents_names_the_guest_address_and_audio_mode() {
    let contents = rdp_file_contents("10.0.0.5", "verbatim");
    assert!(contents.contains("full address:s:10.0.0.5\r\n"));
    assert!(contents.contains("username:s:verbatim\r\n"));
    assert!(contents.contains("audiomode:i:0\r\n"));
    assert!(contents.contains("redirectclipboard:i:1\r\n"));
}

#[test]
fn ffmpeg_args_names_the_vb_cable_capture_device_and_fragmented_output() {
    let args = ffmpeg_args(r"C:\VerbatimLab\verbatim\recording.mp4", true);
    assert!(args.contains(&"audio=CABLE Output (VB-Audio Virtual Cable)".to_owned()));
    assert!(
        args.contains(&"+frag_keyframe+empty_moov+default_base_moof".to_owned()),
        "expected fragmented-mp4 movflags so an abrupt stop still leaves a playable file"
    );
    assert_eq!(
        args.last(),
        Some(&r"C:\VerbatimLab\verbatim\recording.mp4".to_owned()),
        "the output path must be the final argument"
    );
}

#[test]
fn ffmpeg_args_captures_both_gdigrab_and_dshow_inputs_when_audio_is_requested() {
    let args = ffmpeg_args("out.mp4", true);
    assert!(args.windows(2).any(|pair| pair == ["-f", "gdigrab"]));
    assert!(args.windows(2).any(|pair| pair == ["-f", "dshow"]));
    assert_eq!(
        args.iter().filter(|arg| arg.as_str() == "-i").count(),
        2,
        "expected exactly one -i for the desktop input and one for the audio input"
    );
    assert!(args.contains(&"-c:a".to_owned()), "expected an audio codec option");
}

#[test]
fn ffmpeg_args_omits_the_dshow_input_and_audio_codec_when_audio_is_not_requested() {
    let args = ffmpeg_args("out.mp4", false);
    assert!(args.windows(2).any(|pair| pair == ["-f", "gdigrab"]));
    assert!(
        !args.windows(2).any(|pair| pair == ["-f", "dshow"]),
        "video-only recording must not attempt to open the VB-CABLE capture device"
    );
    assert_eq!(args.iter().filter(|arg| arg.as_str() == "-i").count(), 1, "expected only the desktop -i input");
    assert!(
        !args.iter().any(|arg| arg == "audio=CABLE Output (VB-Audio Virtual Cable)"),
        "video-only recording must not name the VB-CABLE capture device at all"
    );
    assert!(!args.contains(&"-c:a".to_owned()), "video-only recording must not carry an audio codec option");
}

#[test]
fn recording_guest_path_sits_alongside_verbatims_install_directory() {
    assert_eq!(recording_guest_path(), r"C:\VerbatimLab\verbatim\recording.mp4");
}

#[test]
fn seconds_are_whole_seconds_of_the_millisecond_reading() {
    assert_eq!(seconds_of_millis(Some(1_999)), 1);
    assert_eq!(seconds_of_millis(Some(2_000)), 2);
    assert_eq!(seconds_of_millis(None), 0);
}

#[test]
fn read_hcl_string_finds_a_matching_line() {
    let text = "iso_path = \"iso/foo.iso\"\noutput_directory = \"artifacts/x\"\n";
    assert_eq!(hcl_string_value(text, "output_directory"), Some("artifacts/x".to_owned()));
    assert_eq!(hcl_string_value(text, "temp_path"), None);
    assert_eq!(hcl_string_value("output_directory = unquoted\n", "output_directory"), None);
    assert_eq!(hcl_string_value("  name=\"v\"  \nname = \"w\"", "name"), Some("v".to_owned()));
}

#[test]
fn test_flags_parse_in_any_order_and_reject_unknown_ones() {
    let args: Vec<String> = ["--paced", "--no-restore"].iter().map(|s| s.to_string()).collect();
    assert_eq!(parse_test_flags(&args), Ok(TestFlags { no_restore: true, record: false, paced: true }));
    let args: Vec<String> = ["--record", "--audible"].iter().map(|s| s.to_string()).collect();
    assert_eq!(parse_test_flags(&args), Err("--audible".to_owned()));
    assert_eq!(parse_test_flags(&[]), Ok(TestFlags::default()));
    assert!(paced_run(TestFlags { no_restore: false, record: true, paced: false }));
    assert!(!paced_run(TestFlags::default()));
}

#[test]
fn run_outcome_joins_every_failure() {
    assert_eq!(run_outcome(&vec![]), Ok(()));
    assert_eq!(run_outcome(&vec!["E2E suite failed".to_owned()]), Err("E2E suite failed".to_owned()));
    assert_eq!(run_outcome(&vec!["a".to_owned(), "b".to_owned()]), Err("a; b".to_owned()));
}

#[test]
fn only_artifacts_whose_hashes_differ_are_copied() {
    let paths = vec!["C:\\x\\a.exe".to_owned(), "C:\\x\\b.toml".to_owned(), "C:\\x\\c.exe".to_owned()];
    let local = vec!["abcd".to_owned(), "1234".to_owned(), "ffff".to_owned()];
    let guest = parse_guest_hashes("C:\\x\\a.exe=ABCD\nC:\\x\\b.toml=9999\n");
    let needs_copy = artifacts_needing_copy(&paths, &local, &guest);
    assert_eq!(needs_copy, vec![1, 2]);
    assert!(eq_ignore_ascii_case("ABCD", "abcd"));
    assert!(!eq_ignore_ascii_case("ABCD", "abce"));
    let plan = copy_plan(&needs_copy, &vec![true, false, true], &vec![false, false, true]);
    assert_eq!(plan, CopyPlan { stop_guest: true, restart_agent: true });
    let data_only = copy_plan(&vec![1], &vec![true, false, true], &vec![false, false, true]);
    assert_eq!(data_only, CopyPlan { stop_guest: false, restart_agent: false });
}

#[test]
fn the_guest_hash_script_quotes_every_path() {
    let script = guest_hash_script(&vec!["C:\\a".to_owned(), "it's".to_owned()]);
    assert!(script.starts_with("$paths = @('C:\\a', 'it''s')\nforeach ($p in $paths) {\n"));
    assert!(script.ends_with("\"$p=MISSING\"\n}\n}"));
}

#[test]
fn guest_answers_are_read_line_by_line() {
    assert!(vm_exists_in("noise\n  EXISTS: yes  \n"));
    assert!(!vm_exists_in("EXISTS: no\n"));
    assert_eq!(guest_dir_listing("a.log\n\n  b.log \r\n"), vec!["a.log".to_owned(), "b.log".to_owned()]);
    assert_eq!(
        read_file_block("C:\\it's"),
        "if (Test-Path -LiteralPath 'C:\\it''s') { [Convert]::ToBase64String([System.IO.File]::ReadAllBytes('C:\\it''s')) } else { '' }"
    );
}

#[test]
fn guest_files_decode_from_base64() {
    assert_eq!(guest_file_bytes("C:\\f", "aGk="), Ok(b"hi".to_vec()));
    assert_eq!(guest_file_bytes("C:\\f", ""), Err("C:\\f does not exist on the guest".to_owned()));
    assert!(guest_file_bytes("C:\\f", "!!").unwrap_err().starts_with("C:\\f: guest returned invalid base64: "));
}

fn words(list: &[&str]) -> Vec<String> {
    list.iter().map(|w| w.to_string()).collect()
}

#[test]
fn vm_verbs_read_their_arguments() {
    assert_eq!(parse_vm_command(&words(&[])), VmCommand::Usage);
    assert_eq!(parse_vm_command(&words(&["create"])), VmCommand::Create { skip_build: false });
    assert_eq!(parse_vm_command(&words(&["create", "--skip-build"])), VmCommand::Create { skip_build: true });
    assert_eq!(
        parse_vm_command(&words(&["create", "--fast"])),
        VmCommand::UnknownArgument { verb: "create".to_owned(), argument: "--fast".to_owned() }
    );
    assert_eq!(parse_vm_command(&words(&["restore"])), VmCommand::Restore(None));
    assert_eq!(parse_vm_command(&words(&["restore", "clean"])), VmCommand::Restore(Some("clean".to_owned())));
    assert_eq!(parse_vm_command(&words(&["logs", "out"])), VmCommand::Logs(Some("out".to_owned())));
    assert_eq!(parse_vm_command(&words(&["connect", "--forget"])), VmCommand::Connect { forget: true });
    assert_eq!(
        parse_vm_command(&words(&["connect", "now"])),
        VmCommand::UnknownArgument { verb: "connect".to_owned(), argument: "now".to_owned() }
    );
    assert_eq!(parse_vm_command(&words(&["start", "ignored"])), VmCommand::Start);
    assert_eq!(parse_vm_command(&words(&["delete"])), VmCommand::Delete);
    assert_eq!(parse_vm_command(&words(&["frobnicate"])), VmCommand::UnknownVerb("frobnicate".to_owned()));
}

#[test]
fn vm_test_verb_reads_its_flags() {
    assert_eq!(
        parse_vm_command(&words(&["test", "--record", "--no-restore"])),
        VmCommand::Test(TestFlags { no_restore: true, record: true, paced: false })
    );
    assert_eq!(parse_vm_command(&words(&["test"])), VmCommand::Test(TestFlags::default()));
    assert_eq!(
        parse_vm_command(&words(&["test", "--paced", "--audible"])),
        VmCommand::UnknownArgument { verb: "test".to_owned(), argument: "--audible".to_owned() }
    );
}

#[test]
fn dependency_tree_lines_naming_a_windows_binding_are_offences() {
    let tree = "verbatim-speech v0.1.0 (C:\\src\\speech)\nserde v1.0.200\nwindows v0.58.0\r\n  windows-core v0.58.0\nwindows-sys v0.52.0\nwindowsx v1\n\n";
    assert_eq!(
        tree_offences("verbatim-speech", tree),
        vec!["verbatim-speech depends on windows".to_owned(), "verbatim-speech depends on windows-core".to_owned()]
    );
    assert!(tree_offences("verbatim-model", "verbatim-model v0.1.0\nserde v1\n").is_empty());
}

#[test]
fn neutrality_verdict_lists_each_offence_once_in_order() {
    assert_eq!(neutrality_verdict(&vec![]), Ok(()));
    let offences = vec![
        "verbatim-speech depends on windows".to_owned(),
        "verbatim-audio depends on windows-core".to_owned(),
        "verbatim-speech depends on windows".to_owned(),
    ];
    assert_eq!(
        neutrality_verdict(&offences),
        Err("platform-neutral crates must not depend on the Windows bindings:\n  \
             verbatim-audio depends on windows-core\n  verbatim-speech depends on windows"
            .to_owned())
    );
}

#[test]
fn sorted_unique_orders_as_strings_compare() {
    let items: Vec<String> = ["ab", "a", "b", "ab", "Z", "\u{e9}", "z"].iter().map(|s| s.to_string()).collect();
    let mut expected = items.clone();
    expected.sort();
    expected.dedup();
    assert_eq!(sorted_unique(&items), expected);
    assert!(str_less("a", "ab"));
    assert!(str_less("Z", "a"));
    assert!(!str_less("b", "ab"));
    assert!(!str_less("same", "same"));
    assert!(str_less("z", "\u{e9}"));
}

#[test]
fn the_suite_runs_remote_and_audible_and_paced_on_request() {
    let pair = |k: &str, v: &str| (k.to_owned(), v.to_owned());
    let quick = suite_environment("10.0.0.5:7878", "C:\\VerbatimLab\\verbatim\\verbatim.exe", false);
    assert_eq!(
        quick,
        vec![
            pair("VERBATIM_E2E_ENDPOINT", "10.0.0.5:7878"),
            pair("VERBATIM_E2E_VERBATIM_EXE", "C:\\VerbatimLab\\verbatim\\verbatim.exe"),
            pair("VERBATIM_E2E_REMOTE", "1"),
            pair("VERBATIM_E2E_AUDIBLE", "1"),
        ]
    );
    let paced = suite_environment("e", "x", true);
    assert_eq!(paced.len(), 5);
    assert_eq!(paced[4], pair("VERBATIM_E2E_PACED", "1"));
}

#[test]
fn a_failed_recording_with_audio_falls_back_to_video_only() {
    assert_eq!(recording_next(true, Some(42)), RecordingNext::Started(42));
    assert_eq!(recording_next(true, None), RecordingNext::RetryVideoOnly);
    assert_eq!(recording_next(false, Some(7)), RecordingNext::Started(7));
    assert_eq!(recording_next(false, None), RecordingNext::Unrecorded);
}

fn env_of(action: &TestAction) -> Vec<(String, String)> {
    match action {
        TestAction::RunSuite { env } => env.clone(),
        other => panic!("expected RunSuite, got {other:?}"),
    }
}

#[test]
fn a_plain_test_run_builds_restores_deploys_and_runs_the_suite() {
    let mut run = TestRun::new(TestFlags::default());
    assert_eq!(run.step(TestEvent::Built(Ok(()))), TestAction::Restore);
    assert_eq!(run.step(TestEvent::Restored(Ok(()))), TestAction::Deploy);
    let suite = run.step(TestEvent::Deployed(Ok("10.0.0.5".to_owned())));
    let env = env_of(&suite);
    assert_eq!(env[0], ("VERBATIM_E2E_ENDPOINT".to_owned(), "10.0.0.5:44001".to_owned()));
    assert_eq!(env[1], ("VERBATIM_E2E_VERBATIM_EXE".to_owned(), "C:\\VerbatimLab\\verbatim\\verbatim.exe".to_owned()));
    assert_eq!(env.len(), 4);
    assert_eq!(run.step(TestEvent::SuiteExited(Ok(()))), TestAction::Finish(Ok(())));
    assert_eq!(run.phase(), TestPhase::Finished);
}

#[test]
fn no_restore_skips_the_restore_and_a_failed_build_touches_nothing() {
    let mut run = TestRun::new(TestFlags { no_restore: true, record: false, paced: false });
    assert_eq!(run.step(TestEvent::Built(Ok(()))), TestAction::Deploy);
    let mut broken = TestRun::new(TestFlags::default());
    assert_eq!(broken.step(TestEvent::Built(Err("compile error".to_owned()))), TestAction::Finish(Err("compile error".to_owned())));
    let mut unlaunched = TestRun::new(TestFlags { no_restore: true, record: false, paced: true });
    unlaunched.step(TestEvent::Built(Ok(())));
    assert_eq!(env_of(&unlaunched.step(TestEvent::Deployed(Ok("h".to_owned())))).len(), 5);
    assert_eq!(
        unlaunched.step(TestEvent::SuiteNotLaunched("no cargo".to_owned())),
        TestAction::Finish(Err("failed to launch cargo test: no cargo".to_owned()))
    );
}

#[test]
fn a_recorded_run_falls_back_stops_and_pulls_and_keeps_every_failure() {
    let mut run = TestRun::new(TestFlags { no_restore: false, record: true, paced: false });
    run.step(TestEvent::Built(Ok(())));
    run.step(TestEvent::Restored(Ok(())));
    assert_eq!(run.step(TestEvent::Deployed(Ok("10.0.0.5".to_owned()))), TestAction::PinAudio);
    assert_eq!(
        run.step(TestEvent::Pinned(true)),
        TestAction::StartRecording { endpoint: "10.0.0.5:44001".to_owned(), with_audio: true }
    );
    assert_eq!(
        run.step(TestEvent::RecordingStarted(None)),
        TestAction::StartRecording { endpoint: "10.0.0.5:44001".to_owned(), with_audio: false }
    );
    let suite = run.step(TestEvent::RecordingStarted(Some(77)));
    assert_eq!(env_of(&suite)[4], ("VERBATIM_E2E_PACED".to_owned(), "1".to_owned()));
    assert_eq!(
        run.step(TestEvent::SuiteExited(Err("exit code: 101".to_owned()))),
        TestAction::StopRecording { endpoint: "10.0.0.5:44001".to_owned(), pid: 77 }
    );
    assert_eq!(run.step(TestEvent::RecordingStopped(Err("gone".to_owned()))), TestAction::PullRecording);
    assert_eq!(
        run.step(TestEvent::RecordingPulled(Ok(()))),
        TestAction::Finish(Err("E2E suite failed: exit code: 101; could not stop the recording cleanly: gone".to_owned()))
    );
}

#[test]
fn a_recording_that_cannot_start_never_aborts_the_run() {
    let mut run = TestRun::new(TestFlags { no_restore: true, record: true, paced: false });
    run.step(TestEvent::Built(Ok(())));
    run.step(TestEvent::Deployed(Ok("h".to_owned())));
    assert_eq!(run.step(TestEvent::Pinned(false)), TestAction::StartRecording { endpoint: "h:44001".to_owned(), with_audio: false });
    let suite = run.step(TestEvent::RecordingStarted(None));
    assert_eq!(env_of(&suite).len(), 5);
    assert_eq!(run.step(TestEvent::SuiteExited(Ok(()))), TestAction::Finish(Ok(())));
}

#[test]
fn lines_split_as_str_lines_does() {
    for text in ["", "a", "a\n", "a\r\nb", "a\n\nb\n", "baz\r", "x\r\ny\r", "\r\n", "\n\n", "one\rtwo\n"] {
        let expected: Vec<Vec<char>> = text.lines().map(|l| l.chars().collect()).collect();
        assert_eq!(verbatim::text::lines(text), expected, "lines of {text:?}");
    }
}

#[test]
fn whitespace_is_what_char_is_whitespace_reports() {
    for code in 0u32..=0x10FFFF {
        if let Some(c) = char::from_u32(code) {
            assert_eq!(verbatim::text::is_whitespace(c), c.is_whitespace(), "U+{code:04X}");
        }
    }
}
