//! The harness verbs' own decisions: the `vm` verbs and their arguments,
//! the `test` verb's flags and the order of its steps, with its recording
//! fallbacks and the outcome it reports, and reading one string variable from
//! a flat `.pkrvars.hcl` variable file.

use vstd::prelude::*;

use crate::harness::commands::VERBATIM_DIR;
use crate::text::{chars_of, decimal, join_with, push_decimal, joined, lines, lines_spec, str_equal, string_of_range, trim_range, trim_spec, trim_start_spec};

verus! {

/// The `test` verb's flags.
#[derive(Clone, Copy, Debug, Default, PartialEq, Eq)]
pub struct TestFlags {
    /// Skip the checkpoint restore.
    pub no_restore: bool,
    /// Record the run.
    pub record: bool,
    /// Wait for each utterance to finish before the next input.
    pub paced: bool,
}

/// The flags a list of arguments sets from `flags` on, or the first
/// argument that is not a flag.
pub open spec fn test_flags_spec(args: Seq<Seq<char>>, flags: TestFlags) -> Result<TestFlags, Seq<char>>
    decreases args.len(),
{
    if args.len() == 0 {
        Ok(flags)
    } else {
        let arg = args[0];
        let next = if arg == "--no-restore"@ {
            Some(TestFlags { no_restore: true, ..flags })
        } else if arg == "--record"@ {
            Some(TestFlags { record: true, ..flags })
        } else if arg == "--paced"@ {
            Some(TestFlags { paced: true, ..flags })
        } else {
            None
        };
        match next {
            Some(f) => test_flags_spec(args.drop_first(), f),
            None => Err(arg),
        }
    }
}

/// Parses the `test` verb's flags, accepted in any order; the first
/// unrecognized argument comes back as the error.
pub fn parse_test_flags(args: &[String]) -> (r: Result<TestFlags, String>)
    ensures
        match test_flags_spec(args@.map_values(|a: String| a@), TestFlags { no_restore: false, record: false, paced: false }) {
            Ok(f) => r == Ok::<TestFlags, String>(f),
            Err(arg) => r matches Err(e) && e@ == arg,
        },
{
    let ghost all = args@.map_values(|a: String| a@);
    assert(all.subrange(0, all.len() as int) =~= all);
    test_flags_from(args, 0)
}

/// The `test` verb's flags read from `args[start..]`.
fn test_flags_from(args: &[String], start: usize) -> (r: Result<TestFlags, String>)
    requires
        start <= args@.len(),
    ensures
        match test_flags_spec(
            args@.map_values(|a: String| a@).subrange(start as int, args@.len() as int),
            TestFlags { no_restore: false, record: false, paced: false },
        ) {
            Ok(f) => r == Ok::<TestFlags, String>(f),
            Err(arg) => r matches Err(e) && e@ == arg,
        },
{
    let ghost all = args@.map_values(|a: String| a@);
    let mut flags = TestFlags { no_restore: false, record: false, paced: false };
    let mut i: usize = start;
    while i < args.len()
        invariant
            all == args@.map_values(|a: String| a@),
            start <= i <= args@.len(),
            test_flags_spec(all.subrange(start as int, all.len() as int), TestFlags { no_restore: false, record: false, paced: false }) == test_flags_spec(
                all.subrange(i as int, all.len() as int),
                flags,
            ),
        decreases args.len() - i,
    {
        let ghost rest = all.subrange(i as int, all.len() as int);
        assert(rest[0] == args@[i as int]@);
        assert(rest.drop_first() =~= all.subrange(i + 1, all.len() as int));
        let arg = args[i].as_str();
        if str_equal(arg, "--no-restore") {
            flags.no_restore = true;
        } else if str_equal(arg, "--record") {
            flags.record = true;
        } else if str_equal(arg, "--paced") {
            flags.paced = true;
        } else {
            return Err(arg.to_owned());
        }
        i = i + 1;
    }
    Ok(flags)
}

/// Whether a run is paced: asked for, or implied by recording, since a
/// recording whose utterances are cut off by the next keystroke defeats its
/// purpose.
pub fn paced_run(flags: TestFlags) -> (r: bool)
    ensures
        r == (flags.paced || flags.record),
{
    flags.paced || flags.record
}

/// The result a run reports: success without failures, else all of them
/// joined with `; `, so no failure hides another.
pub fn run_outcome(failures: &Vec<String>) -> (r: Result<(), String>)
    ensures
        failures@.len() == 0 ==> r is Ok,
        failures@.len() > 0 ==> (r matches Err(e) && e@ == joined(failures@.map_values(|f: String| f@), "; "@)),
{
    if failures.len() == 0 {
        Ok(())
    } else {
        Err(join_with(failures, "; "))
    }
}

/// The environment the end-to-end suite runs with against the guest at
/// `endpoint`, whose Verbatim is `guest_exe`: the run is remote and audible,
/// and paced when asked.
pub open spec fn suite_environment_spec(endpoint: Seq<char>, guest_exe: Seq<char>, paced: bool) -> Seq<
    (Seq<char>, Seq<char>),
> {
    let base = seq![
        ("VERBATIM_E2E_ENDPOINT"@, endpoint),
        ("VERBATIM_E2E_VERBATIM_EXE"@, guest_exe),
        ("VERBATIM_E2E_REMOTE"@, "1"@),
        ("VERBATIM_E2E_AUDIBLE"@, "1"@),
    ];
    if paced {
        base.push(("VERBATIM_E2E_PACED"@, "1"@))
    } else {
        base
    }
}

/// The suite's environment variables, in the order they are set.
pub fn suite_environment(endpoint: &str, guest_exe: &str, paced: bool) -> (r: Vec<(String, String)>)
    ensures
        r@.map_values(|p: (String, String)| (p.0@, p.1@)) == suite_environment_spec(endpoint@, guest_exe@, paced),
{
    let mut r: Vec<(String, String)> = Vec::new();
    r.push(("VERBATIM_E2E_ENDPOINT".to_owned(), endpoint.to_owned()));
    r.push(("VERBATIM_E2E_VERBATIM_EXE".to_owned(), guest_exe.to_owned()));
    r.push(("VERBATIM_E2E_REMOTE".to_owned(), "1".to_owned()));
    r.push(("VERBATIM_E2E_AUDIBLE".to_owned(), "1".to_owned()));
    if paced {
        r.push(("VERBATIM_E2E_PACED".to_owned(), "1".to_owned()));
    }
    assert(r@.map_values(|p: (String, String)| (p.0@, p.1@)) =~= suite_environment_spec(endpoint@, guest_exe@, paced));
    r
}

/// What follows one attempt to start the recording.
#[derive(Clone, Copy, Debug, PartialEq, Eq)]
pub enum RecordingNext {
    /// The recorder runs in the guest as this process.
    Started(u32),
    /// The launch with audio failed, as a connected RDP session makes it
    /// fail: try again without audio.
    RetryVideoOnly,
    /// Even the video-only launch failed: the suite runs unrecorded.
    Unrecorded,
}

/// Decides after a recorder launch, made with audio or without, that was
/// confirmed alive as `launched` or failed (`None`): a failure with audio
/// falls back to video only, and only a video-only failure gives up.
pub fn recording_next(with_audio: bool, launched: Option<u32>) -> (r: RecordingNext)
    ensures
        r == match launched {
            Some(pid) => RecordingNext::Started(pid),
            None => if with_audio {
                RecordingNext::RetryVideoOnly
            } else {
                RecordingNext::Unrecorded
            },
        },
{
    match launched {
        Some(pid) => RecordingNext::Started(pid),
        None => if with_audio {
            RecordingNext::RetryVideoOnly
        } else {
            RecordingNext::Unrecorded
        },
    }
}

/// The value a variable-file line gives `name`: the line trimmed, starting
/// with `name`, then optional whitespace, `=`, and a double-quoted value.
pub open spec fn hcl_line_value(line: Seq<char>, name: Seq<char>) -> Option<Seq<char>> {
    let t = trim_spec(line);
    if t.len() >= name.len() && t.subrange(0, name.len() as int) == name {
        let rest = trim_start_spec(t.subrange(name.len() as int, t.len() as int));
        if rest.len() > 0 && rest[0] == '=' {
            let value = trim_spec(rest.subrange(1, rest.len() as int));
            if value.len() >= 2 && value[0] == '"' && value.last() == '"' {
                Some(value.subrange(1, value.len() - 1))
            } else {
                None
            }
        } else {
            None
        }
    } else {
        None
    }
}

/// The value the first matching line gives `name`.
pub open spec fn hcl_value_spec(lines: Seq<Seq<char>>, name: Seq<char>) -> Option<Seq<char>>
    decreases lines.len(),
{
    if lines.len() == 0 {
        None
    } else {
        match hcl_line_value(lines[0], name) {
            Some(v) => Some(v),
            None => hcl_value_spec(lines.drop_first(), name),
        }
    }
}

/// The value one line gives `name`.
fn hcl_line(line: &Vec<char>, name: &Vec<char>) -> (r: Option<String>)
    ensures
        match hcl_line_value(line@, name@) {
            Some(v) => r matches Some(s) && s@ == v,
            None => r is None,
        },
{
    assert(line@.subrange(0, line@.len() as int) =~= line@);
    let trimmed = trim_range(line, 0, line.len());
    let t = chars_of(trimmed.as_str());
    let tn = t.len();
    let nn = name.len();
    if tn < nn {
        return None;
    }
    let mut k: usize = 0;
    while k < nn
        invariant
            nn == name@.len(),
            tn == t@.len(),
            t@ == trim_spec(line@),
            nn <= tn,
            k <= nn,
            forall|j: int| 0 <= j < k ==> t@[j] == name@[j],
        decreases nn - k,
    {
        if t[k] != name[k] {
            assert(t@.subrange(0, nn as int)[k as int] != name@[k as int]);
            return None;
        }
        k = k + 1;
    }
    assert(t@.subrange(0, nn as int) =~= name@);
    let mut a = nn;
    while a < tn && crate::text::is_whitespace(t[a])
        invariant
            nn <= a <= tn,
            tn == t@.len(),
            trim_start_spec(t@.subrange(nn as int, tn as int)) == trim_start_spec(t@.subrange(a as int, tn as int)),
        decreases tn - a,
    {
        assert(t@.subrange(a as int, tn as int).drop_first() =~= t@.subrange(a + 1, tn as int));
        a = a + 1;
    }
    proof {
        let rest = t@.subrange(a as int, tn as int);
        if a < tn {
            assert(!crate::text::char_is_whitespace(rest[0]));
        }
        assert(trim_start_spec(rest) == rest);
    }
    if a == tn || t[a] != '=' {
        return None;
    }
    assert(t@.subrange(a as int, tn as int).subrange(1, tn - a) =~= t@.subrange(a + 1, tn as int));
    let value = trim_range(&t, a + 1, tn);
    let v = chars_of(value.as_str());
    let vn = v.len();
    if vn >= 2 && v[0] == '"' && v[vn - 1] == '"' {
        Some(string_of_range(&v, 1, vn - 1))
    } else {
        None
    }
}

/// Reads `name = "value"` from the text of a flat variable file: the value
/// the first matching line gives.
pub fn hcl_string_value(text: &str, name: &str) -> (r: Option<String>)
    ensures
        match hcl_value_spec(lines_spec(text@), name@) {
            Some(v) => r matches Some(s) && s@ == v,
            None => r is None,
        },
{
    let all = lines(text);
    let ghost views = all@.map_values(|l: Vec<char>| l@);
    let name_chars = chars_of(name);
    let mut i: usize = 0;
    assert(views.subrange(0, views.len() as int) =~= views);
    while i < all.len()
        invariant
            views == all@.map_values(|l: Vec<char>| l@),
            views == lines_spec(text@),
            name_chars@ == name@,
            i <= all@.len(),
            hcl_value_spec(views, name@) == hcl_value_spec(views.subrange(i as int, views.len() as int), name@),
        decreases all.len() - i,
    {
        let ghost rest = views.subrange(i as int, views.len() as int);
        assert(rest[0] == all@[i as int]@);
        assert(rest.drop_first() =~= views.subrange(i + 1, views.len() as int));
        if let Some(value) = hcl_line(&all[i], &name_chars) {
            return Some(value);
        }
        i = i + 1;
    }
    None
}


/// What `cargo xtask vm` was asked to do.
#[derive(Clone, Debug, PartialEq, Eq)]
pub enum VmCommand {
    /// Build, import and checkpoint the VM; `skip_build` reuses an exported
    /// image.
    Create { skip_build: bool },
    /// Start the VM.
    Start,
    /// Stop the VM.
    Stop,
    /// Restart the VM.
    Restart,
    /// Restore a checkpoint, the golden one when none is named.
    Restore(Option<String>),
    /// Build and copy the changed artifacts into the guest.
    Deploy,
    /// Run the end-to-end suite.
    Test(TestFlags),
    /// Pull the guest's logs, into the named directory or the default one.
    Logs(Option<String>),
    /// Open an RDP session, or only forget the stored credentials.
    Connect { forget: bool },
    /// Remove the VM.
    Delete,
    /// A verb was given an argument it does not take.
    UnknownArgument { verb: String, argument: String },
    /// The verb is not one of the harness's.
    UnknownVerb(String),
    /// No verb: show the usage.
    Usage,
}

/// A [`VmCommand`] as the contracts see it.
pub enum VmCommandView {
    Create { skip_build: bool },
    Start,
    Stop,
    Restart,
    Restore(Option<Seq<char>>),
    Deploy,
    Test(TestFlags),
    Logs(Option<Seq<char>>),
    Connect { forget: bool },
    Delete,
    UnknownArgument { verb: Seq<char>, argument: Seq<char> },
    UnknownVerb(Seq<char>),
    Usage,
}

impl View for VmCommand {
    type V = VmCommandView;

    open spec fn view(&self) -> VmCommandView {
        match self {
            VmCommand::Create { skip_build } => VmCommandView::Create { skip_build: *skip_build },
            VmCommand::Start => VmCommandView::Start,
            VmCommand::Stop => VmCommandView::Stop,
            VmCommand::Restart => VmCommandView::Restart,
            VmCommand::Restore(name) => VmCommandView::Restore(
                match name {
                    Some(n) => Some(n@),
                    None => None,
                },
            ),
            VmCommand::Deploy => VmCommandView::Deploy,
            VmCommand::Test(flags) => VmCommandView::Test(*flags),
            VmCommand::Logs(dir) => VmCommandView::Logs(
                match dir {
                    Some(d) => Some(d@),
                    None => None,
                },
            ),
            VmCommand::Connect { forget } => VmCommandView::Connect { forget: *forget },
            VmCommand::Delete => VmCommandView::Delete,
            VmCommand::UnknownArgument { verb, argument } => VmCommandView::UnknownArgument {
                verb: verb@,
                argument: argument@,
            },
            VmCommand::UnknownVerb(verb) => VmCommandView::UnknownVerb(verb@),
            VmCommand::Usage => VmCommandView::Usage,
        }
    }
}

/// The argument after the verb, if any.
pub open spec fn second_arg(args: Seq<Seq<char>>) -> Option<Seq<char>> {
    if args.len() > 1 {
        Some(args[1])
    } else {
        None
    }
}

/// The command a `vm` argument list (the words after `vm`) asks for.
pub open spec fn vm_command_spec(args: Seq<Seq<char>>) -> VmCommandView {
    if args.len() == 0 {
        VmCommandView::Usage
    } else {
        let verb = args[0];
        if verb == "create"@ {
            match second_arg(args) {
                None => VmCommandView::Create { skip_build: false },
                Some(a) => if a == "--skip-build"@ {
                    VmCommandView::Create { skip_build: true }
                } else {
                    VmCommandView::UnknownArgument { verb: "create"@, argument: a }
                },
            }
        } else if verb == "start"@ {
            VmCommandView::Start
        } else if verb == "stop"@ {
            VmCommandView::Stop
        } else if verb == "restart"@ {
            VmCommandView::Restart
        } else if verb == "restore"@ {
            VmCommandView::Restore(second_arg(args))
        } else if verb == "deploy"@ {
            VmCommandView::Deploy
        } else if verb == "test"@ {
            match test_flags_spec(args.drop_first(), TestFlags { no_restore: false, record: false, paced: false }) {
                Ok(flags) => VmCommandView::Test(flags),
                Err(other) => VmCommandView::UnknownArgument { verb: "test"@, argument: other },
            }
        } else if verb == "logs"@ {
            VmCommandView::Logs(second_arg(args))
        } else if verb == "connect"@ {
            match second_arg(args) {
                None => VmCommandView::Connect { forget: false },
                Some(a) => if a == "--forget"@ {
                    VmCommandView::Connect { forget: true }
                } else {
                    VmCommandView::UnknownArgument { verb: "connect"@, argument: a }
                },
            }
        } else if verb == "delete"@ {
            VmCommandView::Delete
        } else {
            VmCommandView::UnknownVerb(verb)
        }
    }
}

/// Reads the `vm` argument list (the words after `vm`) into a command.
pub fn parse_vm_command(args: &[String]) -> (r: VmCommand)
    ensures
        r@ == vm_command_spec(args@.map_values(|a: String| a@)),
{
    let ghost all = args@.map_values(|a: String| a@);
    if args.len() == 0 {
        return VmCommand::Usage;
    }
    let verb = args[0].as_str();
    assert(all[0] == verb@);
    let second: Option<String> = if args.len() > 1 {
        assert(all[1] == args@[1]@);
        Some(args[1].clone())
    } else {
        None
    };
    if str_equal(verb, "create") {
        match second {
            None => VmCommand::Create { skip_build: false },
            Some(a) => if str_equal(a.as_str(), "--skip-build") {
                VmCommand::Create { skip_build: true }
            } else {
                VmCommand::UnknownArgument { verb: "create".to_owned(), argument: a }
            },
        }
    } else if str_equal(verb, "start") {
        VmCommand::Start
    } else if str_equal(verb, "stop") {
        VmCommand::Stop
    } else if str_equal(verb, "restart") {
        VmCommand::Restart
    } else if str_equal(verb, "restore") {
        VmCommand::Restore(second)
    } else if str_equal(verb, "deploy") {
        VmCommand::Deploy
    } else if str_equal(verb, "test") {
        assert(all.subrange(1, all.len() as int) =~= all.drop_first());
        match test_flags_from(args, 1) {
            Ok(flags) => VmCommand::Test(flags),
            Err(other) => VmCommand::UnknownArgument { verb: "test".to_owned(), argument: other },
        }
    } else if str_equal(verb, "logs") {
        VmCommand::Logs(second)
    } else if str_equal(verb, "connect") {
        match second {
            None => VmCommand::Connect { forget: false },
            Some(a) => if str_equal(a.as_str(), "--forget") {
                VmCommand::Connect { forget: true }
            } else {
                VmCommand::UnknownArgument { verb: "connect".to_owned(), argument: a }
            },
        }
    } else if str_equal(verb, "delete") {
        VmCommand::Delete
    } else {
        VmCommand::UnknownVerb(verb.to_owned())
    }
}

/// The TCP port the in-guest agent listens on.
pub const AGENT_PORT: u16 = 44_001;

/// Where the `test` verb stands.
#[derive(Clone, Copy, Debug, PartialEq, Eq, Structural)]
pub enum TestPhase {
    /// Building the sources, before the VM is touched.
    Building,
    /// Restoring the golden checkpoint, starting the VM and waiting for its
    /// agent.
    Restoring,
    /// Staging and copying the build, waiting for the agent and reading the
    /// guest's address.
    Deploying,
    /// Pinning VB-CABLE as the guest's default render device.
    Pinning,
    /// Launching the recorder, with audio or without.
    Launching { with_audio: bool },
    /// Running the end-to-end suite.
    Suite,
    /// Stopping the recorder.
    Stopping,
    /// Pulling the recording to the host.
    Pulling,
    /// The run has reported its outcome.
    Finished,
}

/// The outcome of the step the harness last performed.
#[derive(Debug, PartialEq, Eq)]
pub enum TestEvent {
    /// The build finished.
    Built(Result<(), String>),
    /// The checkpoint restore, VM start and agent wait finished.
    Restored(Result<(), String>),
    /// Staging, copying, the agent wait and the address lookup finished;
    /// `Ok` holds the guest's IPv4 address.
    Deployed(Result<String, String>),
    /// Whether VB-CABLE could be pinned as the default render device.
    Pinned(bool),
    /// The recorder's process when it was launched and confirmed alive.
    RecordingStarted(Option<u32>),
    /// The suite could not be launched.
    SuiteNotLaunched(String),
    /// The suite exited: `Ok` on success, else its exit status.
    SuiteExited(Result<(), String>),
    /// The recorder was stopped.
    RecordingStopped(Result<(), String>),
    /// The recording was pulled to the host.
    RecordingPulled(Result<(), String>),
}

/// What the harness does next.
#[derive(Debug, PartialEq, Eq)]
pub enum TestAction {
    /// Restore the golden checkpoint, start the VM and wait for its agent.
    Restore,
    /// Stage and copy the build, wait for the agent and read the guest's
    /// address.
    Deploy,
    /// Pin VB-CABLE as the guest's default render device.
    PinAudio,
    /// Launch the recorder through the agent at `endpoint` and confirm it
    /// alive.
    StartRecording { endpoint: String, with_audio: bool },
    /// Run the suite with this environment.
    RunSuite { env: Vec<(String, String)> },
    /// Stop the recorder process `pid` through the agent at `endpoint`.
    StopRecording { endpoint: String, pid: u32 },
    /// Pull the recording to the host.
    PullRecording,
    /// Report this outcome; the run is over.
    Finish(Result<(), String>),
}

/// A result with an error text, as the contracts see it.
pub open spec fn result_view(r: Result<(), String>) -> Result<(), Seq<char>> {
    match r {
        Ok(()) => Ok(()),
        Err(e) => Err(e@),
    }
}

/// [`TestEvent`] as the contracts see it.
pub enum TestEventView {
    Built(Result<(), Seq<char>>),
    Restored(Result<(), Seq<char>>),
    Deployed(Result<Seq<char>, Seq<char>>),
    Pinned(bool),
    RecordingStarted(Option<u32>),
    SuiteNotLaunched(Seq<char>),
    SuiteExited(Result<(), Seq<char>>),
    RecordingStopped(Result<(), Seq<char>>),
    RecordingPulled(Result<(), Seq<char>>),
}

impl View for TestEvent {
    type V = TestEventView;

    open spec fn view(&self) -> TestEventView {
        match self {
            TestEvent::Built(r) => TestEventView::Built(result_view(*r)),
            TestEvent::Restored(r) => TestEventView::Restored(result_view(*r)),
            TestEvent::Deployed(r) => TestEventView::Deployed(
                match r {
                    Ok(ip) => Ok(ip@),
                    Err(e) => Err(e@),
                },
            ),
            TestEvent::Pinned(b) => TestEventView::Pinned(*b),
            TestEvent::RecordingStarted(p) => TestEventView::RecordingStarted(*p),
            TestEvent::SuiteNotLaunched(e) => TestEventView::SuiteNotLaunched(e@),
            TestEvent::SuiteExited(r) => TestEventView::SuiteExited(result_view(*r)),
            TestEvent::RecordingStopped(r) => TestEventView::RecordingStopped(result_view(*r)),
            TestEvent::RecordingPulled(r) => TestEventView::RecordingPulled(result_view(*r)),
        }
    }
}

/// [`TestAction`] as the contracts see it.
pub enum TestActionView {
    Restore,
    Deploy,
    PinAudio,
    StartRecording { endpoint: Seq<char>, with_audio: bool },
    RunSuite { env: Seq<(Seq<char>, Seq<char>)> },
    StopRecording { endpoint: Seq<char>, pid: u32 },
    PullRecording,
    Finish(Result<(), Seq<char>>),
}

impl View for TestAction {
    type V = TestActionView;

    open spec fn view(&self) -> TestActionView {
        match self {
            TestAction::Restore => TestActionView::Restore,
            TestAction::Deploy => TestActionView::Deploy,
            TestAction::PinAudio => TestActionView::PinAudio,
            TestAction::StartRecording { endpoint, with_audio } => TestActionView::StartRecording {
                endpoint: endpoint@,
                with_audio: *with_audio,
            },
            TestAction::RunSuite { env } => TestActionView::RunSuite {
                env: env@.map_values(|p: (String, String)| (p.0@, p.1@)),
            },
            TestAction::StopRecording { endpoint, pid } => TestActionView::StopRecording {
                endpoint: endpoint@,
                pid: *pid,
            },
            TestAction::PullRecording => TestActionView::PullRecording,
            TestAction::Finish(r) => TestActionView::Finish(result_view(*r)),
        }
    }
}

/// The state of one `test` run as the contracts see it.
pub struct TestRunView {
    pub flags: TestFlags,
    pub phase: TestPhase,
    /// The agent's address, once the guest's address is known.
    pub endpoint: Seq<char>,
    /// The recorder's process, once one runs.
    pub recording: Option<u32>,
    /// The failures accumulated since the suite ran, in order.
    pub failures: Seq<Seq<char>>,
}

/// One run of the `test` verb: which step comes next, and what has gone
/// wrong so far.
pub struct TestRun {
    flags: TestFlags,
    phase: TestPhase,
    endpoint: String,
    recording: Option<u32>,
    failures: Vec<String>,
}

impl View for TestRun {
    type V = TestRunView;

    closed spec fn view(&self) -> TestRunView {
        TestRunView {
            flags: self.flags,
            phase: self.phase,
            endpoint: self.endpoint@,
            recording: self.recording,
            failures: self.failures@.map_values(|f: String| f@),
        }
    }
}

/// The agent's address for a guest at `ip`.
pub open spec fn agent_endpoint(ip: Seq<char>) -> Seq<char> {
    ip + ":"@ + decimal(AGENT_PORT as int)
}

/// Verbatim's executable inside the guest.
pub open spec fn guest_exe() -> Seq<char> {
    VERBATIM_DIR@ + "\\verbatim.exe"@
}

/// Whether `event` reports the step that `phase` waits for.
pub open spec fn test_event_fits(phase: TestPhase, event: TestEventView) -> bool {
    match phase {
        TestPhase::Building => event is Built,
        TestPhase::Restoring => event is Restored,
        TestPhase::Deploying => event is Deployed,
        TestPhase::Pinning => event is Pinned,
        TestPhase::Launching { .. } => event is RecordingStarted,
        TestPhase::Suite => event is SuiteNotLaunched || event is SuiteExited,
        TestPhase::Stopping => event is RecordingStopped,
        TestPhase::Pulling => event is RecordingPulled,
        TestPhase::Finished => false,
    }
}

/// The outcome a run with these failures reports: success without
/// failures, else all of them joined with `; `.
pub open spec fn outcome_of(failures: Seq<Seq<char>>) -> Result<(), Seq<char>> {
    if failures.len() == 0 {
        Ok(())
    } else {
        Err(joined(failures, "; "@))
    }
}

/// The step to take once the suite is over (or, for a run that never
/// records, straight after it): stop a running recorder, else report.
pub open spec fn after_suite(s: TestRunView) -> (TestRunView, TestActionView) {
    match s.recording {
        Some(pid) => (
            TestRunView { phase: TestPhase::Stopping, ..s },
            TestActionView::StopRecording { endpoint: s.endpoint, pid },
        ),
        None => (TestRunView { phase: TestPhase::Finished, ..s }, TestActionView::Finish(outcome_of(s.failures))),
    }
}

/// The state in which the suite runs, and the action that runs it.
pub open spec fn run_suite(s: TestRunView) -> (TestRunView, TestActionView) {
    (
        TestRunView { phase: TestPhase::Suite, ..s },
        TestActionView::RunSuite {
            env: suite_environment_spec(s.endpoint, guest_exe(), s.flags.paced || s.flags.record),
        },
    )
}

/// One step of the `test` verb: from its state and the outcome of the step
/// just performed, its next state and what to do next. The build comes
/// first, before the VM is touched; the restore follows unless
/// `--no-restore`; a failure up to the deploy ends the run with that error.
/// With `--record` the audio device is pinned and the recorder launched,
/// falling back to video only and then to no recording, never aborting. A
/// suite that could not be launched ends the run; once it ran, its failure,
/// and any failure to stop or pull the recording, is accumulated, and a
/// running recorder is stopped and pulled whatever the suite did.
pub open spec fn test_step_spec(s: TestRunView, e: TestEventView) -> (TestRunView, TestActionView) {
    match e {
        TestEventView::Built(r) => match r {
            Err(message) => (TestRunView { phase: TestPhase::Finished, ..s }, TestActionView::Finish(Err(message))),
            Ok(()) => if s.flags.no_restore {
                (TestRunView { phase: TestPhase::Deploying, ..s }, TestActionView::Deploy)
            } else {
                (TestRunView { phase: TestPhase::Restoring, ..s }, TestActionView::Restore)
            },
        },
        TestEventView::Restored(r) => match r {
            Err(message) => (TestRunView { phase: TestPhase::Finished, ..s }, TestActionView::Finish(Err(message))),
            Ok(()) => (TestRunView { phase: TestPhase::Deploying, ..s }, TestActionView::Deploy),
        },
        TestEventView::Deployed(r) => match r {
            Err(message) => (TestRunView { phase: TestPhase::Finished, ..s }, TestActionView::Finish(Err(message))),
            Ok(ip) => {
                let t = TestRunView { endpoint: agent_endpoint(ip), ..s };
                if s.flags.record {
                    (TestRunView { phase: TestPhase::Pinning, ..t }, TestActionView::PinAudio)
                } else {
                    run_suite(t)
                }
            },
        },
        TestEventView::Pinned(pinned) => (
            TestRunView { phase: TestPhase::Launching { with_audio: pinned }, ..s },
            TestActionView::StartRecording { endpoint: s.endpoint, with_audio: pinned },
        ),
        TestEventView::RecordingStarted(launched) => {
            let with_audio = match s.phase {
                TestPhase::Launching { with_audio } => with_audio,
                _ => false,
            };
            match launched {
                Some(pid) => run_suite(TestRunView { recording: Some(pid), ..s }),
                None => if with_audio {
                    (
                        TestRunView { phase: TestPhase::Launching { with_audio: false }, ..s },
                        TestActionView::StartRecording { endpoint: s.endpoint, with_audio: false },
                    )
                } else {
                    run_suite(s)
                },
            }
        },
        TestEventView::SuiteNotLaunched(message) => (
            TestRunView { phase: TestPhase::Finished, ..s },
            TestActionView::Finish(Err("failed to launch cargo test: "@ + message)),
        ),
        TestEventView::SuiteExited(r) => match r {
            Ok(()) => after_suite(s),
            Err(status) => after_suite(TestRunView { failures: s.failures.push("E2E suite failed: "@ + status), ..s }),
        },
        TestEventView::RecordingStopped(r) => {
            let t = match r {
                Ok(()) => s,
                Err(message) => TestRunView {
                    failures: s.failures.push("could not stop the recording cleanly: "@ + message),
                    ..s
                },
            };
            (TestRunView { phase: TestPhase::Pulling, ..t }, TestActionView::PullRecording)
        },
        TestEventView::RecordingPulled(r) => {
            let t = match r {
                Ok(()) => s,
                Err(message) => TestRunView {
                    failures: s.failures.push("could not pull the recording: "@ + message),
                    ..s
                },
            };
            (TestRunView { phase: TestPhase::Finished, ..t }, TestActionView::Finish(outcome_of(t.failures)))
        },
    }
}

impl TestRun {
    /// A run with these flags, building first.
    pub fn new(flags: TestFlags) -> (r: Self)
        ensures
            r@ == (TestRunView {
                flags,
                phase: TestPhase::Building,
                endpoint: Seq::empty(),
                recording: None,
                failures: Seq::empty(),
            }),
    {
        let r = TestRun { flags, phase: TestPhase::Building, endpoint: String::new(), recording: None, failures: Vec::new() };
        assert(r@.failures =~= Seq::<Seq<char>>::empty());
        r
    }

    /// Where the run stands.
    pub fn phase(&self) -> (r: TestPhase)
        ensures
            r == self@.phase,
    {
        self.phase
    }

    /// The run's state and action once the suite is over.
    fn after_suite(&mut self) -> (a: TestAction)
        ensures
            (final(self)@, a@) == after_suite(old(self)@),
    {
        match self.recording {
            Some(pid) => {
                self.phase = TestPhase::Stopping;
                TestAction::StopRecording { endpoint: self.endpoint.clone(), pid }
            },
            None => {
                self.phase = TestPhase::Finished;
                TestAction::Finish(run_outcome(&self.failures))
            },
        }
    }

    /// Moves to the suite and hands back the action that runs it.
    fn run_suite(&mut self) -> (a: TestAction)
        ensures
            (final(self)@, a@) == run_suite(old(self)@),
    {
        self.phase = TestPhase::Suite;
        let mut exe = VERBATIM_DIR.to_owned();
        exe.append("\\verbatim.exe");
        let env = suite_environment(self.endpoint.as_str(), exe.as_str(), paced_run(self.flags));
        TestAction::RunSuite { env }
    }

    /// Appends one failure: `prefix` followed by `detail`.
    fn add_failure(&mut self, prefix: &str, detail: &str)
        ensures
            final(self)@ == (TestRunView { failures: old(self)@.failures.push(prefix@ + detail@), ..old(self)@ }),
    {
        let mut message = prefix.to_owned();
        message.append(detail);
        let ghost before = self.failures@.map_values(|f: String| f@);
        self.failures.push(message);
        assert(self.failures@.map_values(|f: String| f@) =~= before.push(prefix@ + detail@));
    }

    /// Takes the outcome of the step just performed and decides the next
    /// one (see [`test_step_spec`]).
    pub fn step(&mut self, event: TestEvent) -> (a: TestAction)
        requires
            test_event_fits(old(self)@.phase, event@),
        ensures
            (final(self)@, a@) == test_step_spec(old(self)@, event@),
    {
        match event {
            TestEvent::Built(r) => match r {
                Err(message) => {
                    self.phase = TestPhase::Finished;
                    TestAction::Finish(Err(message))
                },
                Ok(()) => if self.flags.no_restore {
                    self.phase = TestPhase::Deploying;
                    TestAction::Deploy
                } else {
                    self.phase = TestPhase::Restoring;
                    TestAction::Restore
                },
            },
            TestEvent::Restored(r) => match r {
                Err(message) => {
                    self.phase = TestPhase::Finished;
                    TestAction::Finish(Err(message))
                },
                Ok(()) => {
                    self.phase = TestPhase::Deploying;
                    TestAction::Deploy
                },
            },
            TestEvent::Deployed(r) => match r {
                Err(message) => {
                    self.phase = TestPhase::Finished;
                    TestAction::Finish(Err(message))
                },
                Ok(ip) => {
                    let mut endpoint = ip;
                    endpoint.append(":");
                    push_decimal(&mut endpoint, AGENT_PORT as i64);
                    self.endpoint = endpoint;
                    if self.flags.record {
                        self.phase = TestPhase::Pinning;
                        TestAction::PinAudio
                    } else {
                        self.run_suite()
                    }
                },
            },
            TestEvent::Pinned(pinned) => {
                self.phase = TestPhase::Launching { with_audio: pinned };
                TestAction::StartRecording { endpoint: self.endpoint.clone(), with_audio: pinned }
            },
            TestEvent::RecordingStarted(launched) => {
                let with_audio = match self.phase {
                    TestPhase::Launching { with_audio } => with_audio,
                    _ => false,
                };
                match recording_next(with_audio, launched) {
                    RecordingNext::Started(pid) => {
                        self.recording = Some(pid);
                        self.run_suite()
                    },
                    RecordingNext::RetryVideoOnly => {
                        self.phase = TestPhase::Launching { with_audio: false };
                        TestAction::StartRecording { endpoint: self.endpoint.clone(), with_audio: false }
                    },
                    RecordingNext::Unrecorded => self.run_suite(),
                }
            },
            TestEvent::SuiteNotLaunched(message) => {
                self.phase = TestPhase::Finished;
                let mut text = "failed to launch cargo test: ".to_owned();
                text.append(message.as_str());
                TestAction::Finish(Err(text))
            },
            TestEvent::SuiteExited(r) => {
                if let Err(status) = r {
                    self.add_failure("E2E suite failed: ", status.as_str());
                }
                self.after_suite()
            },
            TestEvent::RecordingStopped(r) => {
                if let Err(message) = r {
                    self.add_failure("could not stop the recording cleanly: ", message.as_str());
                }
                self.phase = TestPhase::Pulling;
                TestAction::PullRecording
            },
            TestEvent::RecordingPulled(r) => {
                if let Err(message) = r {
                    self.add_failure("could not pull the recording: ", message.as_str());
                }
                self.phase = TestPhase::Finished;
                TestAction::Finish(run_outcome(&self.failures))
            },
        }
    }
}

/// The restore comes right after the build exactly when `--no-restore` is
/// not given; otherwise the deploy does.
pub proof fn law_restore_follows_the_build_unless_skipped(s: TestRunView)
    ensures
        test_step_spec(s, TestEventView::Built(Ok(()))).1 is Restore <==> !s.flags.no_restore,
        test_step_spec(s, TestEventView::Built(Ok(()))).1 is Deploy <==> s.flags.no_restore,
{
}

/// Whenever the suite runs, it runs against the guest's agent, remote and
/// audible, and paced when `--paced` or `--record` was given.
pub proof fn law_suite_runs_paced_when_recording(s: TestRunView, e: TestEventView)
    ensures
        test_step_spec(s, e).1 matches TestActionView::RunSuite { env } ==> env == suite_environment_spec(
            test_step_spec(s, e).0.endpoint,
            guest_exe(),
            s.flags.paced || s.flags.record,
        ),
{
}

/// A recording that was started is stopped once the suite exits, whatever
/// its result, and pulled once the stop answered, whatever that answer.
pub proof fn law_recording_is_stopped_and_pulled(s: TestRunView, suite: Result<(), Seq<char>>, stopped: Result<(), Seq<char>>, pid: u32)
    requires
        s.recording == Some(pid),
    ensures
        test_step_spec(s, TestEventView::SuiteExited(suite)).1 == (TestActionView::StopRecording { endpoint: s.endpoint, pid }),
        test_step_spec(test_step_spec(s, TestEventView::SuiteExited(suite)).0, TestEventView::RecordingStopped(stopped)).1
            is PullRecording,
{
}

/// The outcome reported is every accumulated failure joined with `; `; the
/// suite's failure is among them exactly when the suite failed, and a
/// recording problem never replaces it.
pub proof fn law_failures_accumulate(s: TestRunView, suite: Result<(), Seq<char>>)
    ensures
        ({
            let after = test_step_spec(s, TestEventView::SuiteExited(suite)).0;
            &&& suite is Ok ==> after.failures == s.failures
            &&& suite matches Err(status) ==> after.failures == s.failures.push("E2E suite failed: "@ + status)
        }),
        forall|r: Result<(), Seq<char>>|
            #![trigger test_step_spec(s, TestEventView::RecordingStopped(r))]
            test_step_spec(s, TestEventView::RecordingStopped(r)).0.failures.take(s.failures.len() as int) == s.failures,
        forall|r: Result<(), Seq<char>>|
            #![trigger test_step_spec(s, TestEventView::RecordingPulled(r))]
            test_step_spec(s, TestEventView::RecordingPulled(r)).1 == TestActionView::Finish(
                outcome_of(test_step_spec(s, TestEventView::RecordingPulled(r)).0.failures),
            ),
{
    assert forall|r: Result<(), Seq<char>>|
        #![trigger test_step_spec(s, TestEventView::RecordingStopped(r))]
        test_step_spec(s, TestEventView::RecordingStopped(r)).0.failures.take(s.failures.len() as int) == s.failures by {
        let f = test_step_spec(s, TestEventView::RecordingStopped(r)).0.failures;
        assert(f.take(s.failures.len() as int) =~= s.failures);
    }
}

} // verus!
