//! The outpost runtime's decisions: how a navigation answer is reported,
//! which window an announcement starts from, which events reach acquisition,
//! and the retry schedule of the announcement that follows a switch to an
//! application. The runtime performs the platform queries these decisions
//! are made on, and the waits between attempts.

use vstd::prelude::*;

use crate::arbitration::Arbitrator;
use crate::protocol::{NavigateDirection, NavigateOutcome};
use crate::text::{decimal, push_decimal};
use crate::uia::map::Role;

verus! {

/// What a fetch answers: a node, a first-class "no neighbor", or "gone".
#[derive(Clone, Debug, PartialEq)]
pub enum FetchResult<N> {
    /// The node asked for.
    Node(N),
    /// Nothing exists in the requested direction.
    NoNeighbor,
    /// The node is gone or could not be reached in time.
    Gone,
}

/// The fetch result of a navigation query: a timeout (`None`) or a failure to
/// re-fetch the source node is "gone", never "no neighbor"; only a genuine
/// edge reports "no neighbor".
pub fn fetch_result_for_navigate<N>(outcome: Option<Result<NavigateOutcome<N>, String>>) -> (r: FetchResult<N>)
    ensures
        match outcome {
            None => r == FetchResult::<N>::Gone,
            Some(Err(_)) => r == FetchResult::<N>::Gone,
            Some(Ok(NavigateOutcome::NoNeighbor)) => r == FetchResult::<N>::NoNeighbor,
            Some(Ok(NavigateOutcome::Found(node))) => r == FetchResult::Node(node),
        },
{
    match outcome {
        None => FetchResult::Gone,
        Some(Err(_)) => FetchResult::Gone,
        Some(Ok(NavigateOutcome::NoNeighbor)) => FetchResult::NoNeighbor,
        Some(Ok(NavigateOutcome::Found(node))) => FetchResult::Node(node),
    }
}

/// The UIA backend's direction for a protocol direction: the same four
/// variants.
pub open spec fn uia_direction_of(direction: NavigateDirection) -> crate::uia::NavigateDirection {
    match direction {
        NavigateDirection::Parent => crate::uia::NavigateDirection::Parent,
        NavigateDirection::NextSibling => crate::uia::NavigateDirection::NextSibling,
        NavigateDirection::PreviousSibling => crate::uia::NavigateDirection::PreviousSibling,
        NavigateDirection::FirstChild => crate::uia::NavigateDirection::FirstChild,
    }
}

/// Maps the protocol's direction to the UIA backend's copy of it.
pub fn uia_navigate_direction(direction: NavigateDirection) -> (r: crate::uia::NavigateDirection)
    ensures
        r == uia_direction_of(direction),
{
    match direction {
        NavigateDirection::Parent => crate::uia::NavigateDirection::Parent,
        NavigateDirection::NextSibling => crate::uia::NavigateDirection::NextSibling,
        NavigateDirection::PreviousSibling => crate::uia::NavigateDirection::PreviousSibling,
        NavigateDirection::FirstChild => crate::uia::NavigateDirection::FirstChild,
    }
}

/// Whether a focused node's role is a selection container whose selected
/// child is announced with it: a list's selected item, a tab control's
/// active tab.
pub fn wants_selected_child(role: Role) -> (r: bool)
    ensures
        r == (role == Role::List || role == Role::TabControl),
{
    match role {
        Role::List | Role::TabControl => true,
        _ => false,
    }
}

/// What is known of one top-level window of the target process.
#[derive(Clone, Copy, Debug)]
pub struct WindowFacts {
    /// The window handle.
    pub hwnd: isize,
    /// Whether it is the screen reader's own hidden main frame.
    pub hidden_frame: bool,
    /// Whether it is visible.
    pub visible: bool,
}

/// The first window in enumeration order that is neither the hidden frame
/// nor invisible.
pub open spec fn first_announceable(windows: Seq<WindowFacts>) -> Option<isize>
    decreases windows.len(),
{
    if windows.len() == 0 {
        None
    } else if !windows[0].hidden_frame && windows[0].visible {
        Some(windows[0].hwnd)
    } else {
        first_announceable(windows.drop_first())
    }
}

/// The target's window to announce: its foreground window unless that is
/// the hidden frame, else the first of its top-level windows that is neither
/// the hidden frame nor invisible.
pub open spec fn active_window_spec(foreground: Option<WindowFacts>, windows: Seq<WindowFacts>) -> Option<isize> {
    match foreground {
        Some(w) => if !w.hidden_frame {
            Some(w.hwnd)
        } else {
            first_announceable(windows)
        },
        None => first_announceable(windows),
    }
}

/// The window found among the top-level windows is the first one that is
/// neither the hidden frame nor invisible; none is found exactly when every
/// window is one or the other.
pub proof fn law_first_announceable_window(windows: Seq<WindowFacts>)
    ensures
        first_announceable(windows) matches Some(h) ==> exists|i: int|
            0 <= i < windows.len() && #[trigger] windows[i].hwnd == h && !windows[i].hidden_frame
                && windows[i].visible && forall|j: int|
                0 <= j < i ==> (#[trigger] windows[j].hidden_frame || !windows[j].visible),
        first_announceable(windows) is None <==> forall|j: int|
            0 <= j < windows.len() ==> (#[trigger] windows[j].hidden_frame || !windows[j].visible),
    decreases windows.len(),
{
    if windows.len() > 0 {
        let rest = windows.drop_first();
        law_first_announceable_window(rest);
        if !(!windows[0].hidden_frame && windows[0].visible) {
            if first_announceable(rest) is Some {
                let h = first_announceable(rest).unwrap();
                let i = choose|i: int|
                    0 <= i < rest.len() && #[trigger] rest[i].hwnd == h && !rest[i].hidden_frame && rest[i].visible
                        && forall|j: int| 0 <= j < i ==> (#[trigger] rest[j].hidden_frame || !rest[j].visible);
                assert(windows[i + 1] == rest[i]);
                assert forall|j: int| 0 <= j < i + 1 implies (#[trigger] windows[j].hidden_frame || !windows[j].visible) by {
                    if j > 0 {
                        assert(windows[j] == rest[j - 1]);
                    }
                }
            }
            assert((forall|j: int| 0 <= j < rest.len() ==> (#[trigger] rest[j].hidden_frame || !rest[j].visible))
                <==> (forall|j: int| 0 <= j < windows.len() ==> (#[trigger] windows[j].hidden_frame || !windows[j].visible))) by {
                if forall|j: int| 0 <= j < rest.len() ==> (#[trigger] rest[j].hidden_frame || !rest[j].visible) {
                    assert forall|j: int| 0 <= j < windows.len() implies (#[trigger] windows[j].hidden_frame
                        || !windows[j].visible) by {
                        if j > 0 {
                            assert(windows[j] == rest[j - 1]);
                        }
                    }
                }
                if forall|j: int| 0 <= j < windows.len() ==> (#[trigger] windows[j].hidden_frame || !windows[j].visible) {
                    assert forall|j: int| 0 <= j < rest.len() implies (#[trigger] rest[j].hidden_frame
                        || !rest[j].visible) by {
                        assert(windows[j + 1] == rest[j]);
                    }
                }
            }
        } else {
            assert(!(windows[0].hidden_frame || !windows[0].visible));
        }
    }
}

/// The window announced is the target's own foreground window when that is
/// not the hidden frame; otherwise it is one of its top-level windows that
/// is neither the hidden frame nor invisible, and the hidden frame is never
/// announced.
pub proof fn law_announced_window_is_never_the_hidden_frame(foreground: Option<WindowFacts>, windows: Seq<WindowFacts>)
    ensures
        foreground is Some && !foreground.unwrap().hidden_frame ==> active_window_spec(foreground, windows) == Some(
            foreground.unwrap().hwnd,
        ),
        !(foreground is Some && !foreground.unwrap().hidden_frame) ==> (active_window_spec(foreground, windows) matches Some(h)
            ==> exists|i: int|
            0 <= i < windows.len() && #[trigger] windows[i].hwnd == h && !windows[i].hidden_frame
                && windows[i].visible),
{
    law_first_announceable_window(windows);
}

/// Finds the target's window to announce, from its foreground window (when
/// the foreground window belongs to it) and its top-level windows in
/// enumeration order.
pub fn active_top_level_window(foreground: Option<WindowFacts>, windows: &Vec<WindowFacts>) -> (r: Option<isize>)
    ensures
        r == active_window_spec(foreground, windows@),
{
    if let Some(w) = foreground {
        if !w.hidden_frame {
            return Some(w.hwnd);
        }
    }
    assert(windows@.subrange(0, windows@.len() as int) =~= windows@);
    let mut i: usize = 0;
    while i < windows.len()
        invariant
            i <= windows@.len(),
            active_window_spec(foreground, windows@) == first_announceable(windows@),
            first_announceable(windows@) == first_announceable(windows@.subrange(i as int, windows@.len() as int)),
        decreases windows.len() - i,
    {
        let ghost rest = windows@.subrange(i as int, windows@.len() as int);
        assert(rest[0] == windows@[i as int]);
        if !windows[i].hidden_frame && windows[i].visible {
            return Some(windows[i].hwnd);
        }
        assert(rest.drop_first() =~= windows@.subrange(i + 1, windows@.len() as int));
        i = i + 1;
    }
    proof {
        assert(windows@.subrange(i as int, windows@.len() as int) =~= Seq::<WindowFacts>::empty());
    }
    None
}

/// What happens to an MSAA event once it passed the listener.
#[derive(Clone, Copy, Debug, PartialEq, Eq)]
pub enum MsaaGate {
    /// Dropped: the hidden frame's own focus event, or a UIA window's event.
    Drop,
    /// Acquired on a query worker; when the window's backend is still
    /// undecided, a probe is scheduled to warm the cache.
    Acquire { schedule_probe: bool },
}

/// `CHILDID_SELF`: the event is about the window object itself.
pub const CHILDID_SELF: i32 = 0;

/// What happens to an MSAA event: dropped when it is the focus event of the
/// hidden frame itself or when its window uses UIA; acquired otherwise, with
/// a probe scheduled when the window's backend is still undecided.
pub open spec fn msaa_gate_spec(is_focus: bool, id_child: i32, hidden_frame: bool, verdict: Option<bool>) -> MsaaGate {
    if is_focus && id_child == CHILDID_SELF && hidden_frame {
        MsaaGate::Drop
    } else {
        match verdict {
            Some(true) => MsaaGate::Drop,
            Some(false) => MsaaGate::Acquire { schedule_probe: false },
            None => MsaaGate::Acquire { schedule_probe: true },
        }
    }
}

/// Decides what happens to an MSAA event, from its kind, child id, whether
/// its window is the hidden frame, and the arbitrator's verdict on the
/// window.
pub fn msaa_event_gate(is_focus: bool, id_child: i32, hidden_frame: bool, verdict: Option<bool>) -> (r: MsaaGate)
    ensures
        r == msaa_gate_spec(is_focus, id_child, hidden_frame, verdict),
{
    if is_focus && id_child == CHILDID_SELF && hidden_frame {
        return MsaaGate::Drop;
    }
    match verdict {
        Some(true) => MsaaGate::Drop,
        Some(false) => MsaaGate::Acquire { schedule_probe: false },
        None => MsaaGate::Acquire { schedule_probe: true },
    }
}


/// Whether an MSAA focus or menu-popup fact delivered from the listener goes
/// on to acquisition: not the hidden frame's own focus event, and not on a
/// window whose resolved verdict is UIA. A probe that could not answer
/// (`None`) lets the fact proceed, so a hung window still announces.
pub open spec fn msaa_fact_proceeds_spec(is_focus: bool, id_child: i32, hidden_frame: bool, verdict: Option<bool>) -> bool {
    !(is_focus && id_child == CHILDID_SELF && hidden_frame) && verdict != Some(true)
}

/// An MSAA fact from the listener proceeds exactly when the live event path
/// would acquire the same event, with the resolved verdict in place of the
/// cached one: apart from the hidden frame's own focus event, it proceeds
/// exactly when the window's verdict is not UIA, so a non-UIA window, and a
/// window whose probe could not answer, is announced through MSAA.
pub proof fn law_msaa_facts_proceed_unless_uia(is_focus: bool, id_child: i32, hidden_frame: bool, verdict: Option<bool>)
    ensures
        msaa_fact_proceeds_spec(is_focus, id_child, hidden_frame, verdict) == (msaa_gate_spec(
            is_focus,
            id_child,
            hidden_frame,
            verdict,
        ) is Acquire),
        is_focus && id_child == CHILDID_SELF && hidden_frame ==> !msaa_fact_proceeds_spec(
            is_focus,
            id_child,
            hidden_frame,
            verdict,
        ),
        !(is_focus && id_child == CHILDID_SELF && hidden_frame) ==> (msaa_fact_proceeds_spec(
            is_focus,
            id_child,
            hidden_frame,
            verdict,
        ) <==> verdict != Some(true)),
        !hidden_frame ==> msaa_fact_proceeds_spec(is_focus, id_child, hidden_frame, Some(false)),
        !hidden_frame ==> msaa_fact_proceeds_spec(is_focus, id_child, hidden_frame, None),
{
}

/// On the live path a UIA window's events are dropped, a non-UIA window's
/// are acquired, and an undecided window's are acquired with a probe
/// scheduled to decide it; only the hidden frame's own focus event is
/// dropped whatever the verdict.
pub proof fn law_msaa_gate_follows_the_verdict(is_focus: bool, id_child: i32, hidden_frame: bool, verdict: Option<bool>)
    ensures
        !(is_focus && id_child == CHILDID_SELF && hidden_frame) ==> {
            &&& msaa_gate_spec(is_focus, id_child, hidden_frame, verdict) is Drop <==> verdict == Some(true)
            &&& msaa_gate_spec(is_focus, id_child, hidden_frame, verdict) == (MsaaGate::Acquire {
                schedule_probe: true,
            }) <==> verdict is None
        },
        is_focus && id_child == CHILDID_SELF && hidden_frame ==> msaa_gate_spec(
            is_focus,
            id_child,
            hidden_frame,
            verdict,
        ) is Drop,
{
}

/// A UIA focus fact with a window is delivered exactly when that window is
/// not the hidden frame and resolved to UIA; a fact with no window at all is
/// always delivered. So UIA and MSAA facts about one ordinary window with a
/// resolved verdict are never both announced, and never both dropped.
pub proof fn law_uia_and_msaa_facts_split_by_verdict(
    window: isize,
    is_focus: bool,
    id_child: i32,
    verdict: bool,
)
    ensures
        uia_fact_delivers_spec(None, false, Some(verdict)),
        uia_fact_delivers_spec(Some(window), false, Some(verdict)) <==> verdict,
        !uia_fact_delivers_spec(Some(window), true, Some(verdict)),
        uia_fact_delivers_spec(Some(window), false, Some(verdict)) != msaa_fact_proceeds_spec(
            is_focus,
            id_child,
            false,
            Some(verdict),
        ),
{
}

/// Decides whether an MSAA fact proceeds to acquisition.
pub fn msaa_fact_proceeds(is_focus: bool, id_child: i32, hidden_frame: bool, verdict: Option<bool>) -> (r: bool)
    ensures
        r == msaa_fact_proceeds_spec(is_focus, id_child, hidden_frame, verdict),
{
    if is_focus && id_child == CHILDID_SELF && hidden_frame {
        return false;
    }
    match verdict {
        Some(true) => false,
        _ => true,
    }
}

/// The window a UIA focus fact is arbitrated on: the listener's cached
/// handle when it had one, else the window the element resolves to, else
/// the window holding the keyboard focus.
pub fn uia_fact_window_choice(listener_hwnd: isize, resolved: Option<isize>, focus_window: Option<isize>) -> (r: Option<isize>)
    ensures
        r == if listener_hwnd != 0 {
            Some(listener_hwnd)
        } else {
            match resolved {
                Some(w) => Some(w),
                None => focus_window,
            }
        },
{
    if listener_hwnd != 0 {
        return Some(listener_hwnd);
    }
    match resolved {
        Some(w) => Some(w),
        None => focus_window,
    }
}

/// Whether a UIA focus fact is delivered: an element with no window at all
/// is delivered; on a window, only when it is not the hidden frame and its
/// resolved verdict is UIA (a non-UIA window announces through MSAA, and a
/// probe timeout is covered by the MSAA side's own fallback).
pub open spec fn uia_fact_delivers_spec(window: Option<isize>, hidden_frame: bool, verdict: Option<bool>) -> bool {
    match window {
        None => true,
        Some(_) => !hidden_frame && verdict == Some(true),
    }
}

/// Decides whether a UIA focus fact is delivered, given its window, whether
/// that window is the hidden frame, and the window's resolved verdict.
pub fn uia_fact_delivers(window: Option<isize>, hidden_frame: bool, verdict: Option<bool>) -> (r: bool)
    ensures
        r == uia_fact_delivers_spec(window, hidden_frame, verdict),
{
    match window {
        None => true,
        Some(_) => !hidden_frame && verdict == Some(true),
    }
}

/// The fault reported when a background probe misses its deadline.
pub open spec fn probe_timeout_fault(hwnd: isize) -> Seq<char> {
    "UiaHasServerSideProvider timed out for hwnd "@ + decimal(hwnd as int) + "; verdict left unresolved"@
}

/// Records what a background probe for `hwnd` answered, stamped at `now`: a
/// real answer is cached; a timeout records nothing, so the next fact for
/// that window probes again, and comes back as the fault to report.
pub fn record_probe_answer(arbitrator: &mut Arbitrator, hwnd: isize, answer: Option<bool>, now: u64) -> (r: Option<String>)
    ensures
        match answer {
            Some(is_uia) => r is None && final(arbitrator)@ == old(arbitrator)@.with_record(hwnd, is_uia, now),
            None => r matches Some(m) && m@ == probe_timeout_fault(hwnd) && final(arbitrator)@ == old(arbitrator)@,
        },
{
    match answer {
        Some(is_uia) => {
            arbitrator.record_probe_at(hwnd, is_uia, now);
            None
        },
        None => {
            let mut message = "UiaHasServerSideProvider timed out for hwnd ".to_owned();
            push_decimal(&mut message, hwnd as i64);
            message.append("; verdict left unresolved");
            Some(message)
        },
    }
}

/// Attempts an announcement gets before it gives up.
pub const ANNOUNCE_RETRY_ATTEMPTS: u32 = 10;

/// Milliseconds between announcement attempts.
pub const ANNOUNCE_RETRY_INTERVAL_MS: u64 = 500;

/// How an announcement attempt ends.
#[derive(Clone, Copy, Debug, PartialEq, Eq)]
pub enum AttemptEnd {
    /// Both the window and the focused control were announced.
    Done,
    /// Wait the retry interval, then try again.
    Retry,
    /// The attempts ran out before both were announced, and the
    /// announcement is still current: the exhaustion is reported.
    Exhausted,
    /// The attempts ran out after a newer announcement superseded this one:
    /// nothing is reported.
    Superseded,
}

/// How an announcement attempt starts.
#[derive(Clone, Copy, Debug, PartialEq, Eq)]
pub enum AttemptStart {
    /// Look for what is still unannounced: the window, the focused control,
    /// or both.
    Look { window: bool, control: bool },
    /// A newer announcement superseded this one: stop, reporting nothing.
    Superseded,
}

/// The progress of the announcement that follows a switch to an application:
/// the window is announced once it has a name, the focused control once it
/// is found, each at most once, over a bounded number of attempts.
pub struct Announcer {
    attempt: u32,
    window_done: bool,
    control_done: bool,
}

impl Announcer {
    /// The attempt under way, counted from zero.
    pub closed spec fn attempt_spec(&self) -> u32 {
        self.attempt
    }

    /// Whether the window was announced.
    pub closed spec fn window_done_spec(&self) -> bool {
        self.window_done
    }

    /// Whether the focused control was announced.
    pub closed spec fn control_done_spec(&self) -> bool {
        self.control_done
    }

    /// A fresh announcement at its first attempt.
    pub fn new() -> (r: Self)
        ensures
            r.attempt_spec() == 0,
            !r.window_done_spec(),
            !r.control_done_spec(),
    {
        Announcer { attempt: 0, window_done: false, control_done: false }
    }

    /// Starts an attempt: a run that is no longer current stops here,
    /// reporting nothing; otherwise it looks for whichever parts are still
    /// unannounced.
    pub fn begin_attempt(&self, still_current: bool) -> (r: AttemptStart)
        ensures
            r == if still_current {
                AttemptStart::Look { window: !self.window_done_spec(), control: !self.control_done_spec() }
            } else {
                AttemptStart::Superseded
            },
    {
        if still_current {
            AttemptStart::Look { window: !self.window_done, control: !self.control_done }
        } else {
            AttemptStart::Superseded
        }
    }

    /// Whether this attempt should look for the window.
    pub fn wants_window(&self) -> (r: bool)
        ensures
            r == !self.window_done_spec(),
    {
        !self.window_done
    }

    /// Records the window found this attempt: `Some(named)` when one was
    /// found, with whether it has a name yet. A nameless window is skipped,
    /// to be read again next attempt. Returns whether to announce it now,
    /// which needs it named and the announcement still current.
    pub fn window_found(&mut self, found: Option<bool>, still_current: bool) -> (announce: bool)
        requires
            !old(self).window_done_spec(),
        ensures
            announce == (found == Some(true) && still_current),
            final(self).window_done_spec() == (found == Some(true)),
            final(self).control_done_spec() == old(self).control_done_spec(),
            final(self).attempt_spec() == old(self).attempt_spec(),
    {
        if found == Some(true) {
            self.window_done = true;
            still_current
        } else {
            false
        }
    }

    /// Whether this attempt should look for the focused control: not yet
    /// found, and the announcement still current.
    pub fn wants_control(&self, still_current: bool) -> (r: bool)
        ensures
            r == (!self.control_done_spec() && still_current),
    {
        !self.control_done && still_current
    }

    /// Records whether the focused control was found this attempt. Returns
    /// whether to announce it now, which needs it found and the announcement
    /// still current.
    pub fn control_found(&mut self, found: bool, still_current: bool) -> (announce: bool)
        requires
            !old(self).control_done_spec(),
        ensures
            announce == (found && still_current),
            final(self).control_done_spec() == found,
            final(self).window_done_spec() == old(self).window_done_spec(),
            final(self).attempt_spec() == old(self).attempt_spec(),
    {
        if found {
            self.control_done = true;
            still_current
        } else {
            false
        }
    }

    /// Ends an attempt: done when both parts were announced, else another
    /// attempt after the retry interval while attempts remain; once they run
    /// out, the exhaustion is reported only if the announcement is still
    /// current.
    pub fn end_attempt(&mut self, still_current: bool) -> (r: AttemptEnd)
        requires
            old(self).attempt_spec() < ANNOUNCE_RETRY_ATTEMPTS,
        ensures
            final(self).window_done_spec() == old(self).window_done_spec(),
            final(self).control_done_spec() == old(self).control_done_spec(),
            if old(self).window_done_spec() && old(self).control_done_spec() {
                r == AttemptEnd::Done && final(self).attempt_spec() == old(self).attempt_spec()
            } else {
                final(self).attempt_spec() == old(self).attempt_spec() + 1 && r == if old(self).attempt_spec() + 1
                    < ANNOUNCE_RETRY_ATTEMPTS {
                    AttemptEnd::Retry
                } else if still_current {
                    AttemptEnd::Exhausted
                } else {
                    AttemptEnd::Superseded
                }
            },
    {
        if self.window_done && self.control_done {
            return AttemptEnd::Done;
        }
        self.attempt = self.attempt + 1;
        if self.attempt < ANNOUNCE_RETRY_ATTEMPTS {
            AttemptEnd::Retry
        } else if still_current {
            AttemptEnd::Exhausted
        } else {
            AttemptEnd::Superseded
        }
    }
}

} // verus!
