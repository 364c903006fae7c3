//! The priority lanes of the speech pipeline's queue thread.
//!
//! An `Interrupt` utterance cancels the current utterance and empties both
//! lanes before it speaks; a `Next` utterance jumps ahead of the queued ones
//! but behind the current one; `Queued` appends. One job at a time is in
//! flight on the synth thread: the next one is dispatched only when the
//! previous one has finished. The thread around these lanes performs what
//! each step returns: it raises the shared cancel flag when asked to, and it
//! lowers the flag and sends the job when one is dispatched.

use std::collections::VecDeque;
use vstd::prelude::*;

verus! {

/// The lane an utterance is spoken in.
#[derive(Clone, Copy, Debug, PartialEq, Eq)]
pub enum SpeechPriority {
    /// Cancels the current utterance and everything waiting, then speaks.
    Interrupt,
    /// Speaks after the current utterance, ahead of the queued ones.
    Next,
    /// Speaks after everything already waiting.
    Queued,
}

/// What the queue thread does after one step.
pub struct Dispatch<R> {
    /// Raise the cancel flag, so the utterance in flight stops promptly.
    pub cancel: bool,
    /// The job to send to the synth thread, with the cancel flag lowered
    /// first.
    pub job: Option<R>,
}

/// The lanes as the contracts see them.
pub struct LanesView<R> {
    /// Utterances spoken in the `Next` lane, oldest first.
    pub next: Seq<R>,
    /// Utterances spoken in the `Queued` lane, oldest first.
    pub queued: Seq<R>,
    /// Whether a job is in flight on the synth thread.
    pub busy: bool,
}

/// Everything waiting, in the order it will be dispatched.
pub open spec fn pending<R>(v: LanesView<R>) -> Seq<R> {
    v.next + v.queued
}

/// The lanes after a new utterance joins its lane.
pub open spec fn enqueue_spec<R>(v: LanesView<R>, priority: SpeechPriority, request: R) -> LanesView<R> {
    match priority {
        SpeechPriority::Interrupt => LanesView { next: seq![request], queued: Seq::empty(), busy: v.busy },
        SpeechPriority::Next => LanesView { next: v.next.push(request), ..v },
        SpeechPriority::Queued => LanesView { queued: v.queued.push(request), ..v },
    }
}

/// The lanes after a dispatch attempt, and the job dispatched: when nothing
/// is in flight, the oldest `Next` utterance, else the oldest queued one.
pub open spec fn pump_spec<R>(v: LanesView<R>) -> (LanesView<R>, Option<R>) {
    if v.busy {
        (v, None)
    } else if v.next.len() > 0 {
        (LanesView { next: v.next.drop_first(), busy: true, ..v }, Some(v.next[0]))
    } else if v.queued.len() > 0 {
        (LanesView { queued: v.queued.drop_first(), busy: true, ..v }, Some(v.queued[0]))
    } else {
        (v, None)
    }
}

/// The lanes' invariant: nothing waits while the synth thread is idle.
pub open spec fn lanes_wf<R>(v: LanesView<R>) -> bool {
    !v.busy ==> v.next.len() == 0 && v.queued.len() == 0
}

/// The two priority lanes and the in-flight flag of the queue thread.
pub struct SpeechLanes<R> {
    next: VecDeque<R>,
    queued: VecDeque<R>,
    busy: bool,
}

impl<R> View for SpeechLanes<R> {
    type V = LanesView<R>;

    closed spec fn view(&self) -> LanesView<R> {
        LanesView { next: self.next@, queued: self.queued@, busy: self.busy }
    }
}

impl<R> SpeechLanes<R> {
    /// Empty lanes with nothing in flight.
    pub fn new() -> (r: Self)
        ensures
            r@ == (LanesView::<R> { next: Seq::empty(), queued: Seq::empty(), busy: false }),
    {
        SpeechLanes { next: VecDeque::new(), queued: VecDeque::new(), busy: false }
    }

    /// Whether a job is in flight.
    pub fn is_busy(&self) -> (r: bool)
        ensures
            r == self@.busy,
    {
        self.busy
    }

    /// Dispatches the oldest waiting job when nothing is in flight.
    fn pump(&mut self) -> (r: Option<R>)
        ensures
            (final(self)@, r) == pump_spec(old(self)@),
    {
        if self.busy {
            return None;
        }
        let request = match self.next.pop_front() {
            Some(request) => Some(request),
            None => self.queued.pop_front(),
        };
        if request.is_some() {
            self.busy = true;
        }
        request
    }

    /// Adds an utterance to its lane and dispatches if the synth thread is
    /// idle; an `Interrupt` also asks for the current utterance to be
    /// cancelled and drops everything waiting.
    pub fn speak(&mut self, priority: SpeechPriority, request: R) -> (r: Dispatch<R>)
        ensures
            r.cancel == (priority == SpeechPriority::Interrupt),
            (final(self)@, r.job) == pump_spec(enqueue_spec(old(self)@, priority, request)),
    {
        let cancel = match priority {
            SpeechPriority::Interrupt => {
                self.next.clear();
                self.queued.clear();
                self.next.push_back(request);
                assert(self.next@ =~= seq![request]);
                true
            },
            SpeechPriority::Next => {
                self.next.push_back(request);
                false
            },
            SpeechPriority::Queued => {
                self.queued.push_back(request);
                false
            },
        };
        let job = self.pump();
        Dispatch { cancel, job }
    }

    /// Prepares a synthesizer switch: asks for the current utterance to be
    /// cancelled and drops everything waiting.
    pub fn switch_synth(&mut self) -> (cancel: bool)
        ensures
            cancel,
            final(self)@ == (LanesView::<R> { next: Seq::empty(), queued: Seq::empty(), busy: old(self)@.busy }),
    {
        self.next.clear();
        self.queued.clear();
        true
    }

    /// The synth thread finished its job: dispatches the next one, if any.
    pub fn finished(&mut self) -> (r: Option<R>)
        ensures
            (final(self)@, r) == pump_spec(LanesView { busy: false, ..old(self)@ }),
    {
        self.busy = false;
        self.pump()
    }
}

/// Dispatching takes the first waiting utterance and keeps the rest in
/// order: lanes are first in, first out, and `Next` goes before `Queued`.
pub proof fn law_dispatch_takes_the_head_of_pending<R>(v: LanesView<R>)
    requires
        !v.busy,
        pending(v).len() > 0,
    ensures
        pump_spec(v).1 == Some(pending(v)[0]),
        pending(pump_spec(v).0) == pending(v).drop_first(),
        pump_spec(v).0.busy,
{
    if v.next.len() > 0 {
        assert(pending(pump_spec(v).0) =~= pending(v).drop_first());
    } else {
        assert(v.next =~= Seq::<R>::empty());
        assert(pending(v) =~= v.queued);
        assert(pending(pump_spec(v).0) =~= pending(v).drop_first());
    }
}

/// Where a new utterance stands among those waiting: a `Next` one after the
/// `Next` ones and before every queued one, a queued one last, and an
/// interrupting one alone.
pub proof fn law_lane_order<R>(v: LanesView<R>, request: R)
    ensures
        pending(enqueue_spec(v, SpeechPriority::Interrupt, request)) == seq![request],
        pending(enqueue_spec(v, SpeechPriority::Next, request)) == v.next.push(request) + v.queued,
        pending(enqueue_spec(v, SpeechPriority::Queued, request)) == pending(v).push(request),
{
    assert(pending(enqueue_spec(v, SpeechPriority::Interrupt, request)) =~= seq![request]);
    assert(pending(enqueue_spec(v, SpeechPriority::Queued, request)) =~= pending(v).push(request));
}

/// At most one job is in flight: nothing is dispatched while one is, and a
/// dispatch marks the synth thread busy.
pub proof fn law_one_job_in_flight<R>(v: LanesView<R>)
    ensures
        v.busy ==> pump_spec(v) == (v, None::<R>),
        pump_spec(v).1 is Some ==> !v.busy && pump_spec(v).0.busy,
{
}

/// Every step keeps the invariant that nothing waits while the synth thread
/// is idle.
pub proof fn law_steps_keep_lanes_wf<R>(v: LanesView<R>, priority: SpeechPriority, request: R)
    requires
        lanes_wf(v),
    ensures
        lanes_wf(pump_spec(enqueue_spec(v, priority, request)).0),
        lanes_wf(pump_spec(LanesView { busy: false, ..v }).0),
        lanes_wf(LanesView { next: Seq::<R>::empty(), queued: Seq::<R>::empty(), busy: v.busy }),
{
    if v.next.len() == 1 {
        assert(v.next.drop_first().len() == 0);
    }
}

/// What the synth thread does with the audio stream once a job returns.
#[derive(Clone, Copy, Debug, PartialEq, Eq)]
pub enum JobEnding {
    /// No audio began: nothing to end.
    Nothing,
    /// Discard buffered audio: the job was cancelled or failed.
    Stop,
    /// Drain the audio to the end: the job completed.
    Drain,
}

/// How a job's audio ends, from whether audio began, whether the job was
/// cancelled, and whether the sink or the synthesizer failed.
pub open spec fn job_ending_spec(begun: bool, cancelled: bool, sink_failed: bool, synth_failed: bool) -> JobEnding {
    if !begun {
        JobEnding::Nothing
    } else if cancelled || sink_failed || synth_failed {
        JobEnding::Stop
    } else {
        JobEnding::Drain
    }
}

/// Decides how a job's audio ends; only a drained job may be reported as
/// finished.
pub fn job_ending(begun: bool, cancelled: bool, sink_failed: bool, synth_failed: bool) -> (r: JobEnding)
    ensures
        r == job_ending_spec(begun, cancelled, sink_failed, synth_failed),
{
    if !begun {
        JobEnding::Nothing
    } else if cancelled || sink_failed || synth_failed {
        JobEnding::Stop
    } else {
        JobEnding::Drain
    }
}

} // verus!
