//! Per-window backend arbitration.
//!
//! The cheapest rung decides first: a "good" class list (plus per-application
//! extras) forces UIA, a "bad" class list forces MSAA, and otherwise the window
//! is probed. Probe verdicts are cached per window handle for
//! [`CACHE_TTL_MS`] milliseconds. A forced backend, when set, overrides every
//! rung.
//!
//! Time enters as milliseconds since the arbitrator was created. The
//! `*_at` methods take that reading as an argument and carry exact contracts;
//! the methods without the suffix read the monotonic clock themselves.

use std::collections::HashMap;
use std::time::Instant;
use vstd::prelude::*;

use crate::clock::{millis_since, monotonic_now, saturate_u64};

verus! {

broadcast use vstd::std_specs::hash::group_hash_axioms;

/// How long a probe verdict stays valid, in milliseconds.
pub const CACHE_TTL_MS: u64 = 500;

/// Whether a verdict recorded at `at` is still valid at `now`. A reading
/// earlier than the record counts as no time elapsed.
pub open spec fn fresh(at: u64, now: u64) -> bool {
    now < at + CACHE_TTL_MS
}

/// The character sequences of a list of strings.
pub open spec fn strings_view(v: Seq<String>) -> Seq<Seq<char>> {
    v.map_values(|s: String| s@)
}

/// Classes that are always treated as UIA.
pub open spec fn good_uia_classes() -> Seq<Seq<char>> {
    seq!["RAIL_WINDOW"@, "Microsoft.UI.Content.DesktopChildSiteBridge"@]
}

/// Classes whose UIA implementations interfere with MSAA, forced to MSAA.
pub open spec fn bad_uia_classes() -> Seq<Seq<char>> {
    seq![
        "Microsoft.IME.CandidateWindow.View"@,
        "SysTreeView32"@,
        "WuDuiListView"@,
        "ComboBox"@,
        "msctls_progress32"@,
        "msctls_trackbar32"@,
        "Edit"@,
        "CommonPlacesWrapperWndClass"@,
        "SysMonthCal32"@,
        "SUPERGRID"@,
        "RichEdit"@,
        "RichEdit20"@,
        "RICHEDIT50W"@,
        "Button"@,
        "FoxitDocWnd"@,
        "MozillaWindowClass"@,
        "MozillaDropShadowWindowClass"@,
        "MozillaDialogClass"@,
        "MozillaContentWindowClass"@,
    ]
}

/// The classification a window's class name yields before any probe.
#[derive(Clone, Copy, Debug, PartialEq, Eq)]
pub enum ClassVerdict {
    /// A "good" class: always UIA.
    Uia,
    /// A "bad" class: always MSAA.
    NonUia,
    /// Not decided by class; needs the probe.
    Unknown,
}

/// The good list is consulted before the bad list.
pub open spec fn classify_spec(good: Seq<Seq<char>>, bad: Seq<Seq<char>>, class: Seq<char>) -> ClassVerdict {
    if good.contains(class) {
        ClassVerdict::Uia
    } else if bad.contains(class) {
        ClassVerdict::NonUia
    } else {
        ClassVerdict::Unknown
    }
}

/// The cached probe verdict for `hwnd` at `now`, if one is recorded and fresh.
pub open spec fn cached_verdict(cache: Map<isize, (bool, u64)>, hwnd: isize, now: u64) -> Option<bool> {
    if cache.contains_key(hwnd) && fresh(cache[hwnd].1, now) {
        Some(cache[hwnd].0)
    } else {
        None
    }
}

/// The abstract state of an [`Arbitrator`].
pub struct ArbitratorView {
    /// Classes forced to UIA, in list order.
    pub good: Seq<Seq<char>>,
    /// Classes forced to MSAA, in list order.
    pub bad: Seq<Seq<char>>,
    /// Probe verdicts and the millisecond reading at which each was recorded.
    pub cache: Map<isize, (bool, u64)>,
    /// A forced backend for every window: `Some(true)` UIA, `Some(false)` MSAA.
    pub forced: Option<bool>,
}

impl ArbitratorView {
    /// What arbitration decides for `hwnd` of class `class` at `now` without
    /// probing: the forced backend, else the class lists, else a fresh cached
    /// verdict; `None` when only a probe could decide.
    pub open spec fn decided(self, hwnd: isize, class: Seq<char>, now: u64) -> Option<bool> {
        if self.forced is Some {
            self.forced
        } else {
            match classify_spec(self.good, self.bad, class) {
                ClassVerdict::Uia => Some(true),
                ClassVerdict::NonUia => Some(false),
                ClassVerdict::Unknown => cached_verdict(self.cache, hwnd, now),
            }
        }
    }

    /// This state with `hwnd`'s verdict recorded at `now`.
    pub open spec fn with_record(self, hwnd: isize, is_uia: bool, now: u64) -> ArbitratorView {
        ArbitratorView { cache: self.cache.insert(hwnd, (is_uia, now)), ..self }
    }

    /// Whether resolving `hwnd` of class `class` at `now` from state `self`
    /// yields `r` and state `next`, given what the probe answered (`None`
    /// when it could not answer in time) and the reading `stamped` taken once
    /// it answered, at which its verdict is recorded. The probe's answer
    /// matters only when nothing else decides.
    pub open spec fn resolves(
        self,
        next: ArbitratorView,
        hwnd: isize,
        class: Seq<char>,
        now: u64,
        stamped: u64,
        answer: Option<bool>,
        r: Resolution,
    ) -> bool {
        match self.decided(hwnd, class, now) {
            Some(v) => r == Resolution { is_uia: v, probe_timed_out: false } && next == self,
            None => {
                &&& r == Resolution { is_uia: answer == Some(true), probe_timed_out: answer is None }
                &&& next == self.with_record(hwnd, r.is_uia, stamped)
            },
        }
    }
}

/// Caches and decides the backend for each window of one application.
pub struct Arbitrator {
    good_classes: Vec<String>,
    bad_classes: Vec<String>,
    cache: HashMap<isize, (bool, u64)>,
    forced: Option<bool>,
    origin: Instant,
}

impl View for Arbitrator {
    type V = ArbitratorView;

    closed spec fn view(&self) -> ArbitratorView {
        ArbitratorView {
            good: strings_view(self.good_classes@),
            bad: strings_view(self.bad_classes@),
            cache: self.cache@,
            forced: self.forced,
        }
    }
}

/// The outcome of [`Arbitrator::resolve_with`].
#[derive(Clone, Copy, Debug, PartialEq, Eq)]
pub struct Resolution {
    /// Whether the window should use UIA.
    pub is_uia: bool,
    /// Whether the probe timed out (verdict defaulted to non-UIA; emit a fault).
    pub probe_timed_out: bool,
}

/// Whether `list` holds `item`.
fn list_contains(list: &Vec<String>, item: &String) -> (r: bool)
    ensures
        r == strings_view(list@).contains(item@),
{
    let mut i: usize = 0;
    while i < list.len()
        invariant
            i <= list@.len(),
            forall|j: int| 0 <= j < i ==> list@[j]@ != item@,
        decreases list.len() - i,
    {
        if list[i] == *item {
            assert(strings_view(list@)[i as int] == item@);
            return true;
        }
        i = i + 1;
    }
    assert forall|j: int| 0 <= j < strings_view(list@).len() implies strings_view(list@)[j] != item@ by {
        assert(strings_view(list@)[j] == list@[j]@);
    }
    false
}

/// The built-in good-class list.
fn default_good_classes() -> (v: Vec<String>)
    ensures
        strings_view(v@) == good_uia_classes(),
{
    let mut v: Vec<String> = Vec::new();
    v.push("RAIL_WINDOW".to_owned());
    v.push("Microsoft.UI.Content.DesktopChildSiteBridge".to_owned());
    assert(strings_view(v@) =~= good_uia_classes());
    v
}

/// The built-in bad-class list.
fn default_bad_classes() -> (v: Vec<String>)
    ensures
        strings_view(v@) == bad_uia_classes(),
{
    let mut v: Vec<String> = Vec::new();
    v.push("Microsoft.IME.CandidateWindow.View".to_owned());
    v.push("SysTreeView32".to_owned());
    v.push("WuDuiListView".to_owned());
    v.push("ComboBox".to_owned());
    v.push("msctls_progress32".to_owned());
    v.push("msctls_trackbar32".to_owned());
    v.push("Edit".to_owned());
    v.push("CommonPlacesWrapperWndClass".to_owned());
    v.push("SysMonthCal32".to_owned());
    v.push("SUPERGRID".to_owned());
    v.push("RichEdit".to_owned());
    v.push("RichEdit20".to_owned());
    v.push("RICHEDIT50W".to_owned());
    v.push("Button".to_owned());
    v.push("FoxitDocWnd".to_owned());
    v.push("MozillaWindowClass".to_owned());
    v.push("MozillaDropShadowWindowClass".to_owned());
    v.push("MozillaDialogClass".to_owned());
    v.push("MozillaContentWindowClass".to_owned());
    assert(strings_view(v@) =~= bad_uia_classes());
    v
}

impl Arbitrator {
    /// Builds an arbitrator whose bad-class list is the built-in one and whose
    /// good-class list is the built-in one followed by `extra_good`.
    pub fn new(extra_good: &[&str]) -> (s: Self)
        ensures
            s@.good == good_uia_classes() + extra_good@.map_values(|e: &str| e@),
            s@.bad == bad_uia_classes(),
            s@.cache == Map::<isize, (bool, u64)>::empty(),
            s@.forced is None,
    {
        let mut good_classes = default_good_classes();
        let ghost base = good_classes@;
        let mut i: usize = 0;
        while i < extra_good.len()
            invariant
                i <= extra_good@.len(),
                strings_view(base) == good_uia_classes(),
                good_classes@ == base + good_classes@.subrange(base.len() as int, good_classes@.len() as int),
                strings_view(good_classes@) == good_uia_classes() + extra_good@.subrange(0, i as int).map_values(|e: &str| e@),
            decreases extra_good.len() - i,
        {
            let extra: &str = extra_good[i];
            let ghost prev = good_classes@;
            let owned_extra = extra.to_owned();
            good_classes.push(owned_extra);
            assert(strings_view(good_classes@) =~= strings_view(prev).push(extra@));
            assert(extra_good@.subrange(0, i + 1) =~= extra_good@.subrange(0, i as int).push(extra));
            assert(extra_good@.subrange(0, i + 1).map_values(|e: &str| e@) =~= extra_good@.subrange(
                0,
                i as int,
            ).map_values(|e: &str| e@).push(extra@));
            assert(strings_view(good_classes@) =~= good_uia_classes() + extra_good@.subrange(0, i + 1).map_values(|e: &str| e@));
            i = i + 1;
        }
        assert(extra_good@.subrange(0, extra_good@.len() as int) =~= extra_good@);
        let s = Arbitrator {
            good_classes,
            bad_classes: default_bad_classes(),
            cache: HashMap::new(),
            forced: None,
            origin: monotonic_now(),
        };
        assert(s@.cache =~= Map::<isize, (bool, u64)>::empty());
        s
    }

    /// Milliseconds since this arbitrator was created, saturating at
    /// `u64::MAX`.
    fn now(&self) -> u64 {
        saturate_u64(millis_since(&self.origin))
    }

    /// Sets a forced backend: `Some(true)` forces UIA for every window,
    /// `Some(false)` forces MSAA, `None` restores normal arbitration.
    pub fn set_forced(&mut self, forced: Option<bool>)
        ensures
            final(self)@ == (ArbitratorView { forced, ..old(self)@ }),
    {
        self.forced = forced;
    }

    /// Records a probe result for `hwnd` at the reading `now`.
    pub fn record_probe_at(&mut self, hwnd: isize, is_uia: bool, now: u64)
        ensures
            final(self)@ == old(self)@.with_record(hwnd, is_uia, now),
    {
        self.cache.insert(hwnd, (is_uia, now));
    }

    /// Records a probe result for `hwnd`, stamped with the current reading of
    /// the monotonic clock.
    pub fn record_probe(&mut self, hwnd: isize, is_uia: bool)
        ensures
            exists|now: u64| final(self)@ == old(self)@.with_record(hwnd, is_uia, now),
    {
        let now = self.now();
        self.record_probe_at(hwnd, is_uia, now);
    }

    fn classify(&self, class_name: &str) -> (r: ClassVerdict)
        ensures
            r == classify_spec(self@.good, self@.bad, class_name@),
    {
        let class = class_name.to_owned();
        if list_contains(&self.good_classes, &class) {
            ClassVerdict::Uia
        } else if list_contains(&self.bad_classes, &class) {
            ClassVerdict::NonUia
        } else {
            ClassVerdict::Unknown
        }
    }

    /// The cached probe verdict for `hwnd` at `now`, if one is fresh.
    pub fn cached_probe(&self, hwnd: isize, now: u64) -> (r: Option<bool>)
        ensures
            r == cached_verdict(self@.cache, hwnd, now),
    {
        match self.cache.get(&hwnd) {
            Some(entry) => {
                let (verdict, at) = *entry;
                if (now as u128) < (at as u128) + (CACHE_TTL_MS as u128) {
                    Some(verdict)
                } else {
                    None
                }
            },
            None => None,
        }
    }

    /// Non-blocking verdict at the reading `now`: `Some(true)` for a UIA
    /// window, `Some(false)` for a non-UIA window, `None` when only the probe
    /// could decide and no fresh cached verdict exists.
    pub fn verdict_at(&self, hwnd: isize, class_name: &str, now: u64) -> (r: Option<bool>)
        ensures
            r == self@.decided(hwnd, class_name@, now),
    {
        if self.forced.is_some() {
            return self.forced;
        }
        match self.classify(class_name) {
            ClassVerdict::Uia => Some(true),
            ClassVerdict::NonUia => Some(false),
            ClassVerdict::Unknown => self.cached_probe(hwnd, now),
        }
    }

    /// Non-blocking verdict for event delivery at the current clock reading.
    /// On `None` the caller treats the window as non-UIA provisionally and
    /// schedules a probe.
    pub fn verdict(&self, hwnd: isize, class_name: &str) -> (r: Option<bool>)
        ensures
            exists|now: u64| r == self@.decided(hwnd, class_name@, now),
    {
        let now = self.now();
        self.verdict_at(hwnd, class_name, now)
    }

    /// Resolves a window's backend at the reading `now`, calling `probe` only
    /// when neither the forced backend, the class lists, nor a fresh cached
    /// verdict decides. A probe that answers `None` (it missed its deadline)
    /// is cached as non-UIA and flagged as timed out. The verdict is recorded
    /// at the reading `clock` gives once the probe has answered.
    pub fn resolve_at<P, C>(&mut self, hwnd: isize, class_name: &str, now: u64, probe: P, clock: C) -> (r: Resolution)
        where
            P: FnOnce(isize) -> Option<bool>,
            C: FnOnce() -> u64,
        requires
            probe.requires((hwnd,)),
            clock.requires(()),
        ensures
            old(self)@.decided(hwnd, class_name@, now) is Some ==> old(self)@.resolves(
                final(self)@,
                hwnd,
                class_name@,
                now,
                now,
                None,
                r,
            ),
            old(self)@.decided(hwnd, class_name@, now) is None ==> exists|answer: Option<bool>, stamped: u64|
                probe.ensures((hwnd,), answer) && clock.ensures((), stamped) && old(self)@.resolves(
                    final(self)@,
                    hwnd,
                    class_name@,
                    now,
                    stamped,
                    answer,
                    r,
                ),
    {
        if let Some(forced) = self.forced {
            return Resolution { is_uia: forced, probe_timed_out: false };
        }
        match self.classify(class_name) {
            ClassVerdict::Uia => Resolution { is_uia: true, probe_timed_out: false },
            ClassVerdict::NonUia => Resolution { is_uia: false, probe_timed_out: false },
            ClassVerdict::Unknown => {
                if let Some(cached) = self.cached_probe(hwnd, now) {
                    return Resolution { is_uia: cached, probe_timed_out: false };
                }
                let answer = probe(hwnd);
                let (is_uia, timed_out) = match answer {
                    Some(result) => (result, false),
                    None => (false, true),
                };
                let stamped = clock();
                self.cache.insert(hwnd, (is_uia, stamped));
                let r = Resolution { is_uia, probe_timed_out: timed_out };
                assert(old(self)@.resolves(self@, hwnd, class_name@, now, stamped, answer, r));
                r
            },
        }
    }

    /// Resolves a window's backend at the current clock reading, calling
    /// `probe` only if nothing else decides, and recording its verdict at
    /// the clock reading taken once it answered (see
    /// [`Arbitrator::resolve_at`]).
    pub fn resolve_with<P>(&mut self, hwnd: isize, class_name: &str, probe: P) -> (r: Resolution)
        where
            P: FnOnce(isize) -> Option<bool>,
        requires
            probe.requires((hwnd,)),
        ensures
            exists|now: u64, stamped: u64, answer: Option<bool>|
                (old(self)@.decided(hwnd, class_name@, now) is None ==> probe.ensures((hwnd,), answer))
                && old(self)@.resolves(final(self)@, hwnd, class_name@, now, stamped, answer, r),
    {
        let now = self.now();
        let origin = self.origin;
        let r = self.resolve_at(hwnd, class_name, now, probe, move || saturate_u64(millis_since(&origin)));
        r
    }
}

/// A forced backend decides every window, whatever its class or cache.
pub proof fn law_forced_backend_decides_every_window(
    a: ArbitratorView,
    forced: bool,
    hwnd: isize,
    class: Seq<char>,
    now: u64,
)
    ensures
        (ArbitratorView { forced: Some(forced), ..a }).decided(hwnd, class, now) == Some(forced),
{
}

/// Without a forced backend, a class on the good list is UIA even when the bad
/// list names it too, and a class only on the bad list is non-UIA; neither
/// depends on the cache or the time.
pub proof fn law_class_lists_decide_before_the_cache(a: ArbitratorView, hwnd: isize, class: Seq<char>, now: u64)
    requires
        a.forced is None,
    ensures
        a.good.contains(class) ==> a.decided(hwnd, class, now) == Some(true),
        !a.good.contains(class) && a.bad.contains(class) ==> a.decided(hwnd, class, now) == Some(false),
{
}

/// A probed resolution is remembered: for a window that the forced backend,
/// the class lists and the cache leave open, every verdict within
/// [`CACHE_TTL_MS`] of the probe's answer gives back what it decided, and a
/// timed-out probe is remembered as non-UIA.
pub proof fn law_resolution_is_remembered(
    a: ArbitratorView,
    next: ArbitratorView,
    hwnd: isize,
    class: Seq<char>,
    now: u64,
    stamped: u64,
    later: u64,
    answer: Option<bool>,
    r: Resolution,
)
    requires
        a.resolves(next, hwnd, class, now, stamped, answer, r),
        a.decided(hwnd, class, now) is None,
        stamped <= later,
        later < stamped + CACHE_TTL_MS,
    ensures
        next.decided(hwnd, class, later) == Some(r.is_uia),
        r.is_uia == (answer == Some(true)),
        r.probe_timed_out ==> next.decided(hwnd, class, later) == Some(false),
{
}

/// A recorded probe result is what a verdict within [`CACHE_TTL_MS`] gives
/// back for a window that the forced backend and the class lists leave open.
pub proof fn law_recorded_probe_is_read_back(
    a: ArbitratorView,
    hwnd: isize,
    is_uia: bool,
    class: Seq<char>,
    now: u64,
    later: u64,
)
    requires
        a.forced is None,
        !a.good.contains(class),
        !a.bad.contains(class),
        now <= later,
        later < now + CACHE_TTL_MS,
    ensures
        a.with_record(hwnd, is_uia, now).decided(hwnd, class, later) == Some(is_uia),
{
}

/// Once [`CACHE_TTL_MS`] has passed since a probe was recorded, a window that
/// the forced backend and the class lists leave open needs a probe again.
pub proof fn law_recorded_probe_expires(
    a: ArbitratorView,
    hwnd: isize,
    is_uia: bool,
    class: Seq<char>,
    now: u64,
    later: u64,
)
    requires
        a.forced is None,
        !a.good.contains(class),
        !a.bad.contains(class),
        later >= now + CACHE_TTL_MS,
    ensures
        a.with_record(hwnd, is_uia, now).decided(hwnd, class, later) is None,
{
}

} // verus!
