//! The trigger filter: from raw file-system events to coalesced triggers.
//!
//! Only events that report changed content qualify. The first qualifying
//! event opens a burst; every further one that arrives before the quiet
//! window has run out joins the burst and restarts the window. The burst
//! becomes a trigger once a whole window has passed since its last event.
//! Time is a count of milliseconds on a clock of the caller's choosing.

use vstd::prelude::*;

verus! {

/// The quiet window, in milliseconds, for callers that have no preference.
pub const DEFAULT_WINDOW_MS: u64 = 1000;

/// What a raw event reports.
#[derive(Clone, Copy, Debug, PartialEq, Eq, Structural)]
pub enum EventKind {
    /// Something was created.
    Create,
    /// Content or metadata of something changed.
    Modify,
    /// Something was removed.
    Remove,
    /// Anything else.
    Other,
}

/// A change notification as the watch source hands it over.
#[derive(Debug)]
pub struct RawEvent {
    /// The path that the notification is about.
    pub path: String,
    /// What happened there.
    pub kind: EventKind,
    /// When the notification was raised.
    pub timestamp: u64,
}

/// Whether the filter has a burst open.
#[derive(Clone, Copy, Debug, PartialEq, Eq, Structural)]
pub enum Burst {
    /// No qualifying event is waiting to become a trigger.
    Idle,
    /// A burst is open; its latest qualifying event was raised at `last`.
    Pending { last: u64 },
}

/// One thing that the filter is told: that an event was raised at `at`,
/// qualifying or not, or, with `qualifying` false, that the clock read `at`
/// while nothing was happening.
pub struct Moment {
    pub at: u64,
    pub qualifying: bool,
}

/// Only changed content counts; creations, removals and the rest do not.
pub open spec fn qualifies(kind: EventKind) -> bool {
    kind == EventKind::Modify
}

/// What the filter makes of a raw event: its time and whether it qualifies.
pub open spec fn moment_of(event: RawEvent) -> Moment {
    Moment { at: event.timestamp, qualifying: qualifies(event.kind) }
}

/// What the filter makes of a look at the clock.
pub open spec fn quiet_at(now: u64) -> Moment {
    Moment { at: now, qualifying: false }
}

/// An open burst has been quiet for a whole window at time `at`.
pub open spec fn closes(window: u64, burst: Burst, at: u64) -> bool {
    burst matches Burst::Pending { last } && last + window <= at
}

/// The burst after one moment. A qualifying event opens a burst, or joins
/// the open one and restarts its window; if the open one had already run out
/// it closes first and the event opens the next. Anything else leaves the
/// burst alone unless it has run out.
pub open spec fn step(window: u64, burst: Burst, moment: Moment) -> Burst {
    if moment.qualifying {
        Burst::Pending { last: moment.at }
    } else if closes(window, burst, moment.at) {
        Burst::Idle
    } else {
        burst
    }
}

/// The filter's burst after a sequence of moments, taken in order from
/// `start`, and the number of triggers that they set off.
pub open spec fn run(window: u64, start: Burst, moments: Seq<Moment>) -> (Burst, nat)
    decreases moments.len(),
{
    if moments.len() == 0 {
        (start, 0)
    } else {
        let (burst, fired) = run(window, start, moments.drop_last());
        let moment = moments.last();
        (
            step(window, burst, moment),
            if closes(window, burst, moment.at) {
                fired + 1
            } else {
                fired
            },
        )
    }
}

/// How long, from `now`, until the open burst runs out: nothing to wait for
/// when idle, zero when it already has, and never more than a `u64` holds.
pub open spec fn remaining(window: u64, burst: Burst, now: u64) -> Option<u64> {
    match burst {
        Burst::Idle => None,
        Burst::Pending { last } => Some(
            if last + window <= now {
                0
            } else if last + window - now > u64::MAX {
                u64::MAX
            } else {
                (last + window - now) as u64
            },
        ),
    }
}

/// The trigger filter. It holds the quiet window and the open burst, if any.
#[derive(Clone, Copy, Debug)]
pub struct TriggerFilter {
    window: u64,
    burst: Burst,
}

impl TriggerFilter {
    /// The quiet window in milliseconds.
    pub closed spec fn window(&self) -> u64 {
        self.window
    }

    /// The open burst, if any.
    pub closed spec fn burst(&self) -> Burst {
        self.burst
    }

    /// An idle filter with the given quiet window.
    pub fn new(window: u64) -> (filter: TriggerFilter)
        ensures
            filter.window() == window,
            filter.burst() == Burst::Idle,
    {
        TriggerFilter { window, burst: Burst::Idle }
    }

    /// The quiet window in milliseconds.
    pub fn window_ms(&self) -> (window: u64)
        ensures
            window == self.window(),
    {
        self.window
    }

    /// Whether a burst is open.
    pub fn is_pending(&self) -> (pending: bool)
        ensures
            pending == (self.burst() is Pending),
    {
        match self.burst {
            Burst::Pending { .. } => true,
            Burst::Idle => false,
        }
    }

    fn closes_at(&self, at: u64) -> (closed: bool)
        ensures
            closed == closes(self.window, self.burst, at),
    {
        match self.burst {
            Burst::Idle => false,
            Burst::Pending { last } => at >= last && at - last >= self.window,
        }
    }

    /// Takes in one raw event. Returns whether it set off a trigger, which
    /// it does when it shows that the open burst had already run out.
    pub fn observe(&mut self, event: &RawEvent) -> (fired: bool)
        ensures
            final(self).window() == old(self).window(),
            final(self).burst() == step(old(self).window(), old(self).burst(), moment_of(*event)),
            fired == closes(old(self).window(), old(self).burst(), event.timestamp),
    {
        let fired = self.closes_at(event.timestamp);
        match event.kind {
            EventKind::Modify => {
                self.burst = Burst::Pending { last: event.timestamp };
            },
            _ => {
                if fired {
                    self.burst = Burst::Idle;
                }
            },
        }
        fired
    }

    /// Looks at the clock while nothing is happening. Returns whether the
    /// open burst has run out and so becomes a trigger.
    pub fn poll(&mut self, now: u64) -> (fired: bool)
        ensures
            final(self).window() == old(self).window(),
            final(self).burst() == step(old(self).window(), old(self).burst(), quiet_at(now)),
            fired == closes(old(self).window(), old(self).burst(), now),
    {
        let fired = self.closes_at(now);
        if fired {
            self.burst = Burst::Idle;
        }
        fired
    }

    /// Ends the stream of events: an open burst becomes a trigger at once.
    pub fn flush(&mut self) -> (fired: bool)
        ensures
            final(self).window() == old(self).window(),
            final(self).burst() == Burst::Idle,
            fired == (old(self).burst() is Pending),
    {
        let fired = self.is_pending();
        self.burst = Burst::Idle;
        fired
    }

    /// How long to wait, from `now`, before the open burst runs out; `None`
    /// when there is none, so that the next event may take as long as it
    /// likes.
    pub fn time_left(&self, now: u64) -> (left: Option<u64>)
        ensures
            left == remaining(self.window(), self.burst(), now),
    {
        match self.burst {
            Burst::Idle => None,
            Burst::Pending { last } => {
                if now >= last {
                    let waited: u64 = now - last;
                    if waited >= self.window {
                        Some(0)
                    } else {
                        Some(self.window - waited)
                    }
                } else {
                    let ahead: u64 = last - now;
                    Some(self.window.saturating_add(ahead))
                }
            },
        }
    }
}

/// Moments that do not qualify never set off a trigger: from idle, any
/// sequence of creations, removals, other events and looks at the clock
/// leaves the filter idle and yields no trigger at all.
pub proof fn lemma_unqualified_yield_nothing(window: u64, moments: Seq<Moment>)
    requires
        forall|i: int| 0 <= i < moments.len() ==> !(#[trigger] moments[i]).qualifying,
    ensures
        run(window, Burst::Idle, moments) == (Burst::Idle, 0nat),
    decreases moments.len(),
{
    if moments.len() > 0 {
        let front = moments.drop_last();
        assert forall|i: int| 0 <= i < front.len() implies !(#[trigger] front[i]).qualifying by {
            assert(front[i] == moments[i]);
        }
        lemma_unqualified_yield_nothing(window, front);
    }
}

/// While a burst lasts nothing is triggered: from idle, a run of qualifying
/// events, each raised before the window of the one before it has run out,
/// sets off no trigger and leaves the burst open at its last event.
pub proof fn lemma_burst_stays_open(window: u64, moments: Seq<Moment>)
    requires
        moments.len() >= 1,
        forall|i: int| 0 <= i < moments.len() ==> (#[trigger] moments[i]).qualifying,
        forall|i: int|
            0 < i < moments.len() ==> (#[trigger] moments[i]).at < moments[i - 1].at + window,
    ensures
        run(window, Burst::Idle, moments) == (Burst::Pending { last: moments.last().at }, 0nat),
    decreases moments.len(),
{
    let front = moments.drop_last();
    if front.len() == 0 {
        assert(run(window, Burst::Idle, front) == (Burst::Idle, 0nat));
    } else {
        assert forall|i: int| 0 <= i < front.len() implies (#[trigger] front[i]).qualifying by {
            assert(front[i] == moments[i]);
        }
        assert forall|i: int| 0 < i < front.len() implies (#[trigger] front[i]).at < front[i
            - 1].at + window by {
            assert(front[i] == moments[i]);
            assert(front[i - 1] == moments[i - 1]);
        }
        lemma_burst_stays_open(window, front);
        let n = moments.len() as int;
        assert(front.last() == moments[n - 2]);
        assert(moments[n - 1].at < moments[n - 2].at + window);
    }
}

/// A burst collapses into one trigger: from idle, a run of qualifying
/// events, each raised before the window of the one before it has run out,
/// followed by a look at the clock once the last window has run out, yields
/// exactly one trigger and leaves the filter idle.
pub proof fn lemma_burst_yields_one_trigger(window: u64, moments: Seq<Moment>, now: u64)
    requires
        moments.len() >= 1,
        forall|i: int| 0 <= i < moments.len() ==> (#[trigger] moments[i]).qualifying,
        forall|i: int|
            0 < i < moments.len() ==> (#[trigger] moments[i]).at < moments[i - 1].at + window,
        moments.last().at + window <= now,
    ensures
        run(window, Burst::Idle, moments.push(quiet_at(now))) == (Burst::Idle, 1nat),
{
    lemma_burst_stays_open(window, moments);
    let all = moments.push(quiet_at(now));
    assert(all.drop_last() == moments);
    assert(all.last() == quiet_at(now));
}

} // verus!
