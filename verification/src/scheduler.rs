//! The refresh state machine.
//!
//! The scheduler decides; the loop around it acts. On every pass the loop
//! hands over what happened (a tick of the clock, the outcome of a fetch, a
//! request to quit) and is told what to do next. The scheduler never waits
//! and never reads a clock: `now` comes with every event.

use crate::error::FormatError;
use crate::model::{ReadingView, Snapshot};
use crate::rows::{display_rows, row_views, rows_of, DisplayRow, RowView};
use vstd::prelude::*;

verus! {

/// Seconds between two fetch attempts, failed or not.
pub const REFRESH_INTERVAL: i64 = 60;

/// Why a poll gave no snapshot.
#[derive(Clone, Copy, Debug, PartialEq, Eq, Structural)]
pub enum FetchError {
    /// The transport failed: no connection, a bad status, no JSON body.
    Transport,
    /// The payload was fetched and then refused by the adapter.
    Format(FormatError),
}

/// Where the scheduler stands.
#[derive(Clone, Copy, Debug, PartialEq, Eq, Structural)]
pub enum Phase {
    /// Waiting for the next fetch to fall due.
    Idle,
    /// A fetch was asked for and its outcome is awaited.
    Fetching,
    /// Quit was requested. Nothing follows.
    Stopped,
}

/// What the loop reports.
#[derive(Debug, PartialEq, Eq)]
pub enum Event {
    /// A pass of the loop with nothing else to report.
    Tick,
    /// The fetch that was asked for has ended.
    Fetched(Result<Snapshot, FetchError>),
    /// The quit key was pressed.
    Quit,
}

/// What an event holds, as mathematics.
pub ghost enum EventView {
    Tick,
    Fetched(Result<Seq<ReadingView>, FetchError>),
    Quit,
}

impl View for Event {
    type V = EventView;

    open spec fn view(&self) -> EventView {
        match self {
            Event::Tick => EventView::Tick,
            Event::Fetched(Ok(snapshot)) => EventView::Fetched(Ok(snapshot@)),
            Event::Fetched(Err(error)) => EventView::Fetched(Err(*error)),
            Event::Quit => EventView::Quit,
        }
    }
}

/// What the loop is to do next.
#[derive(Clone, Copy, Debug, PartialEq, Eq, Structural)]
pub enum Action {
    /// Fetch and normalise a payload, then report the outcome.
    Fetch,
    /// Hand the current frame to the presentation sink.
    Render,
    /// Leave the loop.
    Halt,
}

/// The scheduler's state: the last good snapshot, the instant of the last
/// attempt, whether that attempt failed, and the phase.
#[derive(Debug, PartialEq, Eq)]
pub struct SchedulerState {
    last_snapshot: Snapshot,
    last_refresh_at: i64,
    fault: bool,
    phase: Phase,
}

/// What the scheduler's state holds, as mathematics.
pub ghost struct SchedulerView {
    pub last_snapshot: Seq<ReadingView>,
    pub last_refresh_at: i64,
    pub fault: bool,
    pub phase: Phase,
}

/// What the presentation sink receives: the rows of the last good snapshot,
/// and whether the most recent attempt failed.
#[derive(Debug, PartialEq, Eq)]
pub struct Frame {
    pub rows: Vec<DisplayRow>,
    pub network_fault: bool,
}

/// What a frame holds, as mathematics.
pub ghost struct FrameView {
    pub rows: Seq<RowView>,
    pub network_fault: bool,
}

impl View for Frame {
    type V = FrameView;

    open spec fn view(&self) -> FrameView {
        FrameView { rows: row_views(self.rows@), network_fault: self.network_fault }
    }
}

/// The state before the first fetch, for a loop that starts at `now`: no
/// readings, no fault, and a last attempt one interval ago (or as long ago
/// as a clock can tell).
pub open spec fn initial(now: i64) -> SchedulerView {
    SchedulerView {
        last_snapshot: Seq::empty(),
        last_refresh_at: if now - REFRESH_INTERVAL >= i64::MIN {
            (now - REFRESH_INTERVAL) as i64
        } else {
            i64::MIN
        },
        fault: false,
        phase: Phase::Idle,
    }
}

/// A fetch is due once a whole interval has passed since the last attempt.
pub open spec fn due(state: SchedulerView, now: i64) -> bool {
    now - state.last_refresh_at >= REFRESH_INTERVAL
}

/// The state after an event.
///
/// Once stopped, the scheduler stays stopped. Quit stops it from any other
/// phase. While idle, a tick starts a fetch if one is due; the outcome of a
/// fetch that was never asked for is ignored. While fetching, the outcome
/// ends the fetch: a snapshot replaces the last one and clears the fault, a
/// failure keeps the last one and raises the fault, and either way the
/// attempt counts from `now`.
pub open spec fn next_state(state: SchedulerView, event: EventView, now: i64) -> SchedulerView {
    match (state.phase, event) {
        (Phase::Stopped, _) => state,
        (_, EventView::Quit) => SchedulerView { phase: Phase::Stopped, ..state },
        (Phase::Idle, EventView::Tick) => if due(state, now) {
            SchedulerView { phase: Phase::Fetching, ..state }
        } else {
            state
        },
        (Phase::Idle, EventView::Fetched(_)) => state,
        (Phase::Fetching, EventView::Tick) => state,
        (Phase::Fetching, EventView::Fetched(Ok(readings))) => SchedulerView {
            last_snapshot: readings,
            last_refresh_at: now,
            fault: false,
            phase: Phase::Idle,
        },
        (Phase::Fetching, EventView::Fetched(Err(_))) => SchedulerView {
            last_snapshot: state.last_snapshot,
            last_refresh_at: now,
            fault: true,
            phase: Phase::Idle,
        },
    }
}

/// What the loop is told after an event: to halt once stopped, to fetch
/// when a fetch has just begun, and to render in every other case.
pub open spec fn next_action(state: SchedulerView, event: EventView, now: i64) -> Action {
    match next_state(state, event, now).phase {
        Phase::Stopped => Action::Halt,
        Phase::Fetching => if state.phase == Phase::Idle {
            Action::Fetch
        } else {
            Action::Render
        },
        Phase::Idle => Action::Render,
    }
}

/// The frame shown for a state at `now`.
pub open spec fn frame_of(state: SchedulerView, now: i64) -> FrameView {
    FrameView { rows: rows_of(state.last_snapshot, now), network_fault: state.fault }
}

impl View for SchedulerState {
    type V = SchedulerView;

    closed spec fn view(&self) -> SchedulerView {
        SchedulerView {
            last_snapshot: self.last_snapshot@,
            last_refresh_at: self.last_refresh_at,
            fault: self.fault,
            phase: self.phase,
        }
    }
}

impl SchedulerState {
    /// The state of a loop that starts at `now`.
    pub fn new(now: i64) -> (state: SchedulerState)
        ensures
            state@ == initial(now),
    {
        let last_refresh_at: i64 = if now >= i64::MIN + REFRESH_INTERVAL {
            now - REFRESH_INTERVAL
        } else {
            i64::MIN
        };
        SchedulerState {
            last_snapshot: Snapshot::empty(),
            last_refresh_at,
            fault: false,
            phase: Phase::Idle,
        }
    }

    /// The last good snapshot.
    pub fn last_snapshot(&self) -> (snapshot: &Snapshot)
        ensures
            snapshot@ == self@.last_snapshot,
    {
        &self.last_snapshot
    }

    /// The instant of the last attempt.
    pub fn last_refresh_at(&self) -> (at: i64)
        ensures
            at == self@.last_refresh_at,
    {
        self.last_refresh_at
    }

    /// Whether the most recent attempt failed.
    pub fn fault(&self) -> (fault: bool)
        ensures
            fault == self@.fault,
    {
        self.fault
    }

    /// The phase.
    pub fn phase(&self) -> (phase: Phase)
        ensures
            phase == self@.phase,
    {
        self.phase
    }

    /// Whether a fetch is due at `now`.
    pub fn is_due(&self, now: i64) -> (is_due: bool)
        ensures
            is_due == due(self@, now),
    {
        now as i128 - self.last_refresh_at as i128 >= REFRESH_INTERVAL as i128
    }

    /// Takes an event in and says what to do next.
    pub fn step(&mut self, event: Event, now: i64) -> (action: Action)
        ensures
            final(self)@ == next_state(old(self)@, event@, now),
            action == next_action(old(self)@, event@, now),
    {
        match self.phase {
            Phase::Stopped => Action::Halt,
            Phase::Idle => match event {
                Event::Quit => {
                    self.phase = Phase::Stopped;
                    Action::Halt
                },
                Event::Tick => {
                    if self.is_due(now) {
                        self.phase = Phase::Fetching;
                        Action::Fetch
                    } else {
                        Action::Render
                    }
                },
                Event::Fetched(_) => Action::Render,
            },
            Phase::Fetching => match event {
                Event::Quit => {
                    self.phase = Phase::Stopped;
                    Action::Halt
                },
                Event::Tick => Action::Render,
                Event::Fetched(Ok(snapshot)) => {
                    self.last_snapshot = snapshot;
                    self.last_refresh_at = now;
                    self.fault = false;
                    self.phase = Phase::Idle;
                    Action::Render
                },
                Event::Fetched(Err(_)) => {
                    self.last_refresh_at = now;
                    self.fault = true;
                    self.phase = Phase::Idle;
                    Action::Render
                },
            },
        }
    }

    /// The frame for the presentation sink at `now`.
    pub fn frame(&self, now: i64) -> (frame: Frame)
        ensures
            frame@ == frame_of(self@, now),
    {
        Frame { rows: display_rows(&self.last_snapshot, now), network_fault: self.fault }
    }
}

/// A loop that starts late enough for the clock to tell one interval back
/// fetches on its first tick.
pub proof fn lemma_first_tick_fetches(now: i64)
    requires
        now - REFRESH_INTERVAL >= i64::MIN,
    ensures
        next_state(initial(now), EventView::Tick, now).phase == Phase::Fetching,
        next_action(initial(now), EventView::Tick, now) == Action::Fetch,
{
}

/// A failed fetch keeps the display: the sink still receives the rows of the
/// last good snapshot, now with the fault raised.
pub proof fn lemma_failure_keeps_rows(
    state: SchedulerView,
    error: FetchError,
    failed_at: i64,
    shown_at: i64,
)
    requires
        state.phase == Phase::Fetching,
    ensures
        ({
            let after = next_state(state, EventView::Fetched(Err(error)), failed_at);
            &&& after.last_snapshot == state.last_snapshot
            &&& frame_of(after, shown_at).rows == frame_of(state, shown_at).rows
            &&& frame_of(after, shown_at).network_fault
            &&& next_action(state, EventView::Fetched(Err(error)), failed_at) == Action::Render
        }),
{
}

/// A fetched snapshot replaces the last one whole and clears the fault.
pub proof fn lemma_success_replaces(
    state: SchedulerView,
    readings: Seq<ReadingView>,
    fetched_at: i64,
    shown_at: i64,
)
    requires
        state.phase == Phase::Fetching,
    ensures
        ({
            let after = next_state(state, EventView::Fetched(Ok(readings)), fetched_at);
            &&& after.last_snapshot == readings
            &&& frame_of(after, shown_at).rows == rows_of(readings, shown_at)
            &&& !frame_of(after, shown_at).network_fault
        }),
{
}

/// After an attempt, failed or not, the next fetch waits a whole interval:
/// a tick starts one exactly when sixty seconds have passed.
pub proof fn lemma_attempts_are_paced(
    state: SchedulerView,
    outcome: Result<Seq<ReadingView>, FetchError>,
    ended_at: i64,
    tick_at: i64,
)
    requires
        state.phase == Phase::Fetching,
    ensures
        ({
            let after = next_state(state, EventView::Fetched(outcome), ended_at);
            &&& after.phase == Phase::Idle
            &&& after.last_refresh_at == ended_at
            &&& next_action(after, EventView::Tick, tick_at) == Action::Fetch <==> tick_at
                - ended_at >= REFRESH_INTERVAL
        }),
{
}

/// Quit stops the scheduler from any phase, and nothing restarts it.
pub proof fn lemma_quit_is_final(state: SchedulerView, event: EventView, now: i64, later: i64)
    ensures
        next_state(state, EventView::Quit, now).phase == Phase::Stopped,
        next_action(state, EventView::Quit, now) == Action::Halt,
        next_state(next_state(state, EventView::Quit, now), event, later) == next_state(
            state,
            EventView::Quit,
            now,
        ),
        next_action(next_state(state, EventView::Quit, now), event, later) == Action::Halt,
{
}

/// Only the outcome of a fetch changes what is displayed: a tick or a quit
/// leaves the snapshot and the fault as they were.
pub proof fn lemma_display_changes_only_on_outcome(state: SchedulerView, now: i64)
    ensures
        next_state(state, EventView::Tick, now).last_snapshot == state.last_snapshot,
        next_state(state, EventView::Tick, now).fault == state.fault,
        next_state(state, EventView::Quit, now).last_snapshot == state.last_snapshot,
        next_state(state, EventView::Quit, now).fault == state.fault,
{
}

} // verus!
