//! Position accounting for the track that is loaded.
//!
//! The position that a listener sees is kept here, as wall-clock arithmetic:
//! the time accounted for before the running session, plus the time the
//! running session has lasted. The backend's own position counter restarts
//! whenever the decode pipeline is rebuilt, so it is never consulted.
//!
//! All times are milliseconds. Clock readings are milliseconds since an epoch
//! that the caller fixes; only differences between readings matter.
use vstd::prelude::*;

verus! {

/// Seconds moved by one forward or backward seek step.
pub const SEEK_STEP_SECS: u64 = 10;

/// The seek step in milliseconds.
pub const SEEK_STEP_MS: u64 = SEEK_STEP_SECS * 1000;

/// Clamps a millisecond count to what a `u64` can hold.
pub open spec fn saturate(ms: int) -> nat {
    if ms < 0 {
        0
    } else if ms > u64::MAX {
        u64::MAX as nat
    } else {
        ms as nat
    }
}

/// Time that passes between two clock readings; none if the clock has not
/// moved forward.
pub open spec fn time_between(from: nat, to: nat) -> nat {
    if to >= from {
        (to - from) as nat
    } else {
        0
    }
}

/// Mathematical state of a position tracker.
pub struct TrackerModel {
    /// Playback time accounted for before the running session, or the whole
    /// position while paused or stopped.
    pub accumulated: nat,
    /// Clock reading at which the running session began; `None` while paused
    /// or stopped.
    pub session_start: Option<nat>,
}

impl TrackerModel {
    /// Both times fit in a `u64`, as they do in every `PositionTracker`.
    pub open spec fn wf(self) -> bool {
        &&& self.accumulated <= u64::MAX
        &&& self.session_start matches Some(start) ==> start <= u64::MAX
    }

    /// The tracker of a track that has not been played: position 0, paused.
    pub open spec fn idle() -> TrackerModel {
        TrackerModel { accumulated: 0, session_start: None }
    }

    /// Playback is running exactly when a session start is recorded.
    pub open spec fn is_playing(self) -> bool {
        self.session_start is Some
    }

    /// How long the running session has lasted at clock reading `now`.
    pub open spec fn session_elapsed(self, now: nat) -> nat {
        match self.session_start {
            Some(start) => time_between(start, now),
            None => 0,
        }
    }

    /// The position at clock reading `now`.
    pub open spec fn position_at(self, now: nat) -> nat {
        saturate((self.accumulated + self.session_elapsed(now)) as int)
    }

    /// A session begins at `now`, unless one is running already: a running
    /// session goes on from where it began, so that no playing time is lost.
    /// The accumulated time is kept as it is.
    pub open spec fn play(self, now: nat) -> TrackerModel {
        if self.is_playing() {
            self
        } else {
            TrackerModel { accumulated: self.accumulated, session_start: Some(now) }
        }
    }

    /// The running session, if any, ends at `now` and is added to the
    /// accumulated time.
    pub open spec fn pause(self, now: nat) -> TrackerModel {
        TrackerModel { accumulated: self.position_at(now), session_start: None }
    }

    /// Back to position 0, paused.
    pub open spec fn stop(self) -> TrackerModel {
        TrackerModel::idle()
    }

    /// The position becomes `position`; a running session restarts at `now`.
    pub open spec fn seek(self, position: nat, now: nat) -> TrackerModel {
        TrackerModel {
            accumulated: position,
            session_start: if self.is_playing() {
                Some(now)
            } else {
                None
            },
        }
    }

    /// Where a forward seek step taken at `now` lands.
    pub open spec fn forward_target(self, now: nat) -> nat {
        saturate((self.position_at(now) + SEEK_STEP_MS) as int)
    }

    /// Where a backward seek step taken at `now` lands.
    pub open spec fn backward_target(self, now: nat) -> nat {
        saturate(self.position_at(now) - SEEK_STEP_MS)
    }
}

/// Accumulated time plus an optional running session.
#[derive(Clone, Copy, Debug, PartialEq, Eq)]
pub struct PositionTracker {
    accumulated_ms: u64,
    session_start: Option<u64>,
}

impl View for PositionTracker {
    type V = TrackerModel;

    closed spec fn view(&self) -> TrackerModel {
        TrackerModel {
            accumulated: self.accumulated_ms as nat,
            session_start: match self.session_start {
                Some(start) => Some(start as nat),
                None => None,
            },
        }
    }
}

impl PositionTracker {
    /// A tracker at position 0, paused.
    pub fn new() -> (tracker: PositionTracker)
        ensures
            tracker@ == TrackerModel::idle(),
    {
        PositionTracker { accumulated_ms: 0, session_start: None }
    }

    /// The time accounted for before the running session.
    pub fn accumulated_ms(&self) -> (ms: u64)
        ensures
            ms == self@.accumulated,
    {
        self.accumulated_ms
    }

    /// The clock reading at which the running session began.
    pub fn session_start(&self) -> (start: Option<u64>)
        ensures
            start is Some == self@.session_start is Some,
            start is Some ==> start->0 == self@.session_start->0,
    {
        self.session_start
    }

    /// Whether a session is running.
    pub fn is_playing(&self) -> (playing: bool)
        ensures
            playing == self@.is_playing(),
    {
        self.session_start.is_some()
    }

    /// The position at clock reading `now`.
    pub fn current_position(&self, now: u64) -> (ms: u64)
        ensures
            ms == self@.position_at(now as nat),
    {
        match self.session_start {
            Some(start) => self.accumulated_ms.saturating_add(now.saturating_sub(start)),
            None => self.accumulated_ms,
        }
    }

    /// Starts a session at `now`, unless one is running already.
    pub fn play(&mut self, now: u64)
        ensures
            final(self)@ == old(self)@.play(now as nat),
    {
        if self.session_start.is_none() {
            self.session_start = Some(now);
        }
    }

    /// Ends the running session at `now`, keeping the position reached.
    pub fn pause(&mut self, now: u64)
        ensures
            final(self)@ == old(self)@.pause(now as nat),
    {
        self.accumulated_ms = self.current_position(now);
        self.session_start = None;
    }

    /// Resets to position 0, paused.
    pub fn stop(&mut self)
        ensures
            final(self)@ == old(self)@.stop(),
    {
        self.accumulated_ms = 0;
        self.session_start = None;
    }

    /// Moves to `position_ms`; a running session restarts at `now`.
    pub fn seek(&mut self, position_ms: u64, now: u64)
        ensures
            final(self)@ == old(self)@.seek(position_ms as nat, now as nat),
    {
        self.accumulated_ms = position_ms;
        if self.session_start.is_some() {
            self.session_start = Some(now);
        }
    }

    /// The position one seek step after the position at `now`.
    pub fn forward_target(&self, now: u64) -> (ms: u64)
        ensures
            ms == self@.forward_target(now as nat),
    {
        self.current_position(now).saturating_add(SEEK_STEP_MS)
    }

    /// The position one seek step before the position at `now`, or 0 where
    /// the track has not run that long.
    pub fn backward_target(&self, now: u64) -> (ms: u64)
        ensures
            ms == self@.backward_target(now as nat),
    {
        self.current_position(now).saturating_sub(SEEK_STEP_MS)
    }
}

/// A `Play` or a `Pause`, with the clock reading at which it is handled.
pub struct Toggle {
    /// Whether the command is `Play`; it is `Pause` otherwise.
    pub play: bool,
    /// The clock reading at which the command is handled.
    pub at: nat,
}

/// The tracker after the given commands, handled in order, with no seek
/// between them.
pub open spec fn after_toggles(start: TrackerModel, toggles: Seq<Toggle>) -> TrackerModel
    decreases toggles.len(),
{
    if toggles.len() == 0 {
        start
    } else if toggles.last().play {
        after_toggles(start, toggles.drop_last()).play(toggles.last().at)
    } else {
        after_toggles(start, toggles.drop_last()).pause(toggles.last().at)
    }
}

/// The playing interval that is open after the given commands, by the reading
/// at which it began: an interval begins at a `Play` that finds playback not
/// running, and ends at the first `Pause` after that. `running` is the
/// interval that was open before the commands.
pub open spec fn open_interval(running: Option<nat>, toggles: Seq<Toggle>) -> Option<nat>
    decreases toggles.len(),
{
    if toggles.len() == 0 {
        running
    } else if toggles.last().play {
        match open_interval(running, toggles.drop_last()) {
            Some(began) => Some(began),
            None => Some(toggles.last().at),
        }
    } else {
        None
    }
}

/// Wall-clock time of all the playing intervals that the given commands have
/// ended.
pub open spec fn time_played(running: Option<nat>, toggles: Seq<Toggle>) -> nat
    decreases toggles.len(),
{
    if toggles.len() == 0 {
        0
    } else {
        time_played(running, toggles.drop_last()) + (if toggles.last().play {
            0
        } else {
            match open_interval(running, toggles.drop_last()) {
                Some(began) => time_between(began, toggles.last().at),
                None => 0,
            }
        })
    }
}

/// Time that the open playing interval, if there is one, has lasted at `now`.
pub open spec fn time_playing(interval: Option<nat>, now: nat) -> nat {
    match interval {
        Some(began) => time_between(began, now),
        None => 0,
    }
}

/// The view of every tracker is well formed.
pub proof fn lemma_tracker_wf(tracker: PositionTracker)
    ensures
        tracker@.wf(),
{
}

/// The position never runs backward while the clock runs forward: without a
/// command in between, a later reading gives a position that is no earlier.
pub proof fn lemma_position_is_monotone(tracker: TrackerModel, earlier: nat, later: nat)
    requires
        earlier <= later,
    ensures
        tracker.position_at(earlier) <= tracker.position_at(later),
{
}

/// `Pause` freezes the position where it was when the command was handled,
/// and `Play` resumes from there: neither makes the position jump.
pub proof fn lemma_pause_and_play_keep_position(
    tracker: TrackerModel,
    paused_at: nat,
    resumed_at: nat,
    now: nat,
)
    ensures
        tracker.pause(paused_at).position_at(now) == tracker.position_at(paused_at),
        tracker.pause(paused_at).play(resumed_at).position_at(resumed_at) == tracker.position_at(
            paused_at,
        ),
{
}

/// After any sequence of `Play` and `Pause` commands, with no seek between
/// them, the tracker holds its old accumulated time plus the wall-clock time
/// of all the playing intervals that have ended, and its session is the
/// playing interval that is still open. Its position at any reading is that
/// sum plus the time that the open interval has lasted. A `Play` that finds
/// playback running and a `Pause` that finds it paused change nothing.
pub proof fn lemma_toggles_accumulate(start: TrackerModel, toggles: Seq<Toggle>, now: nat)
    requires
        start.wf(),
    ensures
        after_toggles(start, toggles) == (TrackerModel {
            accumulated: saturate(
                (start.accumulated + time_played(start.session_start, toggles)) as int,
            ),
            session_start: open_interval(start.session_start, toggles),
        }),
        after_toggles(start, toggles).position_at(now) == saturate(
            (start.accumulated + time_played(start.session_start, toggles) + time_playing(
                open_interval(start.session_start, toggles),
                now,
            )) as int,
        ),
    decreases toggles.len(),
{
    if toggles.len() > 0 {
        lemma_toggles_accumulate(start, toggles.drop_last(), now);
    }
}

/// A `Play` that arrives while playback runs loses no time: playing since
/// `began`, with a second `Play` at `again` and a `Pause` at `paused_at`, the
/// whole interval from `began` to `paused_at` is counted.
pub proof fn lemma_repeated_play_loses_nothing(
    tracker: TrackerModel,
    began: nat,
    again: nat,
    paused_at: nat,
)
    requires
        tracker.session_start == Some(began),
    ensures
        tracker.play(again) == tracker,
        tracker.play(again).pause(paused_at).accumulated == saturate(
            (tracker.accumulated + time_between(began, paused_at)) as int,
        ),
{
}

/// `Stop` puts the position at 0, whatever the tracker held and whenever the
/// position is read afterwards.
pub proof fn lemma_stop_resets(tracker: TrackerModel, now: nat)
    ensures
        tracker.stop().position_at(now) == 0,
        !tracker.stop().is_playing(),
{
}

/// A seek to `target`, then `Pause`, then `Play`: from then on the position
/// is `target`, plus the time that playback ran between the seek and the
/// pause, plus the time since the `Play`. Where the `Pause` follows the seek
/// at once, that is `target` plus the time since the `Play`.
pub proof fn lemma_seek_pause_play_continues(
    tracker: TrackerModel,
    target: nat,
    sought_at: nat,
    paused_at: nat,
    resumed_at: nat,
    now: nat,
)
    ensures
        tracker.seek(target, sought_at).pause(paused_at).play(resumed_at).position_at(now)
            == saturate(
            (target + (if tracker.is_playing() {
                time_between(sought_at, paused_at)
            } else {
                0
            }) + time_between(resumed_at, now)) as int,
        ),
        tracker.seek(target, sought_at).pause(sought_at).play(resumed_at).position_at(now)
            == saturate((target + time_between(resumed_at, now)) as int),
{
}

/// A forward step and then a backward step leave the tracker playing or
/// paused as it was. The forward step reads the position at `forward_at` and
/// restarts a running session at `forward_done`; the backward step reads the
/// position at `backward_at` and restarts the session at `backward_done`.
/// Paused, the tracker is back where it was; playing, it is further by the
/// time that passed between the two steps. That is exact where the forward
/// step had room below `u64::MAX`; in every case the position is at most one
/// step below where it was and at most that time above it.
pub proof fn lemma_forward_then_backward(
    tracker: TrackerModel,
    forward_at: nat,
    forward_done: nat,
    backward_at: nat,
    backward_done: nat,
)
    requires
        tracker.wf(),
    ensures
        ({
            let before = tracker.position_at(forward_at);
            let forward = tracker.seek(tracker.forward_target(forward_at), forward_done);
            let back = forward.seek(forward.backward_target(backward_at), backward_done);
            let between = if tracker.is_playing() {
                time_between(forward_done, backward_at)
            } else {
                0
            };
            &&& back.is_playing() == tracker.is_playing()
            &&& before + SEEK_STEP_MS + between <= u64::MAX ==> back.position_at(backward_done)
                == before + between
            &&& before - SEEK_STEP_MS <= back.position_at(backward_done) <= before + between
        }),
{
}

/// A backward step followed at once by a forward step leaves the tracker at
/// its old position where the backward step had room, and otherwise exactly
/// one step after 0.
pub proof fn lemma_backward_then_forward(tracker: TrackerModel, now: nat)
    requires
        tracker.wf(),
    ensures
        ({
            let before = tracker.position_at(now);
            let back = tracker.seek(tracker.backward_target(now), now);
            let forward = back.seek(back.forward_target(now), now);
            &&& forward.is_playing() == tracker.is_playing()
            &&& before >= SEEK_STEP_MS ==> forward.position_at(now) == before
            &&& before < SEEK_STEP_MS ==> forward.position_at(now) == SEEK_STEP_MS
        }),
{
}

/// A backward step from less than one step into the track lands on 0; from
/// further in, exactly one step earlier.
pub proof fn lemma_backward_saturates(tracker: TrackerModel, now: nat)
    ensures
        tracker.position_at(now) <= SEEK_STEP_MS ==> tracker.backward_target(now) == 0,
        tracker.position_at(now) >= SEEK_STEP_MS ==> tracker.backward_target(now)
            == tracker.position_at(now) - SEEK_STEP_MS,
{
}

} // verus!
