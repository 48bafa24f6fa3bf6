//! What holds of the engine over whole command sequences.
//!
//! Every statement here is about [`EngineModel::step`], the function that
//! [`Engine::handle`](crate::engine::Engine::handle) is proved to follow, so
//! each one holds of the running engine for whatever the clock and the
//! backend answer.
use crate::backend::BackendCall;
use crate::backend::Track;
use crate::command::AudioCommand;
use crate::engine::EngineModel;
use crate::engine::MediaModel;
use crate::engine::Event;
use crate::engine::Observed;
use crate::error::ErrorKind;
use crate::position::after_toggles;
use crate::position::lemma_toggles_accumulate;
use crate::position::open_interval;
use crate::position::saturate;
use crate::position::time_between;
use crate::position::time_played;
use crate::position::time_playing;
use crate::position::Toggle;
use crate::position::TrackerModel;
use crate::position::SEEK_STEP_MS;
use std::time::Duration;
use vstd::prelude::*;

verus! {

/// What the outside world answers when the clock reads `now` throughout and
/// the backend accepts a seek.
pub open spec fn at(now: nat) -> Observed {
    Observed { before: now, after: now, seek_ok: true }
}

/// The command that a toggle stands for.
pub open spec fn command_of(toggle: Toggle) -> AudioCommand {
    if toggle.play {
        AudioCommand::Play
    } else {
        AudioCommand::Pause
    }
}

/// The engine after the given `Play` and `Pause` commands, each handled at
/// its clock reading.
pub open spec fn engine_after_toggles(start: EngineModel, toggles: Seq<Toggle>) -> EngineModel
    decreases toggles.len(),
{
    if toggles.len() == 0 {
        start
    } else {
        engine_after_toggles(start, toggles.drop_last()).step(
            command_of(toggles.last()),
            MediaModel::Unread,
            at(toggles.last().at),
        )
    }
}

/// A running engine that handles any sequence of `Play` and `Pause` commands,
/// with no seek between them, stays on its track, and its position is its
/// old accumulated time, plus the wall-clock time of all the playing
/// intervals that have ended, plus the time that the open one has lasted. A
/// `Play` that arrives while playback runs loses no time.
pub proof fn lemma_play_pause_accumulate(start: EngineModel, toggles: Seq<Toggle>, now: nat)
    requires
        !start.terminated,
        start.tracker.wf(),
    ensures
        engine_after_toggles(start, toggles).tracker == after_toggles(start.tracker, toggles),
        engine_after_toggles(start, toggles).track_path == start.track_path,
        !engine_after_toggles(start, toggles).terminated,
        engine_after_toggles(start, toggles).tracker.position_at(now) == saturate(
            (start.tracker.accumulated + time_played(start.tracker.session_start, toggles)
                + time_playing(open_interval(start.tracker.session_start, toggles), now)) as int,
        ),
    decreases toggles.len(),
{
    lemma_toggles_accumulate(start.tracker, toggles, now);
    if toggles.len() > 0 {
        lemma_play_pause_accumulate(start, toggles.drop_last(), now);
    }
}

/// Playing since `began`, a second `Play` at `again` and a `Pause` at
/// `paused_at` leave the engine paused with the whole interval from `began`
/// to `paused_at` counted.
pub proof fn lemma_repeated_play_loses_nothing(
    engine: EngineModel,
    began: nat,
    again: nat,
    paused_at: nat,
)
    requires
        !engine.terminated,
        engine.tracker.session_start == Some(began),
    ensures
        engine.step(AudioCommand::Play, MediaModel::Unread, at(again)).tracker == engine.tracker,
        engine.step(AudioCommand::Play, MediaModel::Unread, at(again)).step(
            AudioCommand::Pause,
            MediaModel::Unread,
            at(paused_at),
        ).tracker == (TrackerModel {
            accumulated: saturate(
                (engine.tracker.accumulated + time_between(began, paused_at)) as int,
            ),
            session_start: None,
        }),
{
}

/// `Stop` puts a running engine at position 0, not playing, whatever it held
/// before and whenever the position is read afterwards.
pub proof fn lemma_stop_resets(
    engine: EngineModel,
    media: MediaModel,
    obs: Observed,
    now: nat,
)
    requires
        !engine.terminated,
    ensures
        engine.step(AudioCommand::Stop, media, obs).tracker.position_at(now) == 0,
        !engine.step(AudioCommand::Stop, media, obs).tracker.is_playing(),
        engine.step(AudioCommand::Stop, media, obs).track_path == engine.track_path,
{
}

/// An accepted `SeekTo`, then `Pause`, then `Play`: from then on the position
/// is the seek's target in whole milliseconds, plus the time that playback ran between the seek and
/// the pause, plus the time since the `Play`. Where the `Pause` follows the
/// seek at once, that is the target plus the time since the `Play`.
pub proof fn lemma_seek_pause_play(
    engine: EngineModel,
    position: Duration,
    sought_at: nat,
    paused_at: nat,
    resumed_at: nat,
    now: nat,
)
    requires
        !engine.terminated,
    ensures
        engine.step(AudioCommand::SeekTo(position), MediaModel::Unread, at(sought_at)).step(
            AudioCommand::Pause,
            MediaModel::Unread,
            at(paused_at),
        ).step(AudioCommand::Play, MediaModel::Unread, at(resumed_at)).tracker.position_at(now) == saturate(
            (EngineModel::seek_target(position) + (if engine.tracker.is_playing() {
                time_between(sought_at, paused_at)
            } else {
                0
            }) + time_between(resumed_at, now)) as int,
        ),
        engine.step(AudioCommand::SeekTo(position), MediaModel::Unread, at(sought_at)).step(
            AudioCommand::Pause,
            MediaModel::Unread,
            at(sought_at),
        ).step(AudioCommand::Play, MediaModel::Unread, at(resumed_at)).tracker.position_at(now) == saturate(
            (EngineModel::seek_target(position) + time_between(resumed_at, now)) as int,
        ),
{
}

/// What the outside world answers when the clock reads `before` and then
/// `after`, and the backend accepts a seek.
pub open spec fn accepted(before: nat, after: nat) -> Observed {
    Observed { before, after, seek_ok: true }
}

/// `SeekForward` and then `SeekBackward`, both accepted by the backend and
/// with a playable track handed in: the engine plays or pauses as it did.
/// Paused, it is back at its old position; playing, it is further by the time
/// that passed between the two commands. That is exact where the forward step
/// had room below `u64::MAX`; in every case the position is at most one step
/// below the old one and at most that time above it.
pub proof fn lemma_forward_then_backward(
    engine: EngineModel,
    track: Track,
    forward_at: nat,
    forward_done: nat,
    backward_at: nat,
    backward_done: nat,
)
    requires
        !engine.terminated,
        engine.tracker.wf(),
    ensures
        ({
            let before = engine.tracker.position_at(forward_at);
            let back = engine.step(
                AudioCommand::SeekForward,
                MediaModel::Unread,
                accepted(forward_at, forward_done),
            ).step(
                AudioCommand::SeekBackward,
                MediaModel::Playable(track),
                accepted(backward_at, backward_done),
            );
            let between = if engine.tracker.is_playing() {
                time_between(forward_done, backward_at)
            } else {
                0
            };
            &&& back.tracker.is_playing() == engine.tracker.is_playing()
            &&& before + SEEK_STEP_MS + between <= u64::MAX ==> back.tracker.position_at(
                backward_done,
            ) == before + between
            &&& before - SEEK_STEP_MS <= back.tracker.position_at(backward_done) <= before
                + between
        }),
{
}

/// `SeekBackward` from no more than one step into the track, with a playable
/// track handed in: the position is 0 and the reply is `Sought`, whatever the
/// backend would have answered to a seek, for none is asked of it.
pub proof fn lemma_backward_saturates(engine: EngineModel, track: Track, obs: Observed)
    requires
        !engine.terminated,
        engine.tracker.position_at(obs.before) <= SEEK_STEP_MS,
    ensures
        engine.step(AudioCommand::SeekBackward, MediaModel::Playable(track), obs).tracker.position_at(
            obs.after,
        ) == 0,
        engine.reply(AudioCommand::SeekBackward, MediaModel::Playable(track), obs) == Ok::<
            Event,
            ErrorKind,
        >(Event::Sought),
{
}

/// A command that fails leaves the track, the position and the session as
/// they were, and the engine running. This holds of a seek past the end of
/// the track that the backend refuses, as of every other failure.
pub proof fn lemma_failure_changes_nothing(
    engine: EngineModel,
    command: AudioCommand,
    media: MediaModel,
    obs: Observed,
)
    requires
        engine.reply(command, media, obs) is Err,
    ensures
        engine.step(command, media, obs).track_path == engine.track_path,
        engine.step(command, media, obs).tracker == engine.tracker,
        engine.step(command, media, obs).terminated == engine.terminated,
        !engine.terminated,
{
}

/// A seek that the backend refuses fails with a `SinkError`.
pub proof fn lemma_refused_seek_fails(engine: EngineModel, command: AudioCommand, obs: Observed)
    requires
        !engine.terminated,
        command is SeekTo || command is SeekForward,
        !obs.seek_ok,
    ensures
        engine.reply(command, MediaModel::Unread, obs) == Err::<Event, ErrorKind>(
            ErrorKind::SinkError,
        ),
{
}

/// `Load` with a playable track, whatever the engine was doing: the backend is
/// stopped, then cleared, and only then is the new track appended, and it is
/// the track that came with the command; the new path is recorded, and the
/// position is 0, not playing.
pub proof fn lemma_load_replaces_track(
    engine: EngineModel,
    path: String,
    track: Track,
    obs: Observed,
    now: nat,
)
    requires
        !engine.terminated,
    ensures
        ({
            let loaded = engine.step(AudioCommand::Load(path), MediaModel::Playable(track), obs);
            &&& loaded.track_path == path@
            &&& loaded.tracker == TrackerModel::idle()
            &&& loaded.tracker.position_at(now) == 0
            &&& !loaded.terminated
            &&& loaded.backend == engine.backend + seq![
                BackendCall::Stop,
                BackendCall::Clear,
                BackendCall::Append(track),
            ]
        }),
        engine.reply(AudioCommand::Load(path), MediaModel::Playable(track), obs) == Ok::<
            Event,
            ErrorKind,
        >(Event::Loaded),
{
    let loaded = engine.step(AudioCommand::Load(path), MediaModel::Playable(track), obs);
    assert(loaded.backend =~= engine.backend + seq![
        BackendCall::Stop,
        BackendCall::Clear,
        BackendCall::Append(track),
    ]);
}

/// `Detach` makes the engine wait for the track's end, as the last thing it
/// asks of the backend, and terminates it; the track and the position are
/// left alone. `Shutdown` terminates it without asking anything of the
/// backend.
pub proof fn lemma_detach_waits_shutdown_does_not(
    engine: EngineModel,
    media: MediaModel,
    obs: Observed,
)
    requires
        !engine.terminated,
    ensures
        engine.step(AudioCommand::Detach, media, obs).terminated,
        engine.step(AudioCommand::Detach, media, obs).backend == engine.backend.push(
            BackendCall::WaitUntilEnd,
        ),
        engine.step(AudioCommand::Detach, media, obs).tracker == engine.tracker,
        engine.step(AudioCommand::Detach, media, obs).track_path == engine.track_path,
        engine.step(AudioCommand::Shutdown, media, obs).terminated,
        engine.step(AudioCommand::Shutdown, media, obs).backend == engine.backend,
{
}

/// A terminated engine stays terminated and ignores every command: nothing
/// changes, nothing is asked of the backend, and no error comes back.
pub proof fn lemma_terminated_ignores(
    engine: EngineModel,
    command: AudioCommand,
    media: MediaModel,
    obs: Observed,
)
    requires
        engine.terminated,
    ensures
        engine.step(command, media, obs) == engine,
        engine.reply(command, media, obs) == Ok::<Event, ErrorKind>(Event::Ignored),
{
}

/// One command as the engine meets it: the command, the bytes that came with
/// it, and what the outside world answered while it was handled.
pub struct Input {
    pub command: AudioCommand,
    pub media: MediaModel,
    pub obs: Observed,
}

/// The engine after it has handled `inputs`, in order.
pub open spec fn run(engine: EngineModel, inputs: Seq<Input>) -> EngineModel
    decreases inputs.len(),
{
    if inputs.len() == 0 {
        engine
    } else {
        run(engine, inputs.drop_last()).step(
            inputs.last().command,
            inputs.last().media,
            inputs.last().obs,
        )
    }
}

/// A terminated engine is left as it is by any number of commands.
pub proof fn lemma_terminated_ignores_all(engine: EngineModel, inputs: Seq<Input>)
    requires
        engine.terminated,
    ensures
        run(engine, inputs) == engine,
    decreases inputs.len(),
{
    if inputs.len() > 0 {
        lemma_terminated_ignores_all(engine, inputs.drop_last());
    }
}

/// No sequence of commands brings a terminated engine back, and none makes a
/// running engine forget that it has asked something of the backend.
pub proof fn lemma_run_is_monotone(engine: EngineModel, inputs: Seq<Input>)
    ensures
        engine.terminated ==> run(engine, inputs).terminated,
        engine.backend.is_prefix_of(run(engine, inputs).backend),
    decreases inputs.len(),
{
    if inputs.len() > 0 {
        lemma_run_is_monotone(engine, inputs.drop_last());
        let before = run(engine, inputs.drop_last());
        lemma_step_extends_history(
            before,
            inputs.last().command,
            inputs.last().media,
            inputs.last().obs,
        );
    }
}

/// One command only adds to what was asked of the backend, and never brings
/// a terminated engine back.
pub proof fn lemma_step_extends_history(
    engine: EngineModel,
    command: AudioCommand,
    media: MediaModel,
    obs: Observed,
)
    ensures
        engine.backend.is_prefix_of(engine.step(command, media, obs).backend),
        engine.terminated ==> engine.step(command, media, obs).terminated,
{
}

/// Once `Shutdown` or `Detach` has been handled, every later command is
/// ignored.
pub proof fn lemma_nothing_after_termination(
    engine: EngineModel,
    last: AudioCommand,
    later: AudioCommand,
    media: MediaModel,
    obs: Observed,
    later_media: MediaModel,
    later_obs: Observed,
)
    requires
        last.is_terminal(),
    ensures
        engine.step(last, media, obs).step(later, later_media, later_obs) == engine.step(
            last,
            media,
            obs,
        ),
        engine.step(last, media, obs).reply(later, later_media, later_obs) == Ok::<
            Event,
            ErrorKind,
        >(Event::Ignored),
{
}

} // verus!
