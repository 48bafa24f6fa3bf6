//! The playback engine: a state machine that handles one command at a time.
//!
//! The engine owns the backend and the position tracker, and is the only
//! place where either changes. It never fails: a backend failure leaves the
//! track and the position as they were before the command, and is handed to
//! the caller only to be logged.
//!
//! The engine reads no file and decodes none. Whoever runs it asks
//! [`Engine::media_path`] which file a command needs, reads and decodes it,
//! and hands what came of that over with the command, as a [`Media`].
use crate::backend::seek_error_text;
use crate::backend::Backend;
use crate::backend::BackendCall;
use crate::backend::Track;
use crate::clock::millis_long;
use crate::clock::reading_for;
use crate::clock::whole_millis;
use crate::clock::Clock;
use crate::command::AudioCommand;
use crate::error::AudioPlayerError;
use crate::error::ErrorKind;
use crate::position::PositionTracker;
use crate::position::TrackerModel;
use rodio::source::SeekError;
use rodio::Sink;
use std::time::Duration;
use vstd::prelude::*;
use vstd::string::*;

verus! {

/// What became of a command that did not fail.
#[derive(Debug, Clone, Copy, PartialEq, Eq)]
pub enum Event {
    /// A new track is loaded, at position 0, not playing.
    Loaded,
    /// Playback runs.
    Playing,
    /// Playback is paused at the position it had reached.
    Paused,
    /// Playback is stopped, at position 0.
    Stopped,
    /// The position was moved.
    Sought,
    /// The track played to its end after `Detach`; the engine is terminated.
    Finished,
    /// The engine is terminated.
    ShutDown,
    /// The engine was terminated already; nothing was done.
    Ignored,
}

/// Mathematical state of the engine.
pub struct EngineModel {
    /// Path of the loaded track; empty while none is loaded.
    pub track_path: Seq<char>,
    /// The position accounting.
    pub tracker: TrackerModel,
    /// Whether the engine has terminated. A terminated engine ignores every
    /// command.
    pub terminated: bool,
    /// Everything that was asked of the backend, oldest request first.
    pub backend: Seq<BackendCall>,
}

/// What the outside world answered while one command was handled.
pub struct Observed {
    /// The clock reading taken before the backend was touched.
    pub before: nat,
    /// The clock reading taken after the backend had answered.
    pub after: nat,
    /// Whether the backend's in-place seek succeeded.
    pub seek_ok: bool,
}

/// The text of the failure where a track was decoded but runs at a sample
/// rate that the backend cannot take.
pub const UNSUPPORTED_RATE: &'static str = "sample rate not supported";

/// What came of reading and decoding the file that a command needs.
pub enum Media {
    /// The command needs no file, or the file could not be read.
    Unread,
    /// The file was read, but is no audio that can be decoded. The text says
    /// why.
    Undecodable(String),
    /// The file was read and decoded.
    Decoded(Track),
}

/// What the engine can do with what came of a file.
pub enum MediaModel {
    /// There is nothing: the file was not read.
    Unread,
    /// There are bytes, but no audio.
    Undecodable,
    /// There is a track, but the backend cannot take it.
    Unplayable,
    /// There is this track, and the backend can take it.
    Playable(Track),
}

impl MediaModel {
    /// The track to play, if there is one.
    pub open spec fn track(self) -> Option<Track> {
        match self {
            MediaModel::Playable(track) => Some(track),
            _ => None,
        }
    }
}

impl Media {
    /// What the engine can do with this.
    pub open spec fn model(&self) -> MediaModel {
        match self {
            Media::Unread => MediaModel::Unread,
            Media::Undecodable(_) => MediaModel::Undecodable,
            Media::Decoded(track) => if track.fits() {
                MediaModel::Playable(*track)
            } else {
                MediaModel::Unplayable
            },
        }
    }

    /// The text of the `DecodeError` that this gives rise to, where it does.
    pub open spec fn failure_text(&self) -> Seq<char> {
        match self {
            Media::Undecodable(text) => text@,
            _ => UNSUPPORTED_RATE@,
        }
    }
}

/// Whether a reply is a `DecodeError` whose text is `text`, or no
/// `DecodeError` at all.
pub open spec fn decode_error_names(reply: Result<Event, AudioPlayerError>, text: Seq<char>) -> bool {
    reply matches Err(AudioPlayerError::DecodeError(said)) ==> said@ == text
}

/// Whether a reply is a `FileError` whose text is `path`, or no `FileError` at
/// all.
pub open spec fn file_error_names(reply: Result<Event, AudioPlayerError>, path: Seq<char>) -> bool {
    reply matches Err(AudioPlayerError::FileError(text)) ==> text@ == path
}

/// A reply without the text of its error.
pub open spec fn reply_model(reply: Result<Event, AudioPlayerError>) -> Result<Event, ErrorKind> {
    match reply {
        Ok(event) => Ok(event),
        Err(error) => Err(error.kind_spec()),
    }
}

impl EngineModel {
    /// An engine that has handled nothing: no track, position 0, not playing.
    pub open spec fn fresh() -> EngineModel {
        EngineModel {
            track_path: Seq::empty(),
            tracker: TrackerModel::idle(),
            terminated: false,
            backend: Seq::empty(),
        }
    }

    /// A track is loaded exactly when a path is recorded.
    pub open spec fn is_loaded(self) -> bool {
        self.track_path.len() > 0
    }

    /// Whether the media holds a track that the backend can take.
    pub open spec fn playable(media: MediaModel) -> bool {
        media is Playable
    }

    /// The end of a load. Where there is a track to play, the backend is
    /// stopped and cleared before the new track is appended, the track's path
    /// is recorded and the position goes to 0, not playing. Where there is
    /// none, nothing changes.
    pub open spec fn install(self, path: Seq<char>, track: Option<Track>) -> EngineModel {
        match track {
            Some(track) => EngineModel {
                track_path: path,
                tracker: TrackerModel::idle(),
                terminated: self.terminated,
                backend: self.backend.push(BackendCall::Stop).push(BackendCall::Clear).push(
                    BackendCall::Append(track),
                ),
            },
            None => self,
        }
    }

    /// `Load`: the track is installed where the media is playable.
    pub open spec fn load(self, path: Seq<char>, media: MediaModel) -> EngineModel {
        self.install(path, media.track())
    }

    /// The reply to a command that needs media: `done` where the media is
    /// playable, and otherwise the reason why it is not.
    pub open spec fn media_reply(media: MediaModel, done: Event) -> Result<Event, ErrorKind> {
        match media {
            MediaModel::Unread => Err(ErrorKind::FileError),
            MediaModel::Undecodable => Err(ErrorKind::DecodeError),
            MediaModel::Unplayable => Err(ErrorKind::DecodeError),
            MediaModel::Playable(_) => Ok(done),
        }
    }

    /// `Play`: the backend resumes and a session begins at `now`, unless one
    /// is running already.
    pub open spec fn play(self, now: nat) -> EngineModel {
        EngineModel {
            track_path: self.track_path,
            tracker: self.tracker.play(now),
            terminated: self.terminated,
            backend: self.backend.push(BackendCall::Play),
        }
    }

    /// `Pause`: the running session is added to the accumulated time and the
    /// backend pauses.
    pub open spec fn pause(self, now: nat) -> EngineModel {
        EngineModel {
            track_path: self.track_path,
            tracker: self.tracker.pause(now),
            terminated: self.terminated,
            backend: self.backend.push(BackendCall::Pause),
        }
    }

    /// `Stop`: the position goes to 0, not playing, and the backend stops.
    pub open spec fn stop(self) -> EngineModel {
        EngineModel {
            track_path: self.track_path,
            tracker: self.tracker.stop(),
            terminated: self.terminated,
            backend: self.backend.push(BackendCall::Stop),
        }
    }

    /// The end of a seek to `target`. Where the backend accepted it, the
    /// position is `target` and a running session restarts at `now`. Where it
    /// did not, nothing changes.
    pub open spec fn settle_seek(self, target: nat, seek_ok: bool, now: nat) -> EngineModel {
        if seek_ok {
            EngineModel {
                track_path: self.track_path,
                tracker: self.tracker.seek(target, now),
                terminated: self.terminated,
                backend: self.backend,
            }
        } else {
            self
        }
    }

    /// The position, in milliseconds, that a seek to `position` records: its
    /// whole milliseconds, as far as a `u64` holds them.
    pub open spec fn seek_target(position: Duration) -> nat {
        reading_for(whole_millis(position)) as nat
    }

    /// What the backend is asked for in a seek to `target` milliseconds: the
    /// duration that lasts that long.
    pub open spec fn asked_for(target: nat) -> Duration {
        millis_long(target as u64)
    }

    /// An in-place seek: the backend is asked to seek to `asked`, and the
    /// seek to `target` milliseconds is settled by its answer.
    pub open spec fn seek_in_place(
        self,
        asked: Duration,
        target: nat,
        seek_ok: bool,
        now: nat,
    ) -> EngineModel {
        EngineModel {
            track_path: self.track_path,
            tracker: self.tracker,
            terminated: self.terminated,
            backend: self.backend.push(BackendCall::Seek(asked)),
        }.settle_seek(target, seek_ok, now)
    }

    /// The reply to a seek.
    pub open spec fn seek_reply(seek_ok: bool) -> Result<Event, ErrorKind> {
        if seek_ok {
            Ok(Event::Sought)
        } else {
            Err(ErrorKind::SinkError)
        }
    }

    /// Whether a backward seek to `target` gets through the backend: the
    /// rebuilt pipeline starts at 0, so only a later target needs a seek.
    pub open spec fn reload_seek_ok(target: nat, seek_ok: bool) -> bool {
        target == 0 || seek_ok
    }

    /// `SeekBackward`: the target is one step before the position at
    /// `obs.before`. The backend is stopped and cleared, the current track,
    /// decoded again from its start, is appended, and the backend is asked to
    /// seek to the target unless that is 0. Where all of this succeeds, the
    /// backend resumes if playback was running and pauses if not, the position
    /// is the target, and a running session restarts at `obs.after`. Where a
    /// step fails, the steps after it are not taken, and the track and the
    /// position stay as they were.
    pub open spec fn seek_backward(self, media: MediaModel, obs: Observed) -> EngineModel {
        let target = self.tracker.backward_target(obs.before);
        let cleared = self.backend.push(BackendCall::Stop).push(BackendCall::Clear);
        if !Self::playable(media) {
            EngineModel {
                track_path: self.track_path,
                tracker: self.tracker,
                terminated: self.terminated,
                backend: cleared,
            }
        } else {
            let appended = cleared.push(BackendCall::Append(media->Playable_0));
            let sought = if target > 0 {
                appended.push(BackendCall::Seek(Self::asked_for(target)))
            } else {
                appended
            };
            if !Self::reload_seek_ok(target, obs.seek_ok) {
                EngineModel {
                    track_path: self.track_path,
                    tracker: self.tracker,
                    terminated: self.terminated,
                    backend: sought,
                }
            } else {
                EngineModel {
                    track_path: self.track_path,
                    tracker: self.tracker.seek(target, obs.after),
                    terminated: self.terminated,
                    backend: sought.push(
                        if self.tracker.is_playing() {
                            BackendCall::Play
                        } else {
                            BackendCall::Pause
                        },
                    ),
                }
            }
        }
    }

    /// The reply to `SeekBackward`.
    pub open spec fn seek_backward_reply(self, media: MediaModel, obs: Observed) -> Result<
        Event,
        ErrorKind,
    > {
        if !Self::playable(media) {
            Self::media_reply(media, Event::Sought)
        } else {
            Self::seek_reply(
                Self::reload_seek_ok(self.tracker.backward_target(obs.before), obs.seek_ok),
            )
        }
    }

    /// `Detach`: the engine waits until the backend has played the track to
    /// its end, and is terminated.
    pub open spec fn detach(self) -> EngineModel {
        EngineModel {
            track_path: self.track_path,
            tracker: self.tracker,
            terminated: true,
            backend: self.backend.push(BackendCall::WaitUntilEnd),
        }
    }

    /// `Shutdown`: the engine is terminated at once; the backend is not asked
    /// to finish anything.
    pub open spec fn shutdown(self) -> EngineModel {
        EngineModel {
            track_path: self.track_path,
            tracker: self.tracker,
            terminated: true,
            backend: self.backend,
        }
    }

    /// The engine after one command, given the bytes that came with it and
    /// what the outside world answered.
    pub open spec fn step(
        self,
        command: AudioCommand,
        media: MediaModel,
        obs: Observed,
    ) -> EngineModel {
        if self.terminated {
            self
        } else {
            match command {
                AudioCommand::Load(path) => self.load(path@, media),
                AudioCommand::Play => self.play(obs.after),
                AudioCommand::Pause => self.pause(obs.before),
                AudioCommand::Stop => self.stop(),
                AudioCommand::SeekTo(position) => self.seek_in_place(
                    position,
                    Self::seek_target(position),
                    obs.seek_ok,
                    obs.after,
                ),
                AudioCommand::SeekForward => self.seek_in_place(
                    Self::asked_for(self.tracker.forward_target(obs.before)),
                    self.tracker.forward_target(obs.before),
                    obs.seek_ok,
                    obs.after,
                ),
                AudioCommand::SeekBackward => self.seek_backward(media, obs),
                AudioCommand::Detach => self.detach(),
                AudioCommand::Shutdown => self.shutdown(),
            }
        }
    }

    /// Whether one command takes this engine to `next` with the reply
    /// `reply`, given the bytes that came with the command and what the
    /// outside world answered.
    pub open spec fn leads_to(
        self,
        command: AudioCommand,
        media: MediaModel,
        obs: Observed,
        next: EngineModel,
        reply: Result<Event, ErrorKind>,
    ) -> bool {
        &&& next == self.step(command, media, obs)
        &&& reply == self.reply(command, media, obs)
    }

    /// The reply to one command.
    pub open spec fn reply(
        self,
        command: AudioCommand,
        media: MediaModel,
        obs: Observed,
    ) -> Result<Event, ErrorKind> {
        if self.terminated {
            Ok(Event::Ignored)
        } else {
            match command {
                AudioCommand::Load(_) => Self::media_reply(media, Event::Loaded),
                AudioCommand::Play => Ok(Event::Playing),
                AudioCommand::Pause => Ok(Event::Paused),
                AudioCommand::Stop => Ok(Event::Stopped),
                AudioCommand::SeekTo(_) => Self::seek_reply(obs.seek_ok),
                AudioCommand::SeekForward => Self::seek_reply(obs.seek_ok),
                AudioCommand::SeekBackward => self.seek_backward_reply(media, obs),
                AudioCommand::Detach => Ok(Event::Finished),
                AudioCommand::Shutdown => Ok(Event::ShutDown),
            }
        }
    }
}

/// The engine: the backend, the clock, and the state that commands change.
pub struct Engine {
    backend: Backend,
    clock: Clock,
    tracker: PositionTracker,
    current_track_path: String,
    terminated: bool,
}

impl View for Engine {
    type V = EngineModel;

    closed spec fn view(&self) -> EngineModel {
        EngineModel {
            track_path: self.current_track_path@,
            tracker: self.tracker@,
            terminated: self.terminated,
            backend: self.backend.issued(),
        }
    }
}

impl Engine {
    /// The sink that this engine drives: the one it was made with, for as
    /// long as it lives.
    pub closed spec fn drives(&self) -> Sink {
        self.backend.drives()
    }

    /// An engine over `sink`, with its clock started and no track loaded.
    pub fn new(sink: Sink) -> (engine: Engine)
        ensures
            engine@ == EngineModel::fresh(),
            engine.drives() == sink,
    {
        Engine {
            backend: Backend::new(sink),
            clock: Clock::start(),
            tracker: PositionTracker::new(),
            current_track_path: String::new(),
            terminated: false,
        }
    }

    /// Path of the loaded track; empty while none is loaded.
    pub fn current_track_path(&self) -> (path: &String)
        ensures
            path@ == self@.track_path,
    {
        &self.current_track_path
    }

    /// Whether a track is loaded.
    pub fn has_track(&self) -> (loaded: bool)
        ensures
            loaded == self@.is_loaded(),
    {
        !self.current_track_path.as_str().is_empty()
    }

    /// The position accounting, as it stands.
    pub fn tracker(&self) -> (tracker: PositionTracker)
        ensures
            tracker@ == self@.tracker,
    {
        self.tracker
    }

    /// Whether playback is running.
    pub fn is_playing(&self) -> (playing: bool)
        ensures
            playing == self@.tracker.is_playing(),
    {
        self.tracker.is_playing()
    }

    /// Whether the engine has terminated.
    pub fn is_terminated(&self) -> (terminated: bool)
        ensures
            terminated == self@.terminated,
    {
        self.terminated
    }

    /// The position now, by the engine's clock.
    pub fn current_position(&self) -> (ms: u64)
        ensures
            exists|now: nat| ms == #[trigger] self@.tracker.position_at(now),
    {
        let now: u64 = self.clock.now_ms();
        self.tracker.current_position(now)
    }

    /// The path of the file whose bytes must come with `command`, if it needs
    /// any. A terminated engine needs none.
    pub fn media_path(&self, command: &AudioCommand) -> (path: Option<String>)
        ensures
            self@.terminated ==> path is None,
            !self@.terminated ==> (path is Some) == (command.media_path_spec(
                self@.track_path,
            ) is Some),
            !self@.terminated && path is Some ==> path->0@ == command.media_path_spec(
                self@.track_path,
            )->0,
    {
        if self.terminated {
            return None;
        }
        match command {
            AudioCommand::Load(path) => Some(path.clone()),
            AudioCommand::SeekBackward => Some(self.current_track_path.clone()),
            _ => None,
        }
    }

    /// Handles one command. `media` holds what came of the file that
    /// [`Engine::media_path`] names for the command, and `Media::Unread` where
    /// it names none.
    ///
    /// The new state and the reply are those of [`EngineModel::step`] and
    /// [`EngineModel::reply`], for the clock readings and the backend's
    /// answer that the engine met while it handled the command. A failure is
    /// handed back to be logged; it leaves the track and the position as they
    /// were. A `FileError` carries the path of the file that was missing, a
    /// `DecodeError` the text that came with the media. The engine keeps its
    /// sink, and a track that it appends is the one that came with the
    /// command.
    pub fn handle(&mut self, command: AudioCommand, media: Media) -> (reply: Result<
        Event,
        AudioPlayerError,
    >)
        ensures
            exists|obs: Observed|
                old(self)@.leads_to(command, media.model(), obs, final(self)@, reply_model(reply)),
            final(self).drives() == old(self).drives(),
            command.media_path_spec(old(self)@.track_path) matches Some(path) ==> file_error_names(
                reply,
                path,
            ),
            decode_error_names(reply, media.failure_text()),
    {
        let ghost before = self@;
        let ghost given = media.model();
        if self.terminated {
            let ignored = Ok(Event::Ignored);
            proof {
                let obs = Observed { before: 0, after: 0, seek_ok: true };
                assert(before.leads_to(command, given, obs, self@, reply_model(ignored)));
            }
            return ignored;
        }
        let (reply, obs) = match command {
            AudioCommand::Load(path) => self.load(path, media),
            AudioCommand::Play => self.play(),
            AudioCommand::Pause => self.pause(),
            AudioCommand::Stop => self.stop(),
            AudioCommand::SeekTo(position) => self.seek_to(position),
            AudioCommand::SeekForward => self.seek_forward(),
            AudioCommand::SeekBackward => self.seek_backward(media),
            AudioCommand::Detach => self.detach(),
            AudioCommand::Shutdown => self.shutdown(),
        };
        proof {
            assert(before.leads_to(command, given, obs@, self@, reply_model(reply)));
        }
        reply
    }

    /// Ends a seek to `target_ms` with what the backend answered and the
    /// clock reading taken after it. An accepted seek moves the position to
    /// the target; a refused one changes nothing and comes back as a
    /// `SinkError`. A terminated engine ignores both.
    pub fn complete_seek(&mut self, target_ms: u64, sought: Result<(), SeekError>, now: u64) -> (reply:
        Result<Event, AudioPlayerError>)
        ensures
            final(self).drives() == old(self).drives(),
            old(self)@.terminated ==> final(self)@ == old(self)@ && reply_model(reply) == Ok::<
                Event,
                ErrorKind,
            >(Event::Ignored),
            !old(self)@.terminated ==> final(self)@ == old(self)@.settle_seek(
                target_ms as nat,
                sought is Ok,
                now as nat,
            ),
            !old(self)@.terminated ==> reply_model(reply) == EngineModel::seek_reply(sought is Ok),
    {
        if self.terminated {
            return Ok(Event::Ignored);
        }
        match sought {
            Ok(_) => {
                self.tracker.seek(target_ms, now);
                Ok(Event::Sought)
            },
            Err(error) => Err(AudioPlayerError::SinkError(seek_error_text(&error))),
        }
    }

    /// `Load`: installs the track, if the media holds one that the backend
    /// can take.
    fn load(&mut self, path: String, media: Media) -> (out: (
        Result<Event, AudioPlayerError>,
        Ghost<Observed>,
    ))
        requires
            !old(self)@.terminated,
        ensures
            final(self).drives() == old(self).drives(),
            final(self)@ == old(self)@.load(path@, media.model()),
            reply_model(out.0) == EngineModel::media_reply(media.model(), Event::Loaded),
            file_error_names(out.0, path@),
            decode_error_names(out.0, media.failure_text()),
    {
        let obs = Ghost(Observed { before: 0, after: 0, seek_ok: true });
        match media {
            Media::Decoded(track) => {
                if track.is_appendable() {
                    self.backend.stop();
                    self.backend.clear();
                    self.backend.append(track);
                    self.current_track_path = path;
                    self.tracker.stop();
                    (Ok(Event::Loaded), obs)
                } else {
                    (Err(AudioPlayerError::DecodeError(String::from_str(UNSUPPORTED_RATE))), obs)
                }
            },
            Media::Undecodable(text) => (Err(AudioPlayerError::DecodeError(text)), obs),
            Media::Unread => (Err(AudioPlayerError::FileError(path)), obs),
        }
    }

    /// `Play`: resumes the backend, then starts a session at the clock's
    /// reading unless one is running.
    fn play(&mut self) -> (out: (Result<Event, AudioPlayerError>, Ghost<Observed>))
        ensures
            final(self).drives() == old(self).drives(),
            final(self)@ == old(self)@.play(out.1@.after),
            reply_model(out.0) == Ok::<Event, ErrorKind>(Event::Playing),
    {
        self.backend.play();
        let now: u64 = self.clock.now_ms();
        self.tracker.play(now);
        (Ok(Event::Playing), Ghost(Observed { before: now as nat, after: now as nat, seek_ok: true }))
    }

    /// `Pause`: ends the session at the clock's reading, then pauses the backend.
    fn pause(&mut self) -> (out: (Result<Event, AudioPlayerError>, Ghost<Observed>))
        ensures
            final(self).drives() == old(self).drives(),
            final(self)@ == old(self)@.pause(out.1@.before),
            reply_model(out.0) == Ok::<Event, ErrorKind>(Event::Paused),
    {
        let now: u64 = self.clock.now_ms();
        self.tracker.pause(now);
        self.backend.pause();
        (Ok(Event::Paused), Ghost(Observed { before: now as nat, after: now as nat, seek_ok: true }))
    }

    /// `Stop`: resets the position, then stops the backend.
    fn stop(&mut self) -> (out: (Result<Event, AudioPlayerError>, Ghost<Observed>))
        ensures
            final(self).drives() == old(self).drives(),
            final(self)@ == old(self)@.stop(),
            reply_model(out.0) == Ok::<Event, ErrorKind>(Event::Stopped),
    {
        self.tracker.stop();
        self.backend.stop();
        (Ok(Event::Stopped), Ghost(Observed { before: 0, after: 0, seek_ok: true }))
    }

    /// `SeekTo`: asks the backend to seek in place to the position given, and
    /// settles by its answer.
    fn seek_to(&mut self, position: Duration) -> (out: (
        Result<Event, AudioPlayerError>,
        Ghost<Observed>,
    ))
        requires
            !old(self)@.terminated,
        ensures
            final(self).drives() == old(self).drives(),
            final(self)@ == old(self)@.seek_in_place(
                position,
                EngineModel::seek_target(position),
                out.1@.seek_ok,
                out.1@.after,
            ),
            reply_model(out.0) == EngineModel::seek_reply(out.1@.seek_ok),
    {
        let target: u64 = Clock::reading_of(position.as_millis());
        let sought = self.backend.try_seek(position);
        let now: u64 = self.clock.now_ms();
        let obs = Ghost(Observed { before: now as nat, after: now as nat, seek_ok: sought is Ok });
        (self.complete_seek(target, sought, now), obs)
    }

    /// `SeekForward`: an in-place seek to one step after the current position.
    fn seek_forward(&mut self) -> (out: (Result<Event, AudioPlayerError>, Ghost<Observed>))
        requires
            !old(self)@.terminated,
        ensures
            final(self).drives() == old(self).drives(),
            final(self)@ == old(self)@.seek_in_place(
                EngineModel::asked_for(old(self)@.tracker.forward_target(out.1@.before)),
                old(self)@.tracker.forward_target(out.1@.before),
                out.1@.seek_ok,
                out.1@.after,
            ),
            reply_model(out.0) == EngineModel::seek_reply(out.1@.seek_ok),
    {
        let before: u64 = self.clock.now_ms();
        let target: u64 = self.tracker.forward_target(before);
        let sought = self.backend.try_seek(Duration::from_millis(target));
        let after: u64 = self.clock.now_ms();
        let obs = Ghost(
            Observed { before: before as nat, after: after as nat, seek_ok: sought is Ok },
        );
        (self.complete_seek(target, sought, after), obs)
    }

    /// `SeekBackward`: rebuilds the decode pipeline from the start of the
    /// track and seeks forward to one step before the current position. A
    /// decoder that only reads forward cannot go back any other way.
    fn seek_backward(&mut self, media: Media) -> (out: (
        Result<Event, AudioPlayerError>,
        Ghost<Observed>,
    ))
        requires
            !old(self)@.terminated,
        ensures
            final(self).drives() == old(self).drives(),
            final(self)@ == old(self)@.seek_backward(media.model(), out.1@),
            reply_model(out.0) == old(self)@.seek_backward_reply(media.model(), out.1@),
            file_error_names(out.0, old(self)@.track_path),
            decode_error_names(out.0, media.failure_text()),
    {
        let before: u64 = self.clock.now_ms();
        let target: u64 = self.tracker.backward_target(before);
        let was_playing = self.tracker.is_playing();
        let failed = Ghost(Observed { before: before as nat, after: before as nat, seek_ok: true });
        self.backend.stop();
        self.backend.clear();
        let track = match media {
            Media::Decoded(track) => {
                if track.is_appendable() {
                    track
                } else {
                    let text = String::from_str(UNSUPPORTED_RATE);
                    return (Err(AudioPlayerError::DecodeError(text)), failed);
                }
            },
            Media::Undecodable(text) => {
                return (Err(AudioPlayerError::DecodeError(text)), failed);
            },
            Media::Unread => {
                let path = self.current_track_path.clone();
                return (Err(AudioPlayerError::FileError(path)), failed);
            },
        };
        self.backend.append(track);
        let sought = if target > 0 {
            self.backend.try_seek(Duration::from_millis(target))
        } else {
            Ok(())
        };
        if sought.is_ok() {
            if was_playing {
                self.backend.play();
            } else {
                self.backend.pause();
            }
        }
        let after: u64 = self.clock.now_ms();
        let obs = Ghost(
            Observed { before: before as nat, after: after as nat, seek_ok: sought is Ok },
        );
        (self.complete_seek(target, sought, after), obs)
    }

    /// `Detach`: blocks until the track has ended, then terminates.
    fn detach(&mut self) -> (out: (Result<Event, AudioPlayerError>, Ghost<Observed>))
        ensures
            final(self).drives() == old(self).drives(),
            final(self)@ == old(self)@.detach(),
            reply_model(out.0) == Ok::<Event, ErrorKind>(Event::Finished),
    {
        self.backend.wait_until_end();
        self.terminated = true;
        (Ok(Event::Finished), Ghost(Observed { before: 0, after: 0, seek_ok: true }))
    }

    /// `Shutdown`: terminates at once.
    fn shutdown(&mut self) -> (out: (Result<Event, AudioPlayerError>, Ghost<Observed>))
        ensures
            final(self).drives() == old(self).drives(),
            final(self)@ == old(self)@.shutdown(),
            reply_model(out.0) == Ok::<Event, ErrorKind>(Event::ShutDown),
    {
        self.terminated = true;
        (Ok(Event::ShutDown), Ghost(Observed { before: 0, after: 0, seek_ok: true }))
    }
}

} // verus!
