//! What a caller can ask of the engine.
use std::time::Duration;
use vstd::prelude::*;

verus! {

/// One instruction for the engine. A command is made once, queued, and
/// handled exactly once, in the order in which it was queued.
#[derive(Debug, PartialEq, Eq)]
pub enum AudioCommand {
    /// Replace the current track by the file at this path.
    Load(String),
    /// Start or resume playback.
    Play,
    /// Pause playback, keeping the position.
    Pause,
    /// Stop playback and go back to position 0.
    Stop,
    /// Move to a position, as time from the start of the track.
    SeekTo(Duration),
    /// Move one seek step forward.
    SeekForward,
    /// Move one seek step backward.
    SeekBackward,
    /// Let the current track play to its end, then terminate.
    Detach,
    /// Terminate at once.
    Shutdown,
}

impl Clone for AudioCommand {
    /// The same command once more.
    fn clone(&self) -> (copy: AudioCommand)
        ensures
            copy == *self,
    {
        match self {
            AudioCommand::Load(path) => AudioCommand::Load(path.clone()),
            AudioCommand::Play => AudioCommand::Play,
            AudioCommand::Pause => AudioCommand::Pause,
            AudioCommand::Stop => AudioCommand::Stop,
            AudioCommand::SeekTo(position) => AudioCommand::SeekTo(*position),
            AudioCommand::SeekForward => AudioCommand::SeekForward,
            AudioCommand::SeekBackward => AudioCommand::SeekBackward,
            AudioCommand::Detach => AudioCommand::Detach,
            AudioCommand::Shutdown => AudioCommand::Shutdown,
        }
    }
}

impl AudioCommand {
    /// The path of the file whose bytes the engine needs in order to handle
    /// this command, where `current_track` is the path of the track that is
    /// loaded. `Load` needs the new file; `SeekBackward` needs the current
    /// one again, because it rebuilds the decode pipeline from the start.
    pub open spec fn media_path_spec(&self, current_track: Seq<char>) -> Option<Seq<char>> {
        match self {
            AudioCommand::Load(path) => Some(path@),
            AudioCommand::SeekBackward => Some(current_track),
            _ => None,
        }
    }

    /// Whether this command ends the engine.
    pub open spec fn is_terminal(&self) -> bool {
        self is Detach || self is Shutdown
    }
}

/// The command to handle next, given what came out of the command queue:
/// the command itself, or `Shutdown` where the queue is closed because every
/// handle is gone.
pub fn command_or_shutdown(received: Option<AudioCommand>) -> (command: AudioCommand)
    ensures
        command == (match received {
            Some(queued) => queued,
            None => AudioCommand::Shutdown,
        }),
{
    match received {
        Some(queued) => queued,
        None => AudioCommand::Shutdown,
    }
}

} // verus!
