//! The handle through which callers reach the engine, and the queue between
//! them.
//!
//! A handle only queues commands. It never blocks and never fails: where the
//! engine is gone, a command is dropped in silence. Commands of one handle
//! are handled in the order in which that handle queued them.
use crate::command::command_or_shutdown;
use crate::command::AudioCommand;
use std::sync::mpsc::channel;
use std::sync::mpsc::Receiver;
use std::sync::mpsc::RecvError;
use std::sync::mpsc::SendError;
use std::sync::mpsc::Sender;
use std::sync::mpsc::TryRecvError;
use std::time::Duration;
use vstd::prelude::*;

verus! {

/// `std::sync::mpsc::Sender`, the sending end of a queue, as an opaque value.
#[verifier::external_type_specification]
#[verifier::external_body]
#[verifier::reject_recursive_types(T)]
pub struct ExSender<T>(Sender<T>);

/// `std::sync::mpsc::Receiver`, the receiving end of a queue, as an opaque
/// value.
#[verifier::external_type_specification]
#[verifier::external_body]
#[verifier::reject_recursive_types(T)]
pub struct ExReceiver<T>(Receiver<T>);

/// `std::sync::mpsc::SendError`, which hands back a value that was not sent.
#[verifier::external_type_specification]
#[verifier::external_body]
#[verifier::reject_recursive_types(T)]
pub struct ExSendError<T>(SendError<T>);

/// `std::sync::mpsc::RecvError`, which says that a queue is closed.
#[verifier::external_type_specification]
#[verifier::external_body]
pub struct ExRecvError(RecvError);

/// `std::sync::mpsc::TryRecvError`, which says that a queue is empty or
/// closed.
#[verifier::external_type_specification]
#[verifier::external_body]
pub struct ExTryRecvError(TryRecvError);

/// `std::sync::mpsc::channel` makes an unbounded queue with one receiving end.
/// Nothing is claimed of the two ends: they are opaque.
pub assume_specification<T>[ channel::<T> ]() -> (ends: (Sender<T>, Receiver<T>))
;

/// `Sender::send` queues a value without blocking. It fails only where the
/// receiving end is gone. Nothing is claimed of which it does.
pub assume_specification<T>[ Sender::<T>::send ](sender: &Sender<T>, t: T) -> (sent: Result<
    (),
    SendError<T>,
>)
;

/// `Sender::clone` makes another sending end of the same queue. Nothing is
/// claimed of it.
pub assume_specification<T>[ <Sender<T> as Clone>::clone ](sender: &Sender<T>) -> (copy: Sender<T>)
;

/// `Receiver::recv` blocks until a value is queued, and fails where none is
/// queued and every sending end is gone. Nothing is claimed of what comes.
pub assume_specification<T>[ Receiver::<T>::recv ](receiver: &Receiver<T>) -> (received: Result<
    T,
    RecvError,
>)
;

/// `Receiver::try_recv` takes a queued value, if there is one, without
/// blocking. Nothing is claimed of what comes.
pub assume_specification<T>[ Receiver::<T>::try_recv ](receiver: &Receiver<T>) -> (received:
    Result<T, TryRecvError>)
;

/// A caller's handle on the engine. It can be cloned; every clone queues into
/// the same engine.
pub struct AudioManager {
    command_tx: Sender<AudioCommand>,
}

impl Clone for AudioManager {
    /// Another handle on the same engine.
    fn clone(&self) -> (copy: AudioManager) {
        AudioManager { command_tx: self.command_tx.clone() }
    }
}

/// The engine's end of the command queue.
pub struct CommandInbox {
    command_rx: Receiver<AudioCommand>,
}

impl AudioManager {
    /// Makes a command queue, and gives its two ends: the handle for the
    /// callers, and the inbox for whoever runs the engine.
    pub fn new() -> (ends: (AudioManager, CommandInbox)) {
        let (command_tx, command_rx) = channel();
        (AudioManager { command_tx }, CommandInbox { command_rx })
    }

    /// Queues `command`. A command for an engine that is gone is dropped.
    pub fn send(&self, command: AudioCommand) {
        let _ = self.command_tx.send(command);
    }

    /// Asks the engine to load the track at `path`.
    pub fn load(&self, path: String) {
        self.send(AudioCommand::Load(path));
    }

    /// Asks the engine to start or resume playback.
    pub fn play(&self) {
        self.send(AudioCommand::Play);
    }

    /// Asks the engine to pause playback.
    pub fn pause(&self) {
        self.send(AudioCommand::Pause);
    }

    /// Asks the engine to stop playback.
    pub fn stop(&self) {
        self.send(AudioCommand::Stop);
    }

    /// Asks the engine to move to `position`, as time from the start of the
    /// track.
    pub fn seek_to(&self, position: Duration) {
        self.send(AudioCommand::SeekTo(position));
    }

    /// Asks the engine to move one seek step forward.
    pub fn seek_forward(&self) {
        self.send(AudioCommand::SeekForward);
    }

    /// Asks the engine to move one seek step backward.
    pub fn seek_backward(&self) {
        self.send(AudioCommand::SeekBackward);
    }

    /// Gives the handle up and lets the track play to its end. Nothing can
    /// reach the playing track through this handle afterwards.
    pub fn detach(self) {
        self.send(AudioCommand::Detach);
    }

    /// Gives the handle up and asks the engine to terminate at once.
    pub fn shutdown(self) {
        self.send(AudioCommand::Shutdown);
    }
}

impl CommandInbox {
    /// Blocks until a command is queued and takes it out of the queue. Where
    /// the queue is empty and every handle is gone, the command is
    /// `Shutdown`.
    pub fn next_command(&self) -> AudioCommand {
        let received = match self.command_rx.recv() {
            Ok(queued) => Some(queued),
            Err(_) => None,
        };
        command_or_shutdown(received)
    }
}

} // verus!
