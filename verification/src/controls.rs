//! The play button: what it shows, and what it asks of the engine.
use crate::command::AudioCommand;
use crate::manager::AudioManager;
use std::sync::mpsc::Receiver;
use std::sync::Arc;
use vstd::prelude::*;

verus! {

/// What the rest of the player tells the play button about playback.
#[derive(Debug, Clone, Copy, PartialEq, Eq)]
pub enum PlayerCommand {
    /// Playback was started elsewhere.
    Play,
    /// Playback was paused elsewhere.
    Paused,
}

/// Icon of a button that starts playback.
pub const PLAY_ICON: &'static str = "assets/play-button.png";

/// Icon of a button that pauses playback.
pub const PAUSE_ICON: &'static str = "assets/pause-button.png";

/// The icon to show: the pause button while playing, the play button
/// otherwise.
pub open spec fn icon_for(is_playing: bool) -> Seq<char> {
    if is_playing {
        PAUSE_ICON@
    } else {
        PLAY_ICON@
    }
}

/// The command that brings the engine in line with the button.
pub open spec fn command_for(is_playing: bool) -> AudioCommand {
    if is_playing {
        AudioCommand::Play
    } else {
        AudioCommand::Pause
    }
}

/// The state that the button is in after it has heard `heard`.
pub open spec fn playing_after(is_playing: bool, heard: Option<PlayerCommand>) -> bool {
    match heard {
        Some(PlayerCommand::Play) => true,
        Some(PlayerCommand::Paused) => false,
        None => is_playing,
    }
}

/// The play button.
pub struct PlayElement {
    is_playing: bool,
    audio_manager: Arc<AudioManager>,
    state_receiver: Receiver<PlayerCommand>,
}

impl PlayElement {
    /// Whether the button takes playback to be running.
    pub closed spec fn playing(&self) -> bool {
        self.is_playing
    }

    /// The handle through which the button queues its requests.
    pub closed spec fn queues_through(&self) -> Arc<AudioManager> {
        self.audio_manager
    }

    /// The end of the queue through which the button hears of playback.
    pub closed spec fn hears_through(&self) -> Receiver<PlayerCommand> {
        self.state_receiver
    }

    /// A button for a player that is not playing. It queues its requests
    /// through `audio_manager` and hears of playback through `rx`.
    pub fn new(audio_manager: Arc<AudioManager>, rx: Receiver<PlayerCommand>) -> (element:
        PlayElement)
        ensures
            !element.playing(),
            element.queues_through() == audio_manager,
            element.hears_through() == rx,
    {
        PlayElement { is_playing: false, audio_manager, state_receiver: rx }
    }

    /// Whether the button takes playback to be running.
    pub fn is_playing(&self) -> (playing: bool)
        ensures
            playing == self.playing(),
    {
        self.is_playing
    }

    /// Path of the icon to show.
    pub fn icon(&self) -> (path: &'static str)
        ensures
            path@ == icon_for(self.playing()),
    {
        if self.is_playing {
            PAUSE_ICON
        } else {
            PLAY_ICON
        }
    }

    /// The command that brings the engine in line with a button in the given
    /// state.
    pub fn request_for(is_playing: bool) -> (command: AudioCommand)
        ensures
            command == command_for(is_playing),
    {
        if is_playing {
            AudioCommand::Play
        } else {
            AudioCommand::Pause
        }
    }

    /// A click toggles the button and asks the engine to follow.
    pub fn on_click(&mut self)
        ensures
            final(self).playing() == !old(self).playing(),
            final(self).queues_through() == old(self).queues_through(),
            final(self).hears_through() == old(self).hears_through(),
    {
        self.is_playing = !self.is_playing;
        self.audio_manager.send(Self::request_for(self.is_playing));
    }

    /// Takes what was heard of playback, if anything, and asks the engine to
    /// follow. Where nothing was heard, nothing is done.
    pub fn hear(&mut self, heard: Option<PlayerCommand>)
        ensures
            final(self).playing() == playing_after(old(self).playing(), heard),
            final(self).queues_through() == old(self).queues_through(),
            final(self).hears_through() == old(self).hears_through(),
    {
        match heard {
            Some(PlayerCommand::Play) => {
                self.is_playing = true;
                self.audio_manager.send(Self::request_for(true));
            },
            Some(PlayerCommand::Paused) => {
                self.is_playing = false;
                self.audio_manager.send(Self::request_for(false));
            },
            None => {},
        }
    }

    /// Takes the next thing that was said of playback out of the queue, if
    /// anything was said, without blocking, and hears it. What was taken is
    /// handed back: the button is then as [`PlayElement::hear`] leaves it for
    /// that, and as it was where nothing had been said.
    pub fn poll(&mut self) -> (heard: Option<PlayerCommand>)
        ensures
            final(self).playing() == playing_after(old(self).playing(), heard),
            final(self).queues_through() == old(self).queues_through(),
            final(self).hears_through() == old(self).hears_through(),
    {
        let heard = match self.state_receiver.try_recv() {
            Ok(said) => Some(said),
            Err(_) => None,
        };
        self.hear(heard);
        heard
    }

    /// Asks the engine to move one seek step forward.
    pub fn seek_forward(&self) {
        self.audio_manager.seek_forward();
    }

    /// Asks the engine to move one seek step backward.
    pub fn seek_backward(&self) {
        self.audio_manager.seek_backward();
    }
}

} // verus!
