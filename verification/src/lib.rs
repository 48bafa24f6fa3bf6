//! A music player's playback core, verified with Verus.
//!
//! Callers hold an [`AudioManager`](manager::AudioManager) and queue
//! [`AudioCommand`](command::AudioCommand)s through it without blocking. One
//! worker owns the [`Engine`](engine::Engine), takes the commands out of the
//! [`CommandInbox`](manager::CommandInbox) in the order in which they were
//! queued, and hands them to the engine one at a time. Nothing but the
//! commands crosses between the two.
//!
//! The engine keeps the playback position by the wall clock, in a
//! [`PositionTracker`](position::PositionTracker), and drives a `rodio` sink
//! through a [`Backend`](backend::Backend). Its contract is a state machine,
//! [`EngineModel`](engine::EngineModel); what follows from it over whole
//! command sequences is proved in [`laws`].
pub mod backend;
pub mod clock;
pub mod command;
pub mod controls;
pub mod engine;
pub mod error;
pub mod laws;
pub mod manager;
pub mod position;
pub mod songs;
