use music_player::command::AudioCommand;
use music_player::engine::Engine;
use music_player::engine::Event;
use music_player::engine::Media;
use music_player::manager::AudioManager;
use rodio::Sink;
use std::time::Duration;

/// Handles queued commands until the engine terminates, as a worker does,
/// with no file to be read.
fn serve(engine: &mut Engine, inbox: &music_player::manager::CommandInbox) -> Vec<Event> {
    let mut events: Vec<Event> = Vec::new();
    while !engine.is_terminated() {
        let command: AudioCommand = inbox.next_command();
        match engine.handle(command, Media::Unread) {
            Ok(event) => events.push(event),
            Err(_) => {}
        }
    }
    events
}

#[test]
fn worker_handles_commands_in_order_until_shutdown() {
    let (manager, inbox) = AudioManager::new();
    let (sink, _output) = Sink::new();
    let mut engine = Engine::new(sink);
    manager.seek_to(Duration::from_millis(20_000));
    manager.seek_forward();
    manager.play();
    manager.pause();
    manager.stop();
    manager.seek_to(Duration::from_millis(7_000));
    manager.clone().shutdown();
    manager.play();
    let events = serve(&mut engine, &inbox);
    assert_eq!(
        events,
        vec![
            Event::Sought,
            Event::Sought,
            Event::Playing,
            Event::Paused,
            Event::Stopped,
            Event::Sought,
            Event::ShutDown,
        ]
    );
    assert_eq!(engine.tracker().accumulated_ms(), 7_000);
    assert!(!engine.is_playing());
    assert_eq!(inbox.next_command(), AudioCommand::Play);
}

#[test]
fn worker_ends_when_every_handle_is_dropped() {
    let (manager, inbox) = AudioManager::new();
    let (sink, _output) = Sink::new();
    let mut engine = Engine::new(sink);
    manager.play();
    drop(manager);
    let events = serve(&mut engine, &inbox);
    assert_eq!(events, vec![Event::Playing, Event::ShutDown]);
    assert!(engine.is_terminated());
}

#[test]
fn worker_ends_after_detach() {
    let (manager, inbox) = AudioManager::new();
    let (sink, _output) = Sink::new();
    let mut engine = Engine::new(sink);
    manager.play();
    manager.detach();
    let events = serve(&mut engine, &inbox);
    assert_eq!(events, vec![Event::Playing, Event::Finished]);
}

#[test]
fn failed_commands_do_not_stop_the_worker() {
    let (manager, inbox) = AudioManager::new();
    let (sink, _output) = Sink::new();
    let mut engine = Engine::new(sink);
    manager.load(String::from("missing.mp3"));
    manager.seek_backward();
    manager.seek_to(Duration::from_millis(1_000));
    manager.shutdown();
    let events = serve(&mut engine, &inbox);
    assert_eq!(events, vec![Event::Sought, Event::ShutDown]);
    assert_eq!(engine.tracker().accumulated_ms(), 1_000);
    assert_eq!(engine.current_track_path(), "");
}
