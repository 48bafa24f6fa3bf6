[package]
name = "music_player"
version = "0.1.0"
edition = "2021"
publish = false

[dependencies]
rodio = { version = "=0.21.1", default-features = false, features = ["flac", "mp3", "vorbis", "wav"] }
log = "0.4"
env_logger = "0.11"
id3 = "1"
