[package]
name = "audio_decoder"
version = "0.1.0"
edition = "2021"
publish = false

[dependencies]
symphonia = { version = "=0.5.5", default-features = false, features = ["flac", "mp3", "ogg", "vorbis"] }
librespot-audio = "=0.8.0"
vergen = { version = "=9.0.6", default-features = false }
