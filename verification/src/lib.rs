//! Decision logic of a daemon that changes the audio volume on request, with `pactl`
//! or `amixer` as the program that does the work.
pub mod contracts;
pub mod controller;
pub mod daemon_core;
pub mod events;
pub mod fallback_backend;
pub mod handler;
pub mod state;
pub mod util;
