pub mod audio_handler;
pub mod events;
pub mod fifo_helper;
pub mod handler;
pub mod state;
