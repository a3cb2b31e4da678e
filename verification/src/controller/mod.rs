pub mod amixer_controller;
pub mod audio_controller;
pub mod fallback_controller;
pub mod pactl_controller;
pub mod program_controller;
pub mod program_laws;

pub use amixer_controller::AmixerController;
pub use audio_controller::{AudioController, AudioError};
pub use fallback_controller::FallbackController;
pub use pactl_controller::PactlController;
