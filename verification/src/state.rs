//! A daemon state that holds the volume as a number of percent.
use vstd::prelude::*;

verus! {

#[derive(Clone, Copy, Debug, PartialEq, Eq)]
pub enum ColorState {
    Default,
    Increased,
    Decreased,
}

/// The last volume as a number of percent, its colour, and when the last event was handled
/// (in nanoseconds on the daemon's monotonic clock).
pub struct VolumeState {
    pub color: ColorState,
    pub last_event_time: Option<u64>,
    pub volume: Option<u8>,
}

pub struct DaemonState {
    pub volume_state: VolumeState,
}

} // verus!
