//! Handling of an event that also reports the new volume on the status FIFO.
use crate::controller::audio_controller::AudioError;
use crate::daemon_core::audio_handler;
use crate::daemon_core::state::{opt_volume, ColorState, DaemonState};
use crate::util::command_helper::result_view;
use vstd::prelude::*;

verus! {

/// Records the controller's result as `audio_handler::apply_event` does, and gives the line
/// to write to the status FIFO: the recorded volume in the recorded colour.
pub fn apply_event(
    state: &mut DaemonState,
    result: Result<String, AudioError>,
    color: ColorState,
    now: u64,
) -> (line: String)
    ensures
        audio_handler::event_recorded(final(state).volume_state, result_view(result), color, now),
        line@ == match result_view(result) {
            Ok(v) => color.colored(v),
            Err(_) => "NA"@,
        },
{
    audio_handler::apply_event(state, result, color, now);
    status_line(state)
}

/// The status line of a state that holds a volume: that volume in the state's colour.
pub fn status_line(state: &DaemonState) -> (line: String)
    requires
        state.volume_state.volume is Some,
    ensures
        opt_volume(state.volume_state.volume) matches Some(v) && line@ == state.volume_state.color.colored(v),
{
    match &state.volume_state.volume {
        Some(v) => state.volume_state.color.apply_color(v.as_str()),
        None => String::new(),
    }
}

} // verus!
