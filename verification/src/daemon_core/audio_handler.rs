//! What an audio event asks of the controller, and how its result changes the state.
use crate::controller::audio_controller::{AudioError, AudioErrorView, AudioOperation, AudioOperationView};
use crate::daemon_core::events::AudioEventType;
use crate::daemon_core::state::{
    opt_volume, stale_color_cleared, volume_display_text, ColorState, DaemonState,
    VolumeState,
};
use crate::util::command_helper::result_view;
use vstd::prelude::*;

verus! {

/// The step by which volume events change the volume.
pub open spec fn volume_step(event: AudioEventType) -> Seq<char> {
    match event {
        AudioEventType::VolumeUp => "+5%"@,
        AudioEventType::VolumeDown => "-5%"@,
        AudioEventType::MuteToggle => Seq::empty(),
    }
}

/// The operation that an event asks of the controller, and the colour its result is shown in.
pub open spec fn event_plan(event: AudioEventType) -> (AudioOperationView, ColorState) {
    match event {
        AudioEventType::VolumeUp => (
            AudioOperationView::AdjustVolume(volume_step(event)),
            ColorState::Increased,
        ),
        AudioEventType::VolumeDown => (
            AudioOperationView::AdjustVolume(volume_step(event)),
            ColorState::Decreased,
        ),
        AudioEventType::MuteToggle => (AudioOperationView::ToggleMute, ColorState::Default),
    }
}

/// A volume up raises the volume by 5% and is shown in the increase colour, a volume
/// down lowers it by 5% and is shown in the decrease colour, and a mute toggle toggles the
/// mute state and is shown uncoloured.
pub fn event_operation(event: AudioEventType) -> (r: (AudioOperation, ColorState))
    ensures
        (r.0@, r.1) == event_plan(event),
{
    match event {
        AudioEventType::VolumeUp => (
            AudioOperation::AdjustVolume(String::from_str("+5%")),
            ColorState::Increased,
        ),
        AudioEventType::VolumeDown => (
            AudioOperation::AdjustVolume(String::from_str("-5%")),
            ColorState::Decreased,
        ),
        AudioEventType::MuteToggle => (AudioOperation::ToggleMute, ColorState::Default),
    }
}

/// `after` records `result`, shown in `color`, of an event handled at `now`: on success the
/// volume, the colour and the time; on failure `NA`, uncoloured, with no event time.
pub open spec fn event_recorded(
    after: VolumeState,
    result: Result<Seq<char>, AudioErrorView>,
    color: ColorState,
    now: u64,
) -> bool {
    match result {
        Ok(v) => {
            &&& opt_volume(after.volume) == Some(v)
            &&& after.color == color
            &&& after.last_event_time == Some(now)
        },
        Err(_) => {
            &&& opt_volume(after.volume) == Some("NA"@)
            &&& after.color == ColorState::Default
            &&& after.last_event_time is None
        },
    }
}

/// Records the controller's result of an event handled at `now`: on success the volume,
/// the event's colour and the time; on failure `NA`, uncoloured, with no event time.
pub fn apply_event(
    state: &mut DaemonState,
    result: Result<String, AudioError>,
    color: ColorState,
    now: u64,
)
    ensures
        event_recorded(final(state).volume_state, result_view(result), color, now),
{
    match result {
        Ok(vol) => {
            state.volume_state.volume = Some(vol);
            state.volume_state.color = color;
            state.volume_state.last_event_time = Some(now);
        },
        Err(_) => {
            state.volume_state.volume = Some(String::from_str("NA"));
            state.volume_state.color = ColorState::Default;
            state.volume_state.last_event_time = None;
        },
    }
}

/// After an event the volume endpoint answers the event's volume in the event's colour,
/// or `NA`, uncoloured, when the controller failed.
pub proof fn lemma_display_after_event(
    after: VolumeState,
    result: Result<Seq<char>, AudioErrorView>,
    color: ColorState,
    now: u64,
)
    requires
        event_recorded(after, result, color, now),
    ensures
        volume_display_text(after.color, opt_volume(after.volume)) == match result {
            Ok(v) => color.colored(v),
            Err(_) => "NA"@,
        },
{
}

/// The colour of a successful event lasts one second: the reset leaves it while no more
/// than a second has passed, and clears it, keeping the volume, once more has.
pub proof fn lemma_color_lasts_one_second(
    after: VolumeState,
    v: Seq<char>,
    color: ColorState,
    handled: u64,
    now: u64,
)
    requires
        event_recorded(after, Ok(v), color, handled),
    ensures
        opt_volume(stale_color_cleared(after, now).volume) == Some(v),
        now <= handled || now - handled <= 1_000_000_000 ==> stale_color_cleared(after, now).color
            == color,
        now > handled && now - handled > 1_000_000_000 ==> stale_color_cleared(after, now).color
            == ColorState::Default && stale_color_cleared(after, now).last_event_time is None,
{
}

/// A failed event leaves nothing for the reset to clear.
pub proof fn lemma_failure_leaves_nothing_to_clear(
    after: VolumeState,
    e: AudioErrorView,
    color: ColorState,
    handled: u64,
    now: u64,
)
    requires
        event_recorded(after, Err(e), color, handled),
    ensures
        stale_color_cleared(after, now) == after,
{
}


/// A volume up asks for a change of `+5%` shown in the increase colour, a volume down for a
/// change of `-5%` shown in the decrease colour, and a mute toggle for a toggle shown
/// uncoloured.
pub proof fn lemma_event_requests()
    ensures
        event_plan(AudioEventType::VolumeUp) == (AudioOperationView::AdjustVolume("+5%"@), ColorState::Increased),
        event_plan(AudioEventType::VolumeDown) == (AudioOperationView::AdjustVolume("-5%"@), ColorState::Decreased),
        event_plan(AudioEventType::MuteToggle) == (AudioOperationView::ToggleMute, ColorState::Default),
{
}

/// What a recorded event leaves in the state: on success the volume, the requested colour
/// and the time of the event; on failure `NA`, the default colour and no event time, whatever
/// colour was requested.
pub proof fn lemma_recorded_event(
    after: VolumeState,
    result: Result<Seq<char>, AudioErrorView>,
    color: ColorState,
    now: u64,
)
    requires
        event_recorded(after, result, color, now),
    ensures
        result is Ok ==> after.volume is Some && after.volume->0@ == result->Ok_0 && after.color == color
            && after.last_event_time == Some(now),
        result is Err ==> after.volume is Some && after.volume->0@ == "NA"@ && after.color
            == ColorState::Default && after.last_event_time is None,
{
}

} // verus!
