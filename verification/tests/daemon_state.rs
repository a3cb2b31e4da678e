use event_daemon::contracts::requests::event_request::EventRequest;
use event_daemon::contracts::responses::volume_response::VolumeResponse;
use event_daemon::controller::audio_controller::AudioOperation;
use event_daemon::controller::AudioError;
use event_daemon::daemon_core::audio_handler::{apply_event, event_operation};
use event_daemon::daemon_core::events::AudioEventType;
use event_daemon::daemon_core::fifo_helper::{first_fifo_step, step_after_removal, FifoFile, FifoStep, PathFound};
use event_daemon::daemon_core::handler;
use event_daemon::daemon_core::state::{ColorState, DaemonState, COLOR_HOLD_NANOS};
use event_daemon::events::{DaemonMessage, EventType};

#[test]
fn colors_wrap_text_in_markup() {
    assert_eq!(ColorState::Default.apply_color("50%"), "50%");
    assert_eq!(ColorState::Increased.apply_color("50%"), "%{F#00ff00}50%%{F-}");
    assert_eq!(ColorState::Decreased.apply_color("MUTED"), "%{F#ff0000}MUTED%{F-}");
    assert_eq!(ColorState::Increased.apply_color(""), "%{F#00ff00}%{F-}");
}

#[test]
fn color_names() {
    assert_eq!(ColorState::Default.name(), "Default");
    assert_eq!(ColorState::Increased.name(), "Increased");
    assert_eq!(ColorState::Decreased.name(), "Decreased");
}

#[test]
fn new_state_shows_na() {
    let s = DaemonState::new();
    assert_eq!(s.volume_state.color, ColorState::Default);
    assert_eq!(s.volume_state.last_event_time, None);
    assert_eq!(s.volume_display(), "NA");
}

#[test]
fn display_is_colored_volume() {
    let mut s = DaemonState::new();
    s.volume_state.volume = Some("35%".to_string());
    s.volume_state.color = ColorState::Decreased;
    assert_eq!(s.volume_display(), "%{F#ff0000}35%%{F-}");
    s.volume_state.volume = None;
    assert_eq!(s.volume_display(), "%{F#ff0000}NA%{F-}");
}

#[test]
fn color_cleared_after_a_second() {
    let mut s = DaemonState::new();
    s.volume_state.volume = Some("35%".to_string());
    s.volume_state.color = ColorState::Increased;
    s.volume_state.last_event_time = Some(1_000);
    s.clear_stale_color(1_000 + COLOR_HOLD_NANOS);
    assert_eq!(s.volume_state.color, ColorState::Increased);
    assert_eq!(s.volume_state.last_event_time, Some(1_000));
    s.clear_stale_color(1_001 + COLOR_HOLD_NANOS);
    assert_eq!(s.volume_state.color, ColorState::Default);
    assert_eq!(s.volume_state.last_event_time, None);
    assert_eq!(s.volume_state.volume, Some("35%".to_string()));
    s.clear_stale_color(u64::MAX);
    assert_eq!(s.volume_state.color, ColorState::Default);
}

#[test]
fn clock_going_back_keeps_color() {
    let mut s = DaemonState::new();
    s.volume_state.color = ColorState::Decreased;
    s.volume_state.last_event_time = Some(5 * COLOR_HOLD_NANOS);
    s.clear_stale_color(0);
    assert_eq!(s.volume_state.color, ColorState::Decreased);
    assert_eq!(s.volume_state.last_event_time, Some(5 * COLOR_HOLD_NANOS));
}

#[test]
fn events_map_to_operations() {
    let (op, c) = event_operation(AudioEventType::VolumeUp);
    assert!(matches!(op, AudioOperation::AdjustVolume(ref v) if v == "+5%"));
    assert_eq!(c, ColorState::Increased);
    let (op, c) = event_operation(AudioEventType::VolumeDown);
    assert!(matches!(op, AudioOperation::AdjustVolume(ref v) if v == "-5%"));
    assert_eq!(c, ColorState::Decreased);
    let (op, c) = event_operation(AudioEventType::MuteToggle);
    assert!(matches!(op, AudioOperation::ToggleMute));
    assert_eq!(c, ColorState::Default);
}

#[test]
fn success_is_recorded_with_color_and_time() {
    let mut s = DaemonState::new();
    apply_event(&mut s, Ok("55%".to_string()), ColorState::Increased, 42);
    assert_eq!(s.volume_state.volume, Some("55%".to_string()));
    assert_eq!(s.volume_state.color, ColorState::Increased);
    assert_eq!(s.volume_state.last_event_time, Some(42));
    assert_eq!(s.volume_display(), "%{F#00ff00}55%%{F-}");
}

#[test]
fn failure_is_recorded_as_na() {
    let mut s = DaemonState::new();
    s.volume_state.color = ColorState::Increased;
    s.volume_state.last_event_time = Some(7);
    apply_event(&mut s, Err(AudioError::BackendUnavailable), ColorState::Decreased, 42);
    assert_eq!(s.volume_state.volume, Some("NA".to_string()));
    assert_eq!(s.volume_state.color, ColorState::Default);
    assert_eq!(s.volume_state.last_event_time, None);
}

#[test]
fn status_line_after_event() {
    let mut s = DaemonState::new();
    let line = handler::apply_event(&mut s, Ok("MUTED".to_string()), ColorState::Default, 1);
    assert_eq!(line, "MUTED");
    let line = handler::apply_event(&mut s, Ok("60%".to_string()), ColorState::Decreased, 2);
    assert_eq!(line, "%{F#ff0000}60%%{F-}");
    let line = handler::apply_event(&mut s, Err(AudioError::ParseError("x".to_string())), ColorState::Decreased, 3);
    assert_eq!(line, "NA");
    assert_eq!(handler::status_line(&s), "NA");
}

#[test]
fn audio_event_names_round_trip() {
    for e in [AudioEventType::VolumeUp, AudioEventType::VolumeDown, AudioEventType::MuteToggle] {
        assert_eq!(AudioEventType::parse(e.name()), Some(e));
    }
    assert_eq!(AudioEventType::VolumeUp.name(), "VolumeUp");
    assert_eq!(AudioEventType::parse("volumeup"), None);
    assert_eq!(AudioEventType::parse("VolumeUp\n"), None);
    assert_eq!(AudioEventType::parse(""), None);
}

#[test]
fn event_type_names_round_trip() {
    for e in [EventType::VolumeUp, EventType::VolumeDown, EventType::MuteToggle] {
        assert_eq!(EventType::parse(e.name()), Some(e));
    }
    assert_eq!(EventType::MuteToggle.name(), "MuteToggle");
    assert_eq!(EventType::parse("Mute"), None);
    let m = DaemonMessage::Event(EventType::VolumeDown);
    assert!(matches!(m, DaemonMessage::Event(EventType::VolumeDown)));
    assert!(!matches!(DaemonMessage::ClearColor, DaemonMessage::Event(_)));
}

#[test]
fn request_and_response_bodies() {
    let r = EventRequest { event: AudioEventType::MuteToggle };
    assert_eq!(r.event, AudioEventType::MuteToggle);
    let v = VolumeResponse { volume: "10%".to_string() };
    assert_eq!(v.volume, "10%");
}

#[test]
fn status_fifo_path() {
    assert_eq!(FifoFile::VolumeStatus.file_path(), "/tmp/volume-status.fifo");
}

#[test]
fn fifo_setup_steps() {
    assert_eq!(first_fifo_step(PathFound::Missing), FifoStep::CreateFifo);
    assert_eq!(first_fifo_step(PathFound::Fifo), FifoStep::Done);
    assert_eq!(first_fifo_step(PathFound::OtherFile), FifoStep::RemoveFile);
    assert_eq!(first_fifo_step(PathFound::Unreadable), FifoStep::Done);
    assert_eq!(step_after_removal(true), FifoStep::CreateFifo);
    assert_eq!(step_after_removal(false), FifoStep::Done);
}

#[test]
fn handled_request_marks_time_after_failure() {
    let mut s = DaemonState::new();
    apply_event(&mut s, Err(AudioError::BackendUnavailable), ColorState::Increased, 3);
    s.mark_event_time(4);
    assert_eq!(s.volume_state.last_event_time, Some(4));
    assert_eq!(s.volume_state.color, ColorState::Default);
    assert_eq!(s.volume_state.volume, Some("NA".to_string()));
}
