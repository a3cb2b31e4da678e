use event_daemon::daemon_core::state::{ColorState, DaemonState};
use event_daemon::events::EventType;
use event_daemon::handler::{finish_event, handler_resume, handler_start, HandlerAction};
use event_daemon::util::command_helper::CommandOutcome;

fn drive(event: EventType, outcomes: Vec<CommandOutcome>) -> (Vec<String>, String) {
    let mut asked: Vec<String> = Vec::new();
    let mut outcomes = outcomes.into_iter();
    let (mut step, mut action) = handler_start(event);
    loop {
        match action {
            HandlerAction::Finish(v) => {
                assert!(outcomes.next().is_none(), "outcomes left over");
                return (asked, v);
            }
            HandlerAction::Run(cmd) => {
                asked.push(format!("{} {}", cmd.program.name(), cmd.args.join(" ")));
                let o = outcomes.next().expect("more commands than outcomes");
                let (s, a) = handler_resume(event, step, o);
                step = s;
                action = a;
            }
        }
    }
}

fn ok(stdout: &str) -> CommandOutcome {
    CommandOutcome::Exited { success: true, stdout: stdout.as_bytes().to_vec(), stderr: Vec::new() }
}

fn exited_failed(stdout: &str) -> CommandOutcome {
    CommandOutcome::Exited { success: false, stdout: stdout.as_bytes().to_vec(), stderr: b"err".to_vec() }
}

fn not_started() -> CommandOutcome {
    CommandOutcome::NotStarted(std::io::Error::new(std::io::ErrorKind::NotFound, "missing"))
}

#[test]
fn volume_up_with_pactl() {
    let (asked, v) = drive(EventType::VolumeUp, vec![ok(""), ok("front-left: 1 / 45% / x")]);
    assert_eq!(asked, vec!["pactl set-sink-volume @DEFAULT_SINK@ +5%", "pactl get-sink-volume @DEFAULT_SINK@"]);
    assert_eq!(v, "45%");
}

#[test]
fn volume_down_falls_back_to_amixer() {
    let (asked, v) = drive(
        EventType::VolumeDown,
        vec![exited_failed(""), ok(""), not_started(), ok("Mono: [30%] [on]\n")],
    );
    assert_eq!(
        asked,
        vec![
            "pactl set-sink-volume @DEFAULT_SINK@ -5%",
            "amixer set Master -5%",
            "pactl get-sink-volume @DEFAULT_SINK@",
            "amixer get Master"
        ]
    );
    assert_eq!(v, "30%");
}

#[test]
fn pactl_volume_read_even_from_failed_run() {
    let (_, v) = drive(EventType::VolumeUp, vec![ok(""), exited_failed("40%")]);
    assert_eq!(v, "40%");
}

#[test]
fn unreadable_volume_is_na() {
    let (asked, v) = drive(EventType::VolumeUp, vec![not_started(), not_started(), not_started(), not_started()]);
    assert_eq!(asked.len(), 4);
    assert_eq!(v, "NA");
    let (_, v) = drive(EventType::VolumeUp, vec![ok(""), ok("no volume"), ok("no volume either")]);
    assert_eq!(v, "NA");
}

#[test]
fn mute_toggle_reports_muted() {
    let (asked, v) = drive(EventType::MuteToggle, vec![ok(""), ok("Mute: yes")]);
    assert_eq!(asked, vec!["pactl set-sink-mute @DEFAULT_SINK@ toggle", "pactl get-sink-mute @DEFAULT_SINK@"]);
    assert_eq!(v, "MUTED");
}

#[test]
fn mute_toggle_retried_once_with_pactl() {
    let (asked, v) = drive(
        EventType::MuteToggle,
        vec![not_started(), ok(""), ok("Mute: no"), ok("50%")],
    );
    assert_eq!(
        asked,
        vec![
            "pactl set-sink-mute @DEFAULT_SINK@ toggle",
            "pactl set-sink-mute @DEFAULT_SINK@ toggle",
            "pactl get-sink-mute @DEFAULT_SINK@",
            "pactl get-sink-volume @DEFAULT_SINK@"
        ]
    );
    assert_eq!(v, "50%");
}

#[test]
fn mute_state_failure_is_na() {
    let (_, v) = drive(EventType::MuteToggle, vec![ok(""), exited_failed("Mute: yes")]);
    assert_eq!(v, "NA");
    let (_, v) = drive(EventType::MuteToggle, vec![ok(""), not_started()]);
    assert_eq!(v, "NA");
}

#[test]
fn finished_event_is_recorded() {
    let mut s = DaemonState::new();
    let line = finish_event(&mut s, EventType::VolumeUp, "45%".to_string(), 9);
    assert_eq!(line, "%{F#00ff00}45%%{F-}");
    assert_eq!(s.volume_state.volume, Some("45%".to_string()));
    assert_eq!(s.volume_state.color, ColorState::Increased);
    assert_eq!(s.volume_state.last_event_time, Some(9));
    let line = finish_event(&mut s, EventType::MuteToggle, "NA".to_string(), 10);
    assert_eq!(line, "NA");
    assert_eq!(s.volume_state.color, ColorState::Default);
}
