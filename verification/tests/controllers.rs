use event_daemon::controller::audio_controller::{AudioOperation, ControllerAction};
use event_daemon::controller::{
    AmixerController, AudioController, AudioError, FallbackController, PactlController,
};
use event_daemon::fallback_backend::FallbackBackend;
use event_daemon::util::command_helper::{command_result, AudioProgramType, CommandOutcome};

/// Runs `op` on `c`, answering the commands it asks for with `outcomes` in order; gives the
/// commands asked for (program name and arguments) and the result.
fn drive<C: AudioController>(
    c: &C,
    op: AudioOperation,
    outcomes: Vec<CommandOutcome>,
) -> (Vec<String>, Result<String, AudioError>) {
    let mut asked: Vec<String> = Vec::new();
    let mut outcomes = outcomes.into_iter();
    let (mut progress, mut action) = c.start(&op);
    loop {
        match action {
            ControllerAction::Finish(r) => {
                assert!(outcomes.next().is_none(), "outcomes left over");
                return (asked, r);
            }
            ControllerAction::Run(cmd) => {
                asked.push(format!("{} {}", cmd.program.name(), cmd.args.join(" ")));
                let outcome = outcomes.next().expect("more commands than outcomes");
                let (p, a) = c.resume(&op, progress, outcome);
                progress = p;
                action = a;
            }
        }
    }
}

fn ok(stdout: &str) -> CommandOutcome {
    CommandOutcome::Exited { success: true, stdout: stdout.as_bytes().to_vec(), stderr: Vec::new() }
}

fn failed(stderr: &str) -> CommandOutcome {
    CommandOutcome::Exited { success: false, stdout: Vec::new(), stderr: stderr.as_bytes().to_vec() }
}

fn not_started() -> CommandOutcome {
    CommandOutcome::NotStarted(std::io::Error::new(std::io::ErrorKind::NotFound, "no such program"))
}

const PACTL_VOLUME: &str = "Volume: front-left: 32768 /  50% / -18.06 dB,   front-right: 32768 /  50% / -18.06 dB\n";
const AMIXER_VOLUME: &str = "Simple mixer control 'Master',0\n  Mono: Playback 31 [63%] [-2.00dB] [on]\n";

#[test]
fn pactl_adjust_volume_then_reads_volume() {
    let (asked, r) = drive(
        &PactlController,
        AudioOperation::AdjustVolume("+5%".to_string()),
        vec![ok(""), ok(PACTL_VOLUME)],
    );
    assert_eq!(asked, vec!["pactl set-sink-volume @DEFAULT_SINK@ +5%", "pactl get-sink-volume @DEFAULT_SINK@"]);
    assert_eq!(r.unwrap(), "50%");
}

#[test]
fn pactl_adjust_failure_is_reported() {
    let (asked, r) = drive(
        &PactlController,
        AudioOperation::AdjustVolume("-5%".to_string()),
        vec![failed("Connection failure")],
    );
    assert_eq!(asked.len(), 1);
    assert!(matches!(r, Err(AudioError::CommandFailed(ref s)) if s == "Connection failure"));
}

#[test]
fn pactl_not_started_is_io_error() {
    let (_, r) = drive(&PactlController, AudioOperation::GetCurrentVolume, vec![not_started()]);
    assert!(matches!(r, Err(AudioError::Io(ref e)) if e.kind() == std::io::ErrorKind::NotFound));
}

#[test]
fn pactl_volume_without_percent_is_parse_error() {
    let (asked, r) = drive(&PactlController, AudioOperation::GetCurrentVolume, vec![ok("Volume: n/a\n")]);
    assert_eq!(asked, vec!["pactl get-sink-volume @DEFAULT_SINK@"]);
    assert!(matches!(r, Err(AudioError::ParseError(ref s)) if s == "Could not find volume percentage"));
}

#[test]
fn pactl_toggle_mute_reports_muted() {
    let (asked, r) = drive(&PactlController, AudioOperation::ToggleMute, vec![ok(""), ok("Mute: yes\n")]);
    assert_eq!(asked, vec!["pactl set-sink-mute @DEFAULT_SINK@ toggle", "pactl get-sink-mute @DEFAULT_SINK@"]);
    assert_eq!(r.unwrap(), "MUTED");
}

#[test]
fn pactl_toggle_unmute_reports_volume() {
    let (asked, r) = drive(
        &PactlController,
        AudioOperation::ToggleMute,
        vec![ok(""), ok("Mute: no\n"), ok(PACTL_VOLUME)],
    );
    assert_eq!(asked.len(), 3);
    assert_eq!(asked[2], "pactl get-sink-volume @DEFAULT_SINK@");
    assert_eq!(r.unwrap(), "50%");
}

#[test]
fn pactl_mute_query_failure_is_reported() {
    let (_, r) = drive(&PactlController, AudioOperation::ToggleMute, vec![ok(""), failed("x")]);
    assert!(matches!(r, Err(AudioError::CommandFailed(ref s)) if s == "x"));
}

#[test]
fn amixer_adjust_volume_then_reads_volume() {
    let (asked, r) = drive(
        &AmixerController,
        AudioOperation::AdjustVolume("+5%".to_string()),
        vec![ok(""), ok(AMIXER_VOLUME)],
    );
    assert_eq!(asked, vec!["amixer Master +5%", "amixer get Master"]);
    assert_eq!(r.unwrap(), "63%");
}

#[test]
fn amixer_toggle_mute_commands() {
    let (asked, r) = drive(&AmixerController, AudioOperation::ToggleMute, vec![ok(""), ok("yes")]);
    assert_eq!(asked, vec!["amixer set-sink-mute @DEFAULT_SINK@ toggle", "amixer get-sink-mute @DEFAULT_SINK@"]);
    assert_eq!(r.unwrap(), "MUTED");
}

#[test]
fn amixer_volume_without_percent_is_parse_error() {
    let (_, r) = drive(&AmixerController, AudioOperation::GetCurrentVolume, vec![ok("Mono: [on]\n")]);
    assert!(matches!(r, Err(AudioError::ParseError(_))));
}

fn both() -> FallbackController<PactlController, AmixerController> {
    FallbackController { primary: PactlController, fallback: AmixerController }
}

#[test]
fn fallback_primary_success_never_asks_fallback() {
    let (asked, r) = drive(&both(), AudioOperation::GetCurrentVolume, vec![ok(PACTL_VOLUME)]);
    assert_eq!(asked, vec!["pactl get-sink-volume @DEFAULT_SINK@"]);
    assert_eq!(r.unwrap(), "50%");
}

#[test]
fn fallback_used_after_primary_failure() {
    let (asked, r) = drive(
        &both(),
        AudioOperation::AdjustVolume("-5%".to_string()),
        vec![not_started(), ok(""), ok(AMIXER_VOLUME)],
    );
    assert_eq!(
        asked,
        vec!["pactl set-sink-volume @DEFAULT_SINK@ -5%", "amixer Master -5%", "amixer get Master"]
    );
    assert_eq!(r.unwrap(), "63%");
}

#[test]
fn fallback_reports_both_errors() {
    let (asked, r) = drive(
        &both(),
        AudioOperation::ToggleMute,
        vec![ok(""), failed("first"), failed("second")],
    );
    assert_eq!(asked.len(), 3);
    match r {
        Err(AudioError::BothFailed { primary, secondary }) => {
            assert!(matches!(*primary, AudioError::CommandFailed(ref s) if s == "first"));
            assert!(matches!(*secondary, AudioError::CommandFailed(ref s) if s == "second"));
        }
        other => panic!("unexpected {:?}", other),
    }
}

#[test]
fn nested_fallbacks_combine() {
    let c = FallbackController { primary: both(), fallback: PactlController };
    let (asked, r) = drive(
        &c,
        AudioOperation::GetCurrentVolume,
        vec![failed("a"), failed("b"), ok(PACTL_VOLUME)],
    );
    assert_eq!(asked.len(), 3);
    assert_eq!(r.unwrap(), "50%");
}

#[test]
fn fallback_backend_acts_like_fallback_controller() {
    let b = FallbackBackend { primary: PactlController, fallback: AmixerController };
    let (asked, r) = drive(&b, AudioOperation::GetCurrentVolume, vec![failed("p"), ok(AMIXER_VOLUME)]);
    assert_eq!(asked, vec!["pactl get-sink-volume @DEFAULT_SINK@", "amixer get Master"]);
    assert_eq!(r.unwrap(), "63%");
    let (_, r) = drive(&b, AudioOperation::GetCurrentVolume, vec![failed("p"), failed("a")]);
    assert!(matches!(r, Err(AudioError::BothFailed { .. })));
}

#[test]
fn resume_after_both_failed_is_unavailable() {
    let c = both();
    let op = AudioOperation::GetCurrentVolume;
    let (p, _) = c.start(&op);
    let (p, _) = c.resume(&op, p, failed("a"));
    let (p, a) = c.resume(&op, p, failed("b"));
    assert!(matches!(a, ControllerAction::Finish(Err(AudioError::BothFailed { .. }))));
    let (_, a) = c.resume(&op, p, ok(""));
    assert!(matches!(a, ControllerAction::Finish(Err(AudioError::BackendUnavailable))));
}

#[test]
fn command_result_reads_outcomes() {
    assert_eq!(command_result(ok("out")).unwrap(), "out");
    assert!(matches!(command_result(failed("err")), Err(AudioError::CommandFailed(ref s)) if s == "err"));
    assert!(matches!(command_result(not_started()), Err(AudioError::Io(_))));
}

#[test]
fn command_output_is_decoded_lossily() {
    let outcome = CommandOutcome::Exited { success: false, stdout: Vec::new(), stderr: vec![b'a', 0xff, b'b'] };
    assert!(matches!(command_result(outcome), Err(AudioError::CommandFailed(ref s)) if s == "a\u{FFFD}b"));
    let outcome = CommandOutcome::Exited { success: true, stdout: "é".as_bytes().to_vec(), stderr: Vec::new() };
    assert_eq!(command_result(outcome).unwrap(), "é");
}

#[test]
fn program_names() {
    assert_eq!(AudioProgramType::Pactl.name(), "pactl");
    assert_eq!(AudioProgramType::Amixer.name(), "amixer");
}
