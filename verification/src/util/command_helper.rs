//! The commands that the controllers ask to run, and how a finished run is read.
use crate::controller::audio_controller::{AudioError, AudioErrorView};
use vstd::prelude::*;

verus! {

/// The program that a command runs.
#[derive(Clone, Copy, Debug, PartialEq, Eq)]
pub enum AudioProgramType {
    Pactl,
    Amixer,
}

impl AudioProgramType {
    pub open spec fn spec_name(self) -> Seq<char> {
        match self {
            AudioProgramType::Pactl => "pactl"@,
            AudioProgramType::Amixer => "amixer"@,
        }
    }

    /// The name under which the program is started.
    pub fn name(&self) -> (r: &'static str)
        ensures
            r@ == self.spec_name(),
    {
        match self {
            AudioProgramType::Pactl => "pactl",
            AudioProgramType::Amixer => "amixer",
        }
    }
}

/// A program together with its arguments.
pub struct AudioCommand {
    pub program: AudioProgramType,
    pub args: Vec<String>,
}

pub struct AudioCommandView {
    pub program: AudioProgramType,
    pub args: Seq<Seq<char>>,
}

impl View for AudioCommand {
    type V = AudioCommandView;

    open spec fn view(&self) -> AudioCommandView {
        AudioCommandView { program: self.program, args: self.args@.map_values(|a: String| a@) }
    }
}

/// What running a command gave: the exit status and the captured output, or the
/// error that kept the program from starting.
pub enum CommandOutcome {
    Exited { success: bool, stdout: Vec<u8>, stderr: Vec<u8> },
    NotStarted(std::io::Error),
}

pub enum CommandOutcomeView {
    Exited { success: bool, stdout: Seq<u8>, stderr: Seq<u8> },
    NotStarted(std::io::Error),
}

impl View for CommandOutcome {
    type V = CommandOutcomeView;

    open spec fn view(&self) -> CommandOutcomeView {
        match self {
            CommandOutcome::Exited { success, stdout, stderr } => CommandOutcomeView::Exited {
                success: *success,
                stdout: stdout@,
                stderr: stderr@,
            },
            CommandOutcome::NotStarted(e) => CommandOutcomeView::NotStarted(*e),
        }
    }
}

/// The text that `String::from_utf8_lossy` makes of some bytes.
pub uninterp spec fn utf8_lossy(bytes: Seq<u8>) -> Seq<char>;

/// Calls `String::from_utf8_lossy`. Its result is named; as std documents, bytes that are
/// valid UTF-8 come back as the text they encode. What it makes of invalid bytes (each
/// invalid sequence becomes U+FFFD) is left to the name.
#[verifier::external_body]
pub(crate) fn text_from_bytes_lossy(bytes: &[u8]) -> (s: String)
    ensures
        s@ == utf8_lossy(bytes@),
        vstd::utf8::valid_utf8(bytes@) ==> s@ == vstd::utf8::decode_utf8(bytes@),
{
    String::from_utf8_lossy(bytes).into_owned()
}

/// What a finished run means to a controller: its standard output when the program
/// succeeded, else the failure.
pub open spec fn command_result_view(outcome: CommandOutcomeView) -> Result<Seq<char>, AudioErrorView> {
    match outcome {
        CommandOutcomeView::Exited { success, stdout, stderr } => if success {
            Ok(utf8_lossy(stdout))
        } else {
            Err(AudioErrorView::CommandFailed(utf8_lossy(stderr)))
        },
        CommandOutcomeView::NotStarted(e) => Err(AudioErrorView::Io(e)),
    }
}

pub open spec fn result_view(r: Result<String, AudioError>) -> Result<Seq<char>, AudioErrorView> {
    match r {
        Ok(s) => Ok(s@),
        Err(e) => Err(e@),
    }
}

/// Reads a finished run of an audio command: the standard output of a successful run,
/// `CommandFailed` with the standard error of a failed one, `Io` when it did not start.
pub fn command_result(outcome: CommandOutcome) -> (r: Result<String, AudioError>)
    ensures
        result_view(r) == command_result_view(outcome@),
{
    match outcome {
        CommandOutcome::Exited { success, stdout, stderr } => {
            if success {
                Ok(text_from_bytes_lossy(stdout.as_slice()))
            } else {
                Err(AudioError::CommandFailed(text_from_bytes_lossy(stderr.as_slice())))
            }
        },
        CommandOutcome::NotStarted(e) => Err(AudioError::Io(e)),
    }
}


/// A finished run reads as the text printed on standard output when the program succeeded,
/// as `CommandFailed` with the text printed on standard error when it failed, and as `Io`
/// with the start error when it did not start.
pub proof fn lemma_command_result_meaning(o: CommandOutcomeView)
    ensures
        o matches CommandOutcomeView::Exited { success: true, stdout, .. } ==> command_result_view(o)
            == Ok::<Seq<char>, AudioErrorView>(utf8_lossy(stdout)),
        o matches CommandOutcomeView::Exited { success: false, stderr, .. } ==> command_result_view(o)
            == Err::<Seq<char>, AudioErrorView>(AudioErrorView::CommandFailed(utf8_lossy(stderr))),
        o matches CommandOutcomeView::NotStarted(e) ==> command_result_view(o) == Err::<
            Seq<char>,
            AudioErrorView,
        >(AudioErrorView::Io(e)),
{
}

/// The programs are started as `pactl` and `amixer`.
pub proof fn lemma_program_names()
    ensures
        AudioProgramType::Pactl.spec_name() == "pactl"@,
        AudioProgramType::Amixer.spec_name() == "amixer"@,
{
}

} // verus!
