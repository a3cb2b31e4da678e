//! The FIFOs through which the daemon talks to the status bar, and the decisions that
//! make sure a FIFO stands at a path.
use vstd::prelude::*;

verus! {

/// The FIFOs that the daemon writes to.
#[derive(Clone, Copy, Debug, PartialEq, Eq)]
pub enum FifoFile {
    VolumeStatus,
}

impl FifoFile {
    pub open spec fn spec_file_path(self) -> Seq<char> {
        match self {
            FifoFile::VolumeStatus => "/tmp/volume-status.fifo"@,
        }
    }

    pub fn file_path(&self) -> (r: &'static str)
        ensures
            r@ == self.spec_file_path(),
    {
        match self {
            FifoFile::VolumeStatus => "/tmp/volume-status.fifo",
        }
    }
}

/// What was found at the path where a FIFO should stand.
#[derive(Clone, Copy, Debug, PartialEq, Eq)]
pub enum PathFound {
    /// Nothing is there.
    Missing,
    /// A FIFO is there.
    Fifo,
    /// Something that is not a FIFO is there.
    OtherFile,
    /// Something is there, but its metadata could not be read.
    Unreadable,
}

/// What to do to the path next.
#[derive(Clone, Copy, Debug, PartialEq, Eq)]
pub enum FifoStep {
    /// Nothing more.
    Done,
    /// Remove what is there.
    RemoveFile,
    /// Make a FIFO there.
    CreateFifo,
}

/// The first step once the path has been looked at: a missing FIFO is made, a FIFO is left
/// alone, anything else is removed first, and a path whose metadata cannot be read is left
/// alone.
pub fn first_fifo_step(found: PathFound) -> (step: FifoStep)
    ensures
        step == match found {
            PathFound::Missing => FifoStep::CreateFifo,
            PathFound::Fifo => FifoStep::Done,
            PathFound::OtherFile => FifoStep::RemoveFile,
            PathFound::Unreadable => FifoStep::Done,
        },
{
    match found {
        PathFound::Missing => FifoStep::CreateFifo,
        PathFound::Fifo => FifoStep::Done,
        PathFound::OtherFile => FifoStep::RemoveFile,
        PathFound::Unreadable => FifoStep::Done,
    }
}

/// The step after a removal: the FIFO is made where the removal worked; otherwise the
/// path is left as it is.
pub fn step_after_removal(removed: bool) -> (step: FifoStep)
    ensures
        step == (if removed {
            FifoStep::CreateFifo
        } else {
            FifoStep::Done
        }),
{
    if removed {
        FifoStep::CreateFifo
    } else {
        FifoStep::Done
    }
}

} // verus!
