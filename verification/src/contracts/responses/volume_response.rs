//! The body of an answer that reports the volume.
use vstd::prelude::*;

verus! {

/// An answer that reports `volume`.
pub struct VolumeResponse {
    pub volume: String,
}

} // verus!
