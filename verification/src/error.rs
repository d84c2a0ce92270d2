//! The two ways in which a stream can be refused.

use vstd::prelude::*;

verus! {

/// Why a stream was refused.
#[derive(Clone, Copy, Debug, PartialEq, Eq, Structural)]
pub enum OpusSourceError {
    /// A packet of audio could not be read or could not be decoded. The end of
    /// the container and a damaged packet are not told apart.
    InvalidAudioStream,
    /// One of the two header packets could not be read or was malformed.
    InvalidHeaderData,
}

} // verus!
