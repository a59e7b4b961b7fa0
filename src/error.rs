//! What a failed measurement reports.
use vstd::prelude::*;

use crate::duration::Duration;

verus! {

/// An I/O fault of std, carried opaquely inside `ErrorKind::IOError`.
#[verifier::external_type_specification]
#[verifier::external_body]
pub struct ExIoError(std::io::Error);

/// Why a measurement failed.
#[derive(Debug)]
pub enum ErrorKind {
    /// The reserved MPEG version code `01`.
    ForbiddenVersion,
    /// The reserved MPEG layer code `00`.
    ForbiddenLayer,
    /// A reserved bitrate code, given as read.
    InvalidBitrate { bitrate: u8 },
    /// The reserved sampling-rate code, given as read.
    InvalidSamplingRate { sampling_rate: u8 },
    /// A block that is neither an audio frame nor a known tag, with its first
    /// four bytes read as a big-endian integer.
    UnexpectedFrame { header: u32 },
    /// The stream ended inside a block.
    UnexpectedEOF,
    /// An audio frame shorter than its own header, side information and tag
    /// probe.
    MPEGFrameTooShort,
    /// A fault of the byte source other than its end.
    IOError(std::io::Error),
}

/// A failed measurement: the reason, the number of bytes consumed when it
/// happened, and the duration of the complete frames measured before it.
#[derive(Debug)]
pub struct MP3DurationError {
    pub kind: ErrorKind,
    pub offset: usize,
    pub at_duration: Duration,
}

/// `r` is a failure of kind `kind` at `offset`, after `at` of measured audio.
pub open spec fn is_failure<T>(
    r: Result<T, MP3DurationError>,
    kind: ErrorKind,
    offset: int,
    at: Duration,
) -> bool {
    r matches Err(e) && e.kind == kind && e.offset == offset && e.at_duration == at
}

} // verus!
