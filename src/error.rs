//! Failures that the session core reports.

use vstd::prelude::*;

verus! {

/// What can go wrong while building or driving a session.
#[derive(Clone, Copy, Debug, PartialEq, Eq, Structural)]
pub enum Error {
    /// An artifact file does not have the length its kind requires.
    ArtifactSizeMismatch,
    /// An artifact file could not be opened or read.
    ArtifactUnreadable,
    /// An artifact's content was rejected by the recogniser.
    ArtifactUnrecognized,
    /// No accepted firmware image was found.
    FirmwareNotFound,
    /// The machine state could not be written out.
    EncodeError,
    /// A savestate buffer could not be read back.
    DecodeError,
    /// The host refused the video format.
    HostRejectedFormat,
    /// A clock field has no two-digit BCD form.
    BcdRangeViolation,
}

} // verus!
