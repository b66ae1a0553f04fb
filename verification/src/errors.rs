//! Error taxonomy: operating-system failures, structured SCSI command
//! failures, and payload parse failures are kept disjoint so that retry
//! logic and diagnostics can branch on them.

use vstd::prelude::*;

verus! {

/// Classification of an operating-system-level failure, mirroring the
/// distinctions the rest of the library relies on.
#[derive(Debug, Clone, Copy, PartialEq, Eq, Structural)]
pub enum IoErrorKind {
    /// A requested entity (drive, track) was not found.
    NotFound,
    /// A parameter was outside the accepted range.
    InvalidInput,
    /// Data was structurally invalid for the operation.
    InvalidData,
    /// The operation lacked the required permissions.
    PermissionDenied,
    /// The operation did not complete within its time budget.
    TimedOut,
    /// Any other transport or OS failure.
    Other,
}

/// An operating-system-level failure from open/submit/close.
#[derive(Debug, Clone)]
pub struct IoError {
    pub kind: IoErrorKind,
    pub message: String,
}

/// SCSI command groups issued by this library.
#[derive(Debug, Clone, Copy, PartialEq, Eq, Structural)]
pub enum ScsiOp {
    /// `READ TOC/PMA/ATIP` (opcode `0x43`) for TOC metadata.
    ReadToc,
    /// `READ CD` (opcode `0xBE`) for CD-DA sector payload.
    ReadCd,
    /// `READ SUB-CHANNEL` for Q-channel metadata.
    ReadSubChannel,
}

/// Structured SCSI failure context captured at the call site.
///
/// The command reached the device and was rejected; status and, when the
/// device returned fixed-format sense data, the sense triple are recorded.
#[derive(Debug, Clone)]
pub struct ScsiError {
    /// Operation that failed.
    pub op: ScsiOp,
    /// Starting logical block address of the failed command, when applicable.
    pub lba: Option<u32>,
    /// Sector count requested by the failed command, when applicable.
    pub sectors: Option<u32>,
    /// SCSI status byte reported by the device.
    pub scsi_status: u8,
    /// Sense key nibble from fixed-format sense data, if returned.
    pub sense_key: Option<u8>,
    /// Additional Sense Code, if available.
    pub asc: Option<u8>,
    /// Additional Sense Code Qualifier, if available.
    pub ascq: Option<u8>,
}

/// Top-level error type of the library.
#[derive(Debug, Clone)]
pub enum CdReaderError {
    /// OS/transport failure (open, ioctl-level submit, close).
    Io(IoError),
    /// Device reported a SCSI command failure with status/sense context.
    Scsi(ScsiError),
    /// Parsing failure for a command payload.
    Parse(String),
}

impl CdReaderError {
    /// Convenience constructor for an `Io` error.
    pub fn io(kind: IoErrorKind, message: String) -> (r: CdReaderError)
        ensures
            r matches CdReaderError::Io(e) && e.kind == kind && e.message == message,
    {
        CdReaderError::Io(IoError { kind, message })
    }
}

} // verus!
