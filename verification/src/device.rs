//! The platform device adapter: the single seam between the verified
//! library and the operating system.
//!
//! Every SCSI command the library issues goes through [`DeviceAdapter`],
//! and so does every inter-retry sleep. Backends realize the trait with
//! their platform's pass-through interface; test doubles realize it with
//! scripted outcomes. The trait promises nothing: all library contracts
//! hold for whatever an implementation returns.

use vstd::prelude::*;

use crate::errors::IoError;

verus! {

/// Direction of the data phase of a submitted command.
#[derive(Debug, Clone, Copy, PartialEq, Eq, Structural)]
pub enum TransferDirection {
    /// Device to host.
    FromDevice,
    /// Host to device.
    ToDevice,
    /// No data phase.
    NoData,
}

/// What a transport reports back for one submitted command that the
/// device accepted at the transport level.
#[derive(Debug)]
pub struct SubmitOutcome {
    /// Bytes read during the data phase.
    pub data: Vec<u8>,
    /// SCSI status byte; `0` is GOOD.
    pub status: u8,
    /// Sense bytes the device returned; empty when none were written.
    pub sense: Vec<u8>,
    /// Number of requested bytes that were not transferred.
    pub residual: usize,
}

/// A platform device adapter: opens a named drive with exclusive access,
/// submits raw SCSI commands, and waits between retry attempts.
///
/// Exactly one device is meant to be open per process at a time; `open`
/// fails while another adapter instance holds one. `submit` blocks the
/// calling thread until the command completes or times out. `close` is
/// idempotent and is also performed when the adapter is dropped.
pub trait DeviceAdapter: Sized {
    /// Open the drive named by `path` exclusively.
    fn open(path: &str) -> Result<Self, IoError>;

    /// Submit one SCSI command, with a buffer of `alloc_len` bytes for
    /// the data phase, and block until it completes or times out.
    ///
    /// `Err` means the command did not reach the device (transport or OS
    /// failure); a command the device rejected comes back as `Ok` with a
    /// non-zero status byte.
    fn submit(
        &self,
        cdb: &Vec<u8>,
        alloc_len: usize,
        timeout_ms: u32,
        direction: TransferDirection,
    ) -> Result<SubmitOutcome, IoError>;

    /// Wait for the given number of milliseconds.
    fn sleep_ms(&self, ms: u64);

    /// Candidate drive paths on this platform.
    fn list_paths() -> Result<Vec<String>, IoError>;

    /// Release the device. Safe to call more than once.
    fn close(&self);
}

} // verus!
