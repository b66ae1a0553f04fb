//! Reading audio CDs (CD-DA) through raw device commands.
//!
//! The library is organised around a platform adapter: everything above the
//! adapter — CDB construction, TOC parsing, sector geometry, the retry and
//! chunk engine, and the track stream — is platform-neutral logic. A caller
//! supplies (or picks from the provided backends) an adapter that opens a
//! named drive exclusively and submits SCSI commands to it.

use vstd::prelude::*;

pub mod device;
pub mod discovery;
pub mod errors;
pub mod parse_toc;
pub mod retry;
pub mod scsi;
pub mod stream;
pub mod utils;
pub mod wav;

verus! {

pub use crate::device::DeviceAdapter;
pub use crate::device::SubmitOutcome;
pub use crate::device::TransferDirection;
pub use crate::discovery::DriveInfo;
pub use crate::errors::CdReaderError;
pub use crate::errors::IoError;
pub use crate::errors::IoErrorKind;
pub use crate::errors::ScsiError;
pub use crate::errors::ScsiOp;
pub use crate::parse_toc::lba_to_msf;
pub use crate::parse_toc::parse_toc;
pub use crate::retry::RetryConfig;
pub use crate::stream::TrackStream;
pub use crate::stream::TrackStreamConfig;
pub use crate::utils::get_track_bounds;
pub use crate::wav::create_wav;
pub use crate::wav::create_wav_header;

/// An entry in the table of contents.
#[derive(Debug)]
pub struct Track {
    /// Track index as recorded on disc, 1..=99.
    pub number: u8,
    /// Absolute logical block address of the first sector.
    pub start_lba: u32,
    /// (minute, second, frame) address derived from `start_lba`.
    pub start_msf: (u8, u8, u8),
    /// True iff the descriptor's control nibble has bit 2 clear.
    pub is_audio: bool,
}

/// The decoded first-session table of contents.
#[derive(Debug)]
pub struct Toc {
    /// First track number as reported by the drive.
    pub first_track: u8,
    /// Last track number as reported by the drive.
    pub last_track: u8,
    /// Tracks in the order the drive reported them (lead-out excluded).
    pub tracks: Vec<Track>,
    /// Absolute LBA of the lead-out; bounds the last track.
    pub leadout_lba: u32,
}

/// A handle on an exclusively opened drive. Its sole observable state is
/// ownership of the open device; dropping it releases the device through
/// the adapter.
pub struct CdReader<D: crate::device::DeviceAdapter> {
    adapter: D,
}

impl<D: crate::device::DeviceAdapter> CdReader<D> {
    /// Acquire exclusive access to the drive named by `path`.
    pub fn open(path: &str) -> (r: Result<Self, CdReaderError>)
        ensures
            r matches Err(e) ==> e matches CdReaderError::Io(_),
    {
        match D::open(path) {
            Ok(adapter) => Ok(CdReader { adapter }),
            Err(e) => Err(CdReaderError::Io(e)),
        }
    }

    /// Release the device explicitly; dropping the reader does the same.
    pub fn close(self) {
        self.adapter.close();
    }

    /// Issue `READ TOC` and decode the response.
    ///
    /// A successful result is always the faithful decoding of some
    /// payload of at least four bytes that the drive returned. A failure
    /// is an OS-level error, a rejected command packaged with the
    /// `ReadToc` op, or a parse failure on a short payload.
    pub fn read_toc(&self) -> (r: Result<Toc, CdReaderError>)
        ensures
            r matches Ok(toc) ==> exists|data: Seq<u8>|
                data.len() >= 4 && #[trigger] crate::parse_toc::spec_toc_matches(toc, data),
            r matches Err(e) ==> (e matches CdReaderError::Io(_) || e matches CdReaderError::Parse(
                _,
            ) || (e matches CdReaderError::Scsi(se) && se.op == ScsiOp::ReadToc
                && se.scsi_status != 0 && se.lba is None && se.sectors is None)),
    {
        let payload = match crate::scsi::read_toc_payload(&self.adapter) {
            Ok(p) => p,
            Err(e) => {
                return Err(e);
            },
        };
        crate::parse_toc::parse_toc(payload)
    }

    /// Read `sectors` sectors starting at `lba`, in chunks of at most 27
    /// sectors, retrying each chunk under the given policy. A failure is
    /// an OS-level error or a rejected `READ CD` command.
    pub fn read_sectors_with_retry(&self, lba: u32, sectors: u32, retry: &crate::retry::RetryConfig)
        -> (r: Result<Vec<u8>, CdReaderError>)
        requires
            lba + sectors <= u32::MAX,
        ensures
            r matches Ok(v) ==> v@.len() <= sectors * 2352,
            r matches Err(e) ==> (e matches CdReaderError::Io(_) || (e matches CdReaderError::Scsi(
                se,
            ) && se.op == ScsiOp::ReadCd && se.scsi_status != 0 && se.lba is Some
                && se.sectors is Some)),
    {
        let dev = &self.adapter;
        let read_fn = |l: u32, n: u32| -> (res: Result<Vec<u8>, CdReaderError>)
            requires
                1 <= n <= crate::retry::MAX_SECTORS_PER_XFER,
            ensures
                res matches Ok(v) ==> v@.len() <= n * 2352,
                res matches Err(e) ==> (e matches CdReaderError::Io(_) || (e matches
                    CdReaderError::Scsi(se) && se.op == ScsiOp::ReadCd && se.scsi_status != 0
                    && se.lba is Some && se.sectors is Some)),
            { crate::scsi::read_cd(dev, l, n) };
        let sleep_fn = |ms: u64| { dev.sleep_ms(ms) };
        proof {
            assert(crate::retry::bounded_reader(read_fn));
        }
        crate::retry::read_range_with(lba, sectors, retry, &read_fn, &sleep_fn)
    }

    /// Read a whole track under the default retry policy.
    pub fn read_track(&self, toc: &Toc, track_no: u8) -> (r: Result<Vec<u8>, CdReaderError>)
        ensures
            crate::utils::spec_track_bounds(*toc, track_no) matches Err(k) ==> (r matches Err(e)
                && e matches CdReaderError::Io(io) && io.kind == k),
            crate::utils::spec_track_bounds(*toc, track_no) matches Ok(b) ==> (r matches Ok(v)
                ==> v@.len() <= b.1 * 2352),
            r matches Err(e) ==> (e matches CdReaderError::Io(_) || (e matches CdReaderError::Scsi(
                se,
            ) && se.op == ScsiOp::ReadCd && se.scsi_status != 0)),
    {
        let cfg = crate::retry::RetryConfig::default();
        self.read_track_with_retry(toc, track_no, &cfg)
    }

    /// Read a whole track under an explicit retry policy.
    pub fn read_track_with_retry(
        &self,
        toc: &Toc,
        track_no: u8,
        retry: &crate::retry::RetryConfig,
    ) -> (r: Result<Vec<u8>, CdReaderError>)
        ensures
            crate::utils::spec_track_bounds(*toc, track_no) matches Err(k) ==> (r matches Err(e)
                && e matches CdReaderError::Io(io) && io.kind == k),
            crate::utils::spec_track_bounds(*toc, track_no) matches Ok(b) ==> (r matches Ok(v)
                ==> v@.len() <= b.1 * 2352),
            r matches Err(e) ==> (e matches CdReaderError::Io(_) || (e matches CdReaderError::Scsi(
                se,
            ) && se.op == ScsiOp::ReadCd && se.scsi_status != 0)),
    {
        let bounds = match crate::utils::get_track_bounds(toc, track_no) {
            Ok(b) => b,
            Err(e) => {
                return Err(e);
            },
        };
        self.read_sectors_with_retry(bounds.0, bounds.1, retry)
    }
}

} // verus!
