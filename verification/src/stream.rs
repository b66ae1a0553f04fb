//! The track stream: a stateful, chunked view of one track.
//!
//! State is `(start_lba, next_lba, remaining_sectors, total_sectors)`
//! with `consumed = total - remaining`. Reading advances the position
//! only on success; seeking is O(1) metadata work and touches no device.

use vstd::prelude::*;

use crate::device::DeviceAdapter;
use crate::errors::CdReaderError;
use crate::errors::IoErrorKind;
use crate::retry::RetryConfig;
use crate::CdReader;
use crate::Toc;

verus! {

/// Configuration of a track stream: the preferred chunk size and the
/// retry policy handed to the underlying reads.
#[derive(Debug, Clone)]
pub struct TrackStreamConfig {
    /// Sectors per `next_chunk` call; values below 1 are treated as 1 at
    /// use.
    pub sectors_per_chunk: u32,
    /// Retry policy for each chunk read.
    pub retry: RetryConfig,
}

impl Default for TrackStreamConfig {
    /// 27-sector chunks under the default retry policy.
    fn default() -> (r: Self)
        ensures
            r.sectors_per_chunk == 27,
            r.retry.max_attempts == 4,
            r.retry.initial_backoff_ms == 20,
            r.retry.max_backoff_ms == 300,
            r.retry.reduce_chunk_on_retry == true,
            r.retry.min_sectors_per_read == 1,
    {
        TrackStreamConfig { sectors_per_chunk: 27, retry: RetryConfig::default() }
    }
}

/// Sectors consumed by one successful `next_chunk` on a stream with
/// `remaining` sectors left: the preferred chunk size (at least 1),
/// clipped to what is left.
pub open spec fn spec_chunk_sectors(remaining: u32, sectors_per_chunk: u32) -> u32 {
    let eff = if sectors_per_chunk < 1 {
        1u32
    } else {
        sectors_per_chunk
    };
    if remaining < eff {
        remaining
    } else {
        eff
    }
}

/// Total bytes yielded by invoking `next_chunk` until `None` on a stream
/// with `remaining` sectors left, when every chunk comes back full.
pub open spec fn spec_drain_bytes(remaining: u32, sectors_per_chunk: u32) -> int
    decreases remaining,
{
    if remaining == 0 {
        0
    } else {
        let c = spec_chunk_sectors(remaining, sectors_per_chunk);
        c * 2352 + spec_drain_bytes((remaining - c) as u32, sectors_per_chunk)
    }
}

/// Draining a stream yields exactly 2352 bytes per remaining sector,
/// whatever the chunk size: so a stream of `total` sectors yields
/// `total * 2352` bytes, and after `seek_to_sector(s)` it yields
/// `(total - s) * 2352` bytes.
pub proof fn lemma_drain_bytes_total(remaining: u32, sectors_per_chunk: u32)
    ensures
        spec_drain_bytes(remaining, sectors_per_chunk) == remaining * 2352,
    decreases remaining,
{
    if remaining == 0 {
    } else {
        let c = spec_chunk_sectors(remaining, sectors_per_chunk);
        lemma_drain_bytes_total((remaining - c) as u32, sectors_per_chunk);
    }
}

/// A stateful stream over one track of an open reader.
pub struct TrackStream<'a, D: DeviceAdapter> {
    /// The reader whose device the chunks come from.
    pub reader: &'a CdReader<D>,
    /// First sector of the track.
    pub start_lba: u32,
    /// Next sector to read.
    pub next_lba: u32,
    /// Sectors still to read.
    pub remaining_sectors: u32,
    /// Sectors in the whole track.
    pub total_sectors: u32,
    /// Chunk size and retry policy.
    pub cfg: TrackStreamConfig,
}

impl<'a, D: DeviceAdapter> TrackStream<'a, D> {
    /// The stream invariant: the position lies within the track and the
    /// track's end fits the LBA space.
    pub open spec fn wf(self) -> bool {
        &&& self.remaining_sectors <= self.total_sectors
        &&& self.next_lba == self.start_lba + self.total_sectors - self.remaining_sectors
        &&& self.start_lba + self.total_sectors <= u32::MAX
    }

    /// Everything but the position is unchanged.
    pub open spec fn same_track(self, other: Self) -> bool {
        &&& self.start_lba == other.start_lba
        &&& self.total_sectors == other.total_sectors
        &&& self.cfg == other.cfg
    }

    /// Read the next chunk of up to `cfg.sectors_per_chunk` sectors.
    ///
    /// Returns `Ok(None)` iff the stream is exhausted. On success the
    /// position advances by exactly the sectors read; on error the
    /// position is unchanged and the error is surfaced as is.
    pub fn next_chunk(&mut self) -> (r: Result<Option<Vec<u8>>, CdReaderError>)
        requires
            old(self).wf(),
        ensures
            final(self).wf(),
            old(self).same_track(*final(self)),
            old(self).remaining_sectors == 0 ==> (r matches Ok(o) && o is None && *final(self)
                == *old(self)),
            r matches Ok(o) ==> (o is None <==> old(self).remaining_sectors == 0),
            r matches Ok(o) ==> (o matches Some(v) ==> {
                let c = spec_chunk_sectors(old(self).remaining_sectors,
                    old(self).cfg.sectors_per_chunk);
                &&& final(self).remaining_sectors == old(self).remaining_sectors - c
                &&& final(self).next_lba == old(self).next_lba + c
                &&& v@.len() <= c * 2352
            }),
            r matches Err(_) ==> *final(self) == *old(self),
            r matches Err(e) ==> (e matches CdReaderError::Io(_) || (e matches CdReaderError::Scsi(
                se,
            ) && se.op == crate::errors::ScsiOp::ReadCd && se.scsi_status != 0)),
    {
        if self.remaining_sectors == 0 {
            return Ok(None);
        }
        let spc: u32 = if self.cfg.sectors_per_chunk < 1 {
            1
        } else {
            self.cfg.sectors_per_chunk
        };
        let sectors: u32 = if self.remaining_sectors < spc {
            self.remaining_sectors
        } else {
            spc
        };
        match self.reader.read_sectors_with_retry(self.next_lba, sectors, &self.cfg.retry) {
            Ok(chunk) => {
                self.next_lba = self.next_lba + sectors;
                self.remaining_sectors = self.remaining_sectors - sectors;
                Ok(Some(chunk))
            },
            Err(e) => Err(e),
        }
    }

    /// Read the next chunk through an explicit range reader instead of
    /// the reader's device; the state machine is the same.
    ///
    /// `read_fn` is handed the starting LBA and the sector count of the
    /// chunk and returns its bytes.
    pub fn next_chunk_with<F: Fn(u32, u32) -> Result<Vec<u8>, CdReaderError>>(
        &mut self,
        read_fn: &F,
    ) -> (r: Result<Option<Vec<u8>>, CdReaderError>)
        requires
            old(self).wf(),
            forall|l: u32, n: u32|
                l + n <= u32::MAX ==> call_requires(*read_fn, (l, n)),
        ensures
            final(self).wf(),
            old(self).same_track(*final(self)),
            old(self).remaining_sectors == 0 ==> (r matches Ok(o) && o is None && *final(self)
                == *old(self)),
            r matches Ok(o) ==> (o is None <==> old(self).remaining_sectors == 0),
            r matches Ok(o) ==> (o matches Some(v) ==> {
                let c = spec_chunk_sectors(old(self).remaining_sectors,
                    old(self).cfg.sectors_per_chunk);
                &&& final(self).remaining_sectors == old(self).remaining_sectors - c
                &&& final(self).next_lba == old(self).next_lba + c
                &&& call_ensures(*read_fn, (old(self).next_lba, c), Result::Ok(v))
            }),
            r matches Err(e) ==> *final(self) == *old(self) && call_ensures(*read_fn, (old(
                self,
            ).next_lba, spec_chunk_sectors(old(self).remaining_sectors,
                old(self).cfg.sectors_per_chunk)), Result::Err(e)),
    {
        if self.remaining_sectors == 0 {
            return Ok(None);
        }
        let spc: u32 = if self.cfg.sectors_per_chunk < 1 {
            1
        } else {
            self.cfg.sectors_per_chunk
        };
        let sectors: u32 = if self.remaining_sectors < spc {
            self.remaining_sectors
        } else {
            spc
        };
        match read_fn(self.next_lba, sectors) {
            Ok(chunk) => {
                self.next_lba = self.next_lba + sectors;
                self.remaining_sectors = self.remaining_sectors - sectors;
                Ok(Some(chunk))
            },
            Err(e) => Err(e),
        }
    }

    /// Sectors in the whole track.
    pub fn total_sectors(&self) -> (r: u32)
        ensures
            r == self.total_sectors,
    {
        self.total_sectors
    }

    /// Sectors read so far.
    pub fn consumed_sectors(&self) -> (r: u32)
        requires
            self.wf(),
        ensures
            r == self.total_sectors - self.remaining_sectors,
    {
        self.total_sectors - self.remaining_sectors
    }

    /// Current position, as sectors from the start of the track.
    pub fn current_sector(&self) -> (r: u32)
        requires
            self.wf(),
        ensures
            r == self.total_sectors - self.remaining_sectors,
    {
        self.consumed_sectors()
    }

    /// Sectors still to read.
    pub fn remaining_sectors(&self) -> (r: u32)
        ensures
            r == self.remaining_sectors,
    {
        self.remaining_sectors
    }

    /// Next sector to read, as an absolute LBA.
    pub fn next_lba(&self) -> (r: u32)
        ensures
            r == self.next_lba,
    {
        self.next_lba
    }

    /// Move the position to `sector` sectors from the start of the
    /// track. Fails with `InvalidInput`, leaving the position unchanged,
    /// when the target lies past the end.
    pub fn seek_to_sector(&mut self, sector: u32) -> (r: Result<(), CdReaderError>)
        requires
            old(self).wf(),
        ensures
            final(self).wf(),
            old(self).same_track(*final(self)),
            sector > old(self).total_sectors ==> (r matches Err(e) && e matches CdReaderError::Io(
                io,
            ) && io.kind == IoErrorKind::InvalidInput && *final(self) == *old(self)),
            sector <= old(self).total_sectors ==> (r matches Ok(_) && final(self).next_lba == old(
                self,
            ).start_lba + sector && final(self).remaining_sectors == old(self).total_sectors
                - sector),
    {
        if sector > self.total_sectors {
            return Err(CdReaderError::io(IoErrorKind::InvalidInput,
                "seek sector is out of track bounds".to_owned()));
        }
        self.next_lba = self.start_lba + sector;
        self.remaining_sectors = self.total_sectors - sector;
        Ok(())
    }
}

impl<D: DeviceAdapter> CdReader<D> {
    /// Compute the track's bounds and open a stream positioned at its
    /// first sector.
    pub fn open_track_stream<'a>(&'a self, toc: &Toc, track_no: u8, cfg: TrackStreamConfig) -> (r:
        Result<TrackStream<'a, D>, CdReaderError>)
        ensures
            crate::utils::spec_track_bounds(*toc, track_no) matches Ok(b) ==> (r matches Ok(s) && {
                &&& s.wf()
                &&& s.start_lba == b.0
                &&& s.next_lba == b.0
                &&& s.remaining_sectors == b.1
                &&& s.total_sectors == b.1
                &&& s.cfg == cfg
            }),
            crate::utils::spec_track_bounds(*toc, track_no) matches Err(k) ==> (r matches Err(e)
                && e matches CdReaderError::Io(io) && io.kind == k),
    {
        let bounds = match crate::utils::get_track_bounds(toc, track_no) {
            Ok(b) => b,
            Err(e) => {
                return Err(e);
            },
        };
        Ok(TrackStream {
            reader: self,
            start_lba: bounds.0,
            next_lba: bounds.0,
            remaining_sectors: bounds.1,
            total_sectors: bounds.1,
            cfg,
        })
    }
}

} // verus!
