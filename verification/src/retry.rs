//! The retry and chunk engine: splitting an LBA range into capped chunks
//! and retrying each chunk with capped exponential backoff and adaptive
//! sector-count reduction.
//!
//! The engine is generic over the function that reads one chunk, so its
//! guarantees hold for any reader — the real `READ CD` path as well as
//! test doubles. Every error a reader returns is treated as retryable;
//! callers that need stricter classification layer it above.

use vstd::prelude::*;

use crate::errors::CdReaderError;

verus! {

/// Hard cap on sectors per transfer: 27 sectors are 63504 bytes, which
/// stays under common 64 KiB transport limits.
pub const MAX_SECTORS_PER_XFER: u32 = 27;

/// Retry policy for idempotent read operations, applied per failed
/// chunk. Capped exponential backoff can be combined with adaptive
/// chunk-size reduction.
#[derive(Debug, Clone)]
pub struct RetryConfig {
    /// Maximum attempts per chunk, including the initial attempt; values
    /// below 1 are treated as 1.
    pub max_attempts: u8,
    /// Backoff delay in milliseconds before the second attempt. The
    /// first attempt is always immediate.
    pub initial_backoff_ms: u64,
    /// Upper bound for the exponential backoff delay in milliseconds.
    pub max_backoff_ms: u64,
    /// Enable adaptive sector-count reduction on retry.
    pub reduce_chunk_on_retry: bool,
    /// Minimum sectors per `READ CD` once reduction is enabled; values
    /// below 1 are treated as 1. Use 1 for maximal fault isolation.
    pub min_sectors_per_read: u32,
}

impl Default for RetryConfig {
    /// Four attempts, 20 ms initial backoff capped at 300 ms, adaptive
    /// reduction down to single-sector reads.
    fn default() -> (r: Self)
        ensures
            r.max_attempts == 4,
            r.initial_backoff_ms == 20,
            r.max_backoff_ms == 300,
            r.reduce_chunk_on_retry == true,
            r.min_sectors_per_read == 1,
    {
        RetryConfig {
            max_attempts: 4,
            initial_backoff_ms: 20,
            max_backoff_ms: 300,
            reduce_chunk_on_retry: true,
            min_sectors_per_read: 1,
        }
    }
}

/// The shrink rule for adaptive retries: a fast coarse step down to 8
/// sectors, then straight to the configured minimum.
pub open spec fn spec_next_chunk_size(current: u32, min_sectors: u32) -> u32 {
    if current > 8 {
        if min_sectors > 8 {
            min_sectors
        } else {
            8u32
        }
    } else {
        min_sectors
    }
}

/// Chunk size for the next attempt after a failure.
pub fn next_chunk_size(current: u32, min_sectors: u32) -> (r: u32)
    ensures
        r == spec_next_chunk_size(current, min_sectors),
        min_sectors < current ==> min_sectors <= r < current,
{
    if current > 8 {
        if min_sectors > 8 {
            min_sectors
        } else {
            8
        }
    } else {
        min_sectors
    }
}

/// The capped exponential backoff step: double, up to the cap.
pub open spec fn spec_next_backoff(current_ms: u64, max_ms: u64) -> int {
    if 2 * current_ms <= max_ms {
        2 * current_ms
    } else {
        max_ms as int
    }
}

/// Backoff delay for the attempt after the next one.
pub fn next_backoff(current_ms: u64, max_ms: u64) -> (r: u64)
    ensures
        r == spec_next_backoff(current_ms, max_ms),
{
    if current_ms > max_ms / 2 {
        max_ms
    } else {
        2 * current_ms
    }
}

/// A reader whose successful results never exceed 2352 bytes per
/// requested sector.
pub open spec fn bounded_reader<F: Fn(u32, u32) -> Result<Vec<u8>, CdReaderError>>(f: F) -> bool {
    forall|lba: u32, n: u32, v: Vec<u8>|
        call_ensures(f, (lba, n), Result::Ok(v)) ==> v@.len() <= n * 2352
}

/// A reader whose successful results are exactly 2352 bytes per
/// requested sector.
pub open spec fn exact_reader<F: Fn(u32, u32) -> Result<Vec<u8>, CdReaderError>>(f: F) -> bool {
    forall|lba: u32, n: u32, v: Vec<u8>|
        call_ensures(f, (lba, n), Result::Ok(v)) ==> v@.len() == n * 2352
}

/// A reader that can never fail.
pub open spec fn infallible_reader<F: Fn(u32, u32) -> Result<Vec<u8>, CdReaderError>>(
    f: F,
) -> bool {
    forall|lba: u32, n: u32, e: CdReaderError| !call_ensures(f, (lba, n), Result::Err(e))
}

/// Read one chunk, retrying up to the configured number of attempts.
/// Returns the chunk's bytes together with the sector count of the
/// attempt that succeeded, which adaptive reduction may have shrunk
/// below `first_sectors`.
fn read_chunk_with_retry<F: Fn(u32, u32) -> Result<Vec<u8>, CdReaderError>, S: Fn(u64)>(
    lba: u32,
    first_sectors: u32,
    cfg: &RetryConfig,
    read_fn: &F,
    sleep_fn: &S,
) -> (r: Result<(Vec<u8>, u32), CdReaderError>)
    requires
        1 <= first_sectors <= MAX_SECTORS_PER_XFER,
        forall|l: u32, n: u32| 1 <= n <= MAX_SECTORS_PER_XFER ==> call_requires(*read_fn, (l, n)),
        forall|ms: u64| call_requires(*sleep_fn, (ms,)),
    ensures
        r matches Ok(p) ==> 1 <= p.1 <= first_sectors,
        r matches Ok(p) ==> (bounded_reader(*read_fn) ==> p.0@.len() <= p.1 * 2352),
        r matches Ok(p) ==> (exact_reader(*read_fn) ==> p.0@.len() == p.1 * 2352),
        infallible_reader(*read_fn) ==> r is Ok,
        r matches Err(e) ==> exists|l: u32, n: u32|
            call_ensures(*read_fn, (l, n), Result::Err(e)),
{
    let max_attempts: u8 = if cfg.max_attempts < 1 {
        1
    } else {
        cfg.max_attempts
    };
    let min_sectors: u32 = if cfg.min_sectors_per_read < 1 {
        1
    } else {
        cfg.min_sectors_per_read
    };
    let mut chunk_sectors: u32 = first_sectors;
    let mut backoff_ms: u64 = cfg.initial_backoff_ms;
    let mut attempt: u8 = 1;

    loop
        invariant
            1 <= attempt <= max_attempts,
            1 <= min_sectors,
            1 <= chunk_sectors <= first_sectors,
            first_sectors <= MAX_SECTORS_PER_XFER,
            forall|l: u32, n: u32|
                1 <= n <= MAX_SECTORS_PER_XFER ==> call_requires(*read_fn, (l, n)),
            forall|ms: u64| call_requires(*sleep_fn, (ms,)),
        decreases max_attempts - attempt,
    {
        match read_fn(lba, chunk_sectors) {
            Ok(chunk) => {
                return Ok((chunk, chunk_sectors));
            },
            Err(e) => {
                if attempt >= max_attempts {
                    return Err(e);
                }
                if cfg.reduce_chunk_on_retry && chunk_sectors > min_sectors {
                    chunk_sectors = next_chunk_size(chunk_sectors, min_sectors);
                }
                sleep_fn(backoff_ms);
                backoff_ms = next_backoff(backoff_ms, cfg.max_backoff_ms);
                attempt = attempt + 1;
            },
        }
    }
}

/// Read the LBA range `[start_lba, start_lba + sectors)` through
/// `read_fn`, in chunks of at most 27 sectors, retrying each chunk under
/// the given policy with `sleep_fn` providing the inter-attempt wait.
///
/// Chunks are appended in strictly increasing, contiguous LBA order. On
/// success the output holds 2352 bytes per sector whenever the reader
/// delivers full chunks; an exhausted chunk surfaces the last error
/// unchanged.
pub fn read_range_with<F: Fn(u32, u32) -> Result<Vec<u8>, CdReaderError>, S: Fn(u64)>(
    start_lba: u32,
    sectors: u32,
    cfg: &RetryConfig,
    read_fn: &F,
    sleep_fn: &S,
) -> (r: Result<Vec<u8>, CdReaderError>)
    requires
        start_lba + sectors <= u32::MAX,
        forall|l: u32, n: u32| 1 <= n <= MAX_SECTORS_PER_XFER ==> call_requires(*read_fn, (l, n)),
        forall|ms: u64| call_requires(*sleep_fn, (ms,)),
    ensures
        r matches Ok(out) ==> (bounded_reader(*read_fn) ==> out@.len() <= sectors * 2352),
        r matches Ok(out) ==> (exact_reader(*read_fn) ==> out@.len() == sectors * 2352),
        infallible_reader(*read_fn) ==> r is Ok,
        r matches Err(e) ==> exists|l: u32, n: u32|
            call_ensures(*read_fn, (l, n), Result::Err(e)),
{
    let mut out: Vec<u8> = if sectors as u64 * 2352 <= usize::MAX as u64 {
        Vec::with_capacity(sectors as usize * 2352)
    } else {
        Vec::new()
    };
    let mut lba: u32 = start_lba;
    let mut remaining: u32 = sectors;

    while remaining > 0
        invariant
            remaining <= sectors,
            lba == start_lba + sectors - remaining,
            start_lba + sectors <= u32::MAX,
            bounded_reader(*read_fn) ==> out@.len() <= (sectors - remaining) * 2352,
            exact_reader(*read_fn) ==> out@.len() == (sectors - remaining) * 2352,
            forall|l: u32, n: u32|
                1 <= n <= MAX_SECTORS_PER_XFER ==> call_requires(*read_fn, (l, n)),
            forall|ms: u64| call_requires(*sleep_fn, (ms,)),
        decreases remaining,
    {
        let first = if remaining < MAX_SECTORS_PER_XFER {
            remaining
        } else {
            MAX_SECTORS_PER_XFER
        };
        match read_chunk_with_retry(lba, first, cfg, read_fn, sleep_fn) {
            Ok(p) => {
                let mut chunk = p.0;
                let n = p.1;
                out.append(&mut chunk);
                lba = lba + n;
                remaining = remaining - n;
            },
            Err(e) => {
                return Err(e);
            },
        }
    }
    Ok(out)
}

} // verus!
