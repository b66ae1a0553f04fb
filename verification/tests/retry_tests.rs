use std::cell::Cell;
use std::cell::RefCell;

use cd_da_reader::retry::next_backoff;
use cd_da_reader::retry::next_chunk_size;
use cd_da_reader::retry::read_range_with;
use cd_da_reader::CdReaderError;
use cd_da_reader::IoError;
use cd_da_reader::IoErrorKind;
use cd_da_reader::RetryConfig;

fn io_err(message: &str) -> CdReaderError {
    CdReaderError::Io(IoError { kind: IoErrorKind::Other, message: message.to_string() })
}

#[test]
fn default_retry_config_values() {
    let cfg = RetryConfig::default();
    assert_eq!(cfg.max_attempts, 4);
    assert_eq!(cfg.initial_backoff_ms, 20);
    assert_eq!(cfg.max_backoff_ms, 300);
    assert!(cfg.reduce_chunk_on_retry);
    assert_eq!(cfg.min_sectors_per_read, 1);
}

#[test]
fn chunk_size_steps_down_coarse_then_to_minimum() {
    assert_eq!(next_chunk_size(27, 1), 8);
    assert_eq!(next_chunk_size(8, 1), 1);
    assert_eq!(next_chunk_size(27, 10), 10);
    assert_eq!(next_chunk_size(7, 2), 2);
}

#[test]
fn backoff_doubles_up_to_the_cap() {
    assert_eq!(next_backoff(10, 40), 20);
    assert_eq!(next_backoff(20, 40), 40);
    assert_eq!(next_backoff(40, 40), 40);
    assert_eq!(next_backoff(300, 300), 300);
    assert_eq!(next_backoff(0, 300), 0);
}

#[test]
fn retry_ladder_shrinks_chunks_and_backs_off() {
    let sizes: RefCell<Vec<u32>> = RefCell::new(Vec::new());
    let sleeps: RefCell<Vec<u64>> = RefCell::new(Vec::new());
    let failures_left = Cell::new(2u32);

    let read_fn = |_lba: u32, sectors: u32| -> Result<Vec<u8>, CdReaderError> {
        sizes.borrow_mut().push(sectors);
        if failures_left.get() > 0 {
            failures_left.set(failures_left.get() - 1);
            Err(io_err("transient"))
        } else {
            Ok(vec![0u8; (sectors as usize) * 2352])
        }
    };
    let sleep_fn = |ms: u64| {
        sleeps.borrow_mut().push(ms);
    };

    let cfg = RetryConfig {
        max_attempts: 3,
        initial_backoff_ms: 10,
        max_backoff_ms: 40,
        reduce_chunk_on_retry: true,
        min_sectors_per_read: 1,
    };
    let out = read_range_with(10_000, 27, &cfg, &read_fn, &sleep_fn).unwrap();

    // Over the first logical chunk the submissions step 27 -> 8 -> 1,
    // with sleeps 10 then 20; the remaining 26 sectors then go in one
    // full-size chunk.
    assert_eq!(sizes.borrow()[0..3], [27, 8, 1]);
    assert_eq!(*sleeps.borrow(), vec![10, 20]);
    assert_eq!(sizes.borrow().len(), 4);
    assert_eq!(sizes.borrow()[3], 26);
    assert_eq!(out.len(), 27 * 2352);
}

#[test]
fn engine_performs_exactly_max_attempts_submissions_before_success() {
    let submissions = Cell::new(0u32);
    let failures_left = Cell::new(3u32);

    let read_fn = |_lba: u32, sectors: u32| -> Result<Vec<u8>, CdReaderError> {
        submissions.set(submissions.get() + 1);
        if failures_left.get() > 0 {
            failures_left.set(failures_left.get() - 1);
            Err(io_err("transient"))
        } else {
            Ok(vec![0u8; (sectors as usize) * 2352])
        }
    };
    let sleep_fn = |_ms: u64| {};

    let cfg = RetryConfig {
        max_attempts: 4,
        initial_backoff_ms: 0,
        max_backoff_ms: 0,
        reduce_chunk_on_retry: false,
        min_sectors_per_read: 1,
    };
    let out = read_range_with(0, 1, &cfg, &read_fn, &sleep_fn).unwrap();
    assert_eq!(submissions.get(), 4);
    assert_eq!(out.len(), 2352);
}

#[test]
fn engine_surfaces_last_error_after_exhaustion() {
    let submissions = Cell::new(0u32);
    let read_fn = |_lba: u32, _sectors: u32| -> Result<Vec<u8>, CdReaderError> {
        submissions.set(submissions.get() + 1);
        Err(io_err(&format!("failure {}", submissions.get())))
    };
    let sleep_fn = |_ms: u64| {};

    let cfg = RetryConfig {
        max_attempts: 3,
        initial_backoff_ms: 0,
        max_backoff_ms: 0,
        reduce_chunk_on_retry: false,
        min_sectors_per_read: 1,
    };
    let err = read_range_with(0, 5, &cfg, &read_fn, &sleep_fn).unwrap_err();
    assert_eq!(submissions.get(), 3);
    match err {
        CdReaderError::Io(io) => assert_eq!(io.message, "failure 3"),
        _ => panic!("expected Io error"),
    }
}

#[test]
fn engine_concatenates_full_range_in_lba_order() {
    let requests: RefCell<Vec<(u32, u32)>> = RefCell::new(Vec::new());
    let read_fn = |lba: u32, sectors: u32| -> Result<Vec<u8>, CdReaderError> {
        requests.borrow_mut().push((lba, sectors));
        Ok(vec![0u8; (sectors as usize) * 2352])
    };
    let sleep_fn = |_ms: u64| {};

    let cfg = RetryConfig::default();
    let out = read_range_with(63025, 60, &cfg, &read_fn, &sleep_fn).unwrap();
    assert_eq!(out.len(), 60 * 2352);
    assert_eq!(*requests.borrow(), vec![(63025, 27), (63052, 27), (63079, 6)]);
}

#[test]
fn max_attempts_below_one_still_attempts_once() {
    let submissions = Cell::new(0u32);
    let read_fn = |_lba: u32, _sectors: u32| -> Result<Vec<u8>, CdReaderError> {
        submissions.set(submissions.get() + 1);
        Err(io_err("always"))
    };
    let sleep_fn = |_ms: u64| {};

    let cfg = RetryConfig {
        max_attempts: 0,
        initial_backoff_ms: 0,
        max_backoff_ms: 0,
        reduce_chunk_on_retry: false,
        min_sectors_per_read: 1,
    };
    assert!(read_range_with(0, 1, &cfg, &read_fn, &sleep_fn).is_err());
    assert_eq!(submissions.get(), 1);
}
