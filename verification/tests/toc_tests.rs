use cd_da_reader::get_track_bounds;
use cd_da_reader::lba_to_msf;
use cd_da_reader::parse_toc;
use cd_da_reader::CdReaderError;
use cd_da_reader::IoErrorKind;
use cd_da_reader::Toc;
use cd_da_reader::Track;

fn track(number: u8, start_lba: u32, start_msf: (u8, u8, u8)) -> Track {
    Track { number, start_lba, start_msf, is_audio: true }
}

fn get_toc() -> Toc {
    Toc {
        first_track: 1,
        last_track: 11,
        tracks: vec![
            track(1, 0, (0, 2, 0)),
            track(2, 13132, (2, 57, 7)),
            track(3, 27967, (6, 14, 67)),
            track(4, 47464, (10, 34, 64)),
            track(5, 63025, (14, 2, 25)),
            track(6, 90420, (20, 7, 45)),
            track(7, 104142, (23, 10, 42)),
            track(8, 126725, (28, 11, 50)),
            track(9, 139887, (31, 7, 12)),
            track(10, 164252, (36, 32, 2)),
            track(11, 179485, (39, 55, 10)),
        ],
        leadout_lba: 204855,
    }
}

#[test]
fn finds_non_last_track_bounds_correctly() {
    let toc = get_toc();

    let result = get_track_bounds(&toc, 5);
    assert!(result.is_ok());
    let (start_lba, sectors) = result.unwrap();

    assert_eq!(start_lba, 63025);
    assert_eq!(sectors, 90420 - 63025);
}

#[test]
fn finds_last_track_bounds_correctly() {
    let toc = get_toc();

    let result = get_track_bounds(&toc, 11);
    assert!(result.is_ok());
    let (start_lba, sectors) = result.unwrap();
    assert_eq!(start_lba, 179485);
    assert_eq!(sectors, 204855 - 179485);
}

#[test]
fn returns_error_for_invalid_track() {
    let toc = get_toc();

    let result = get_track_bounds(&toc, 100);
    assert!(result.is_err());

    match result.unwrap_err() {
        CdReaderError::Io(io) => assert_eq!(io.kind, IoErrorKind::NotFound),
        _ => panic!("expected Io(NotFound)"),
    }
}

#[test]
fn rejects_track_whose_end_is_not_past_its_start() {
    let toc = Toc {
        first_track: 1,
        last_track: 2,
        tracks: vec![track(1, 500, (0, 8, 50)), track(2, 500, (0, 8, 50))],
        leadout_lba: 1000,
    };
    match get_track_bounds(&toc, 1).unwrap_err() {
        CdReaderError::Io(io) => assert_eq!(io.kind, IoErrorKind::InvalidData),
        _ => panic!("expected Io(InvalidData)"),
    }
}

#[test]
fn last_track_without_leadout_is_rejected() {
    // A payload without a lead-out descriptor parses with leadout_lba 0,
    // so the last track has no usable end.
    let toc = Toc {
        first_track: 1,
        last_track: 1,
        tracks: vec![track(1, 100, (0, 3, 25))],
        leadout_lba: 0,
    };
    match get_track_bounds(&toc, 1).unwrap_err() {
        CdReaderError::Io(io) => assert_eq!(io.kind, IoErrorKind::InvalidData),
        _ => panic!("expected Io(InvalidData)"),
    }
}

fn descriptor(control: u8, number: u8, lba: u32) -> [u8; 8] {
    let b = lba.to_be_bytes();
    [0x00, control, number, 0x00, b[0], b[1], b[2], b[3]]
}

#[test]
fn parses_format_0_toc_response() {
    let mut data: Vec<u8> = vec![0x00, 0x2A, 0x01, 0x03];
    data.extend_from_slice(&descriptor(0x10, 1, 0));
    data.extend_from_slice(&descriptor(0x10, 2, 13132));
    data.extend_from_slice(&descriptor(0x10, 3, 27967));
    data.extend_from_slice(&descriptor(0x10, 0xAA, 47464));

    let toc = parse_toc(data).unwrap();
    assert_eq!(toc.first_track, 1);
    assert_eq!(toc.last_track, 3);
    assert_eq!(toc.leadout_lba, 47464);
    assert_eq!(toc.tracks.len(), 3);

    let expected: Vec<(u8, u32)> = vec![(1, 0), (2, 13132), (3, 27967)];
    for (i, (number, lba)) in expected.into_iter().enumerate() {
        assert_eq!(toc.tracks[i].number, number);
        assert_eq!(toc.tracks[i].start_lba, lba);
        assert!(toc.tracks[i].is_audio);
    }
}

#[test]
fn parse_marks_data_tracks_not_audio() {
    let mut data: Vec<u8> = vec![0x00, 0x16, 0x01, 0x02];
    data.extend_from_slice(&descriptor(0x10, 1, 0));
    data.extend_from_slice(&descriptor(0x14, 2, 5000));

    let toc = parse_toc(data).unwrap();
    assert_eq!(toc.tracks.len(), 2);
    assert!(toc.tracks[0].is_audio);
    assert!(!toc.tracks[1].is_audio);
    assert_eq!(toc.leadout_lba, 0);
}

#[test]
fn parse_rejects_short_buffer() {
    match parse_toc(vec![0x00, 0x0A, 0x01]).unwrap_err() {
        CdReaderError::Parse(_) => {}
        _ => panic!("expected Parse error"),
    }
}

#[test]
fn parse_ignores_descriptors_past_announced_length() {
    // The header announces 10 payload bytes, so descriptors end at
    // offset 12: the second descriptor in the buffer is ignored.
    let mut data: Vec<u8> = vec![0x00, 0x0A, 0x01, 0x01];
    data.extend_from_slice(&descriptor(0x10, 1, 0));
    data.extend_from_slice(&descriptor(0x10, 2, 5000));

    let toc = parse_toc(data).unwrap();
    assert_eq!(toc.tracks.len(), 1);
    assert_eq!(toc.tracks[0].number, 1);
}

#[test]
fn lba_to_msf_applies_150_frame_offset() {
    assert_eq!(lba_to_msf(0), (0, 2, 0));
    assert_eq!(lba_to_msf(13132), (2, 57, 7));
    assert_eq!(lba_to_msf(27967), (6, 14, 67));
    assert_eq!(lba_to_msf(204855), (45, 33, 30));
}
