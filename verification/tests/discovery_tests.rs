use cd_da_reader::discovery::pick_default_drive_path;
use cd_da_reader::discovery::toc_has_audio;
use cd_da_reader::CdReader;
use cd_da_reader::DeviceAdapter;
use cd_da_reader::DriveInfo;
use cd_da_reader::IoError;
use cd_da_reader::SubmitOutcome;
use cd_da_reader::Toc;
use cd_da_reader::Track;
use cd_da_reader::TransferDirection;

#[test]
fn chooses_first_audio_drive() {
    let drives = vec![
        DriveInfo { path: "disk10".to_string(), display_name: None, has_audio_cd: false },
        DriveInfo { path: "disk11".to_string(), display_name: None, has_audio_cd: true },
        DriveInfo { path: "disk12".to_string(), display_name: None, has_audio_cd: true },
    ];

    assert_eq!(pick_default_drive_path(&drives), Some("disk11"));
}

#[test]
fn returns_none_when_no_audio_drive() {
    let drives = vec![DriveInfo {
        path: "/dev/sr0".to_string(),
        display_name: None,
        has_audio_cd: false,
    }];

    assert_eq!(pick_default_drive_path(&drives), None);
}

fn data_track() -> Track {
    Track { number: 2, start_lba: 100, start_msf: (0, 3, 25), is_audio: false }
}

#[test]
fn toc_audio_probe_finds_audio_tracks() {
    let audio = Track { number: 1, start_lba: 0, start_msf: (0, 2, 0), is_audio: true };
    let toc = Toc { first_track: 1, last_track: 2, tracks: vec![data_track(), audio], leadout_lba: 500 };
    assert!(toc_has_audio(&toc));

    let toc = Toc { first_track: 2, last_track: 2, tracks: vec![data_track()], leadout_lba: 500 };
    assert!(!toc_has_audio(&toc));
}

/// Adapter whose enumeration repeats paths and whose TOC reports one
/// audio track, to exercise dedup and probing in `list_drives`.
struct EnumeratingAdapter;

impl DeviceAdapter for EnumeratingAdapter {
    fn open(_path: &str) -> Result<Self, IoError> {
        Ok(EnumeratingAdapter)
    }

    fn submit(
        &self,
        _cdb: &Vec<u8>,
        alloc_len: usize,
        _timeout_ms: u32,
        _direction: TransferDirection,
    ) -> Result<SubmitOutcome, IoError> {
        // A format-0 TOC with one audio track at LBA 0 and a lead-out.
        let mut payload: Vec<u8> = vec![0x00, 0x12, 0x01, 0x01];
        payload.extend_from_slice(&[0x00, 0x10, 0x01, 0x00, 0x00, 0x00, 0x00, 0x00]);
        payload.extend_from_slice(&[0x00, 0x10, 0xAA, 0x00, 0x00, 0x00, 0xB9, 0x68]);
        let used = payload.len();
        payload.resize(alloc_len, 0);
        Ok(SubmitOutcome {
            data: payload,
            status: 0,
            sense: Vec::new(),
            residual: alloc_len - used,
        })
    }

    fn sleep_ms(&self, _ms: u64) {}

    fn list_paths() -> Result<Vec<String>, IoError> {
        Ok(vec!["/dev/sr0".to_string(), "/dev/sr1".to_string(), "/dev/sr0".to_string()])
    }

    fn close(&self) {}
}

#[test]
fn list_drives_dedups_paths_and_probes_audio() {
    let drives = CdReader::<EnumeratingAdapter>::list_drives().unwrap();
    assert_eq!(drives.len(), 2);
    assert_eq!(drives[0].path, "/dev/sr0");
    assert_eq!(drives[1].path, "/dev/sr1");
    assert_eq!(drives[0].display_name.as_deref(), Some("/dev/sr0"));
    assert!(drives[0].has_audio_cd);
    assert!(drives[1].has_audio_cd);
}

#[test]
fn open_default_picks_an_audio_drive() {
    assert!(CdReader::<EnumeratingAdapter>::open_default().is_ok());
}
