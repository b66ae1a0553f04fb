//! Drive discovery: enumerate candidate drives through the platform
//! adapter and probe each for an audio CD.

use vstd::prelude::*;

use crate::device::DeviceAdapter;
use crate::errors::CdReaderError;
use crate::errors::IoErrorKind;
use crate::CdReader;
use crate::Toc;

verus! {

/// A candidate optical drive and whether it currently holds an audio CD.
#[derive(Debug, Clone)]
pub struct DriveInfo {
    /// Platform path that `CdReader::open` accepts.
    pub path: String,
    /// Human-readable name, when one is known.
    pub display_name: Option<String>,
    /// Whether a probe found an audio track in the drive's TOC.
    pub has_audio_cd: bool,
}

/// Whether the TOC lists at least one audio track.
pub fn toc_has_audio(toc: &Toc) -> (r: bool)
    ensures
        r == exists|i: int| 0 <= i < toc.tracks@.len() && #[trigger] toc.tracks@[i].is_audio,
{
    let mut idx: usize = 0;
    while idx < toc.tracks.len()
        invariant
            0 <= idx <= toc.tracks@.len(),
            forall|i: int| 0 <= i < idx ==> !(#[trigger] toc.tracks@[i].is_audio),
        decreases toc.tracks@.len() - idx,
    {
        if toc.tracks[idx].is_audio {
            return true;
        }
        idx += 1;
    }
    false
}

/// Whether some element of `paths` reads the same as `p`.
fn contains_path(paths: &Vec<String>, p: &String) -> (r: bool)
    ensures
        r == exists|i: int| 0 <= i < paths@.len() && #[trigger] paths@[i]@ == p@,
{
    let mut idx: usize = 0;
    while idx < paths.len()
        invariant
            0 <= idx <= paths@.len(),
            forall|i: int| 0 <= i < idx ==> #[trigger] paths@[i]@ != p@,
        decreases paths@.len() - idx,
    {
        if paths[idx] == *p {
            return true;
        }
        idx += 1;
    }
    false
}

/// The first drive that holds an audio CD, if any.
pub fn pick_default_drive_path<'a>(drives: &'a Vec<DriveInfo>) -> (r: Option<&'a str>)
    ensures
        r matches Some(s) ==> exists|i: int|
            {
                &&& 0 <= i < drives@.len()
                &&& #[trigger] drives@[i].has_audio_cd
                &&& s@ == drives@[i].path@
                &&& forall|j: int| 0 <= j < i ==> !drives@[j].has_audio_cd
            },
        r is None ==> forall|i: int| 0 <= i < drives@.len() ==> !(#[trigger] drives@[i].has_audio_cd),
{
    let mut idx: usize = 0;
    while idx < drives.len()
        invariant
            0 <= idx <= drives@.len(),
            forall|j: int| 0 <= j < idx ==> !(#[trigger] drives@[j].has_audio_cd),
        decreases drives@.len() - idx,
    {
        if drives[idx].has_audio_cd {
            return Some(drives[idx].path.as_str());
        }
        idx += 1;
    }
    None
}

impl<D: DeviceAdapter> CdReader<D> {
    /// Enumerate candidate optical drives and probe whether each one
    /// currently holds an audio CD. Duplicate paths reported by the
    /// platform are probed once; the listed paths are pairwise distinct.
    pub fn list_drives() -> (r: Result<Vec<DriveInfo>, CdReaderError>)
        ensures
            r matches Ok(ds) ==> forall|i: int, j: int|
                0 <= i < j < ds@.len() ==> ds@[i].path@ != ds@[j].path@,
            r matches Ok(ds) ==> forall|i: int|
                0 <= i < ds@.len() ==> ((#[trigger] ds@[i].display_name) matches Some(n) && n@
                    == ds@[i].path@),
            r matches Err(e) ==> e matches CdReaderError::Io(_),
    {
        let paths = match D::list_paths() {
            Ok(p) => p,
            Err(e) => {
                return Err(CdReaderError::Io(e));
            },
        };

        let mut uniq: Vec<String> = Vec::new();
        let mut idx: usize = 0;
        while idx < paths.len()
            invariant
                forall|i: int, j: int| 0 <= i < j < uniq@.len() ==> uniq@[i]@ != uniq@[j]@,
            decreases paths@.len() - idx,
        {
            if !contains_path(&uniq, &paths[idx]) {
                uniq.push(paths[idx].clone());
            }
            idx += 1;
        }

        let mut drives: Vec<DriveInfo> = Vec::with_capacity(uniq.len());
        let mut k: usize = 0;
        while k < uniq.len()
            invariant
                drives@.len() == k,
                0 <= k <= uniq@.len(),
                forall|i: int, j: int| 0 <= i < j < uniq@.len() ==> uniq@[i]@ != uniq@[j]@,
                forall|i: int| 0 <= i < k ==> #[trigger] drives@[i].path@ == uniq@[i]@,
                forall|i: int|
                    0 <= i < k ==> ((#[trigger] drives@[i].display_name) matches Some(n) && n@
                        == drives@[i].path@),
            decreases uniq@.len() - k,
        {
            let path = uniq[k].clone();
            let has_audio_cd = match Self::open(path.as_str()) {
                Ok(reader) => match reader.read_toc() {
                    Ok(toc) => toc_has_audio(&toc),
                    Err(_) => false,
                },
                Err(_) => false,
            };
            drives.push(DriveInfo { display_name: Some(path.clone()), path, has_audio_cd });
            k += 1;
        }

        Ok(drives)
    }

    /// Open the first discovered drive that currently holds an audio CD.
    /// Fails with `NotFound` when no probe found one.
    pub fn open_default() -> (r: Result<Self, CdReaderError>)
        ensures
            r matches Err(e) ==> e matches CdReaderError::Io(_),
    {
        let drives = match Self::list_drives() {
            Ok(ds) => ds,
            Err(e) => {
                return Err(e);
            },
        };
        let chosen = match pick_default_drive_path(&drives) {
            Some(p) => p,
            None => {
                return Err(CdReaderError::io(IoErrorKind::NotFound,
                    "no usable audio CD drive found".to_owned()));
            },
        };
        Self::open(chosen)
    }
}

} // verus!
