//! Sector geometry: locating a track in the TOC and computing the LBA
//! range it occupies.

use vstd::prelude::*;

use crate::errors::CdReaderError;
use crate::errors::IoErrorKind;
use crate::parse_toc::spec_desc_here;
use crate::parse_toc::spec_desc_lba;
use crate::parse_toc::spec_desc_track;
use crate::parse_toc::spec_leadout_from;
use crate::parse_toc::spec_toc_matches;
use crate::parse_toc::spec_tracks_from;
use crate::Toc;
use crate::Track;

verus! {

/// Index of the first track with the given number, if any.
pub open spec fn spec_find_track(tracks: Seq<Track>, track_no: u8) -> Option<int>
    decreases tracks.len(),
{
    if tracks.len() == 0 {
        None
    } else if tracks[0].number == track_no {
        Some(0int)
    } else {
        match spec_find_track(tracks.drop_first(), track_no) {
            Some(i) => Some(i + 1),
            None => None,
        }
    }
}

/// `spec_find_track` returns the first index whose track number matches,
/// or `None` when no track matches.
pub proof fn lemma_find_track_spec(tracks: Seq<Track>, track_no: u8)
    ensures
        match spec_find_track(tracks, track_no) {
            Some(i) => {
                &&& 0 <= i < tracks.len()
                &&& tracks[i].number == track_no
                &&& forall|j: int| 0 <= j < i ==> tracks[j].number != track_no
            },
            None => forall|j: int| 0 <= j < tracks.len() ==> tracks[j].number != track_no,
        },
    decreases tracks.len(),
{
    if tracks.len() == 0 {
    } else if tracks[0].number == track_no {
    } else {
        let tail = tracks.drop_first();
        lemma_find_track_spec(tail, track_no);
        assert(forall|j: int| 0 <= j < tail.len() ==> tail[j] == tracks[j + 1]);
        match spec_find_track(tail, track_no) {
            Some(i) => {
                assert(tracks[i + 1].number == track_no);
                assert(forall|j: int| 1 <= j < i + 1 ==> tracks[j] == tail[j - 1]);
            },
            None => {
                assert(forall|j: int| 1 <= j < tracks.len() ==> tracks[j] == tail[j - 1]);
            },
        }
    }
}

/// End LBA of the track at index `i`: the next track's start, or the
/// lead-out for the last track.
pub open spec fn spec_end_lba(toc: Toc, i: int) -> int {
    if i + 1 < toc.tracks@.len() {
        toc.tracks@[i + 1].start_lba as int
    } else {
        toc.leadout_lba as int
    }
}

/// The exact outcome of `get_track_bounds`, with errors by kind.
pub open spec fn spec_track_bounds(toc: Toc, track_no: u8) -> Result<(u32, u32), IoErrorKind> {
    match spec_find_track(toc.tracks@, track_no) {
        None => Err(IoErrorKind::NotFound),
        Some(i) => {
            let start = toc.tracks@[i].start_lba as int;
            let end = spec_end_lba(toc, i);
            if end <= start {
                Err(IoErrorKind::InvalidData)
            } else {
                Ok((start as u32, (end - start) as u32))
            }
        },
    }
}

/// The TOC invariant: tracks strictly increasing by start LBA, and the
/// lead-out strictly beyond the last track's start.
pub open spec fn spec_toc_wf(toc: Toc) -> bool {
    &&& forall|i: int, j: int|
        0 <= i < j < toc.tracks@.len() ==> toc.tracks@[i].start_lba < toc.tracks@[j].start_lba
    &&& toc.tracks@.len() > 0 ==> toc.tracks@[toc.tracks@.len() - 1].start_lba < toc.leadout_lba
}

/// A well-formed TOC owes bounds to every track number present in it: the
/// range starts at that track's LBA and runs to the next track's start, or
/// to the lead-out for the last track, and is never empty.
pub proof fn lemma_wf_toc_has_bounds(toc: Toc, track_no: u8)
    requires
        spec_toc_wf(toc),
        spec_find_track(toc.tracks@, track_no) is Some,
    ensures
        spec_track_bounds(toc, track_no) matches Ok(b) && {
            let i = spec_find_track(toc.tracks@, track_no).unwrap();
            &&& b.0 == toc.tracks@[i].start_lba
            &&& b.1 > 0
            &&& b.0 + b.1 == spec_end_lba(toc, i)
        },
{
    lemma_find_track_spec(toc.tracks@, track_no);
    let i = spec_find_track(toc.tracks@, track_no).unwrap();
    if i + 1 < toc.tracks@.len() {
        assert(toc.tracks@[i].start_lba < toc.tracks@[i + 1].start_lba);
    } else {
        assert(toc.tracks@[toc.tracks@.len() - 1].start_lba < toc.leadout_lba);
    }
}

/// Offset of the payload descriptor that the `i`-th parsed track (at
/// descriptor offset `off` and beyond) comes from.
pub open spec fn spec_track_offset(data: Seq<u8>, off: int, i: int) -> int
    decreases data.len() - off,
{
    if spec_desc_here(data, off) {
        if data[off + 2] == 0xAA {
            spec_track_offset(data, off + 8, i)
        } else if i == 0 {
            off
        } else {
            spec_track_offset(data, off + 8, i - 1)
        }
    } else {
        0
    }
}

/// Each parsed track is the decoding of a non-lead-out descriptor of the
/// payload, at or after the offset the parse started from.
pub proof fn lemma_track_offsets(data: Seq<u8>, off: int, i: int)
    requires
        0 <= i < spec_tracks_from(data, off).len(),
    ensures
        ({
            let o = spec_track_offset(data, off, i);
            &&& off <= o
            &&& spec_desc_here(data, o)
            &&& data[o + 2] != 0xAA
            &&& spec_tracks_from(data, off)[i] == spec_desc_track(data, o)
        }),
    decreases data.len() - off,
{
    if spec_desc_here(data, off) {
        if data[off + 2] == 0xAA {
            lemma_track_offsets(data, off + 8, i);
        } else if i == 0 {
        } else {
            lemma_track_offsets(data, off + 8, i - 1);
        }
    }
}

/// Later parsed tracks come from strictly later descriptors.
pub proof fn lemma_track_offsets_increase(data: Seq<u8>, off: int, i: int, j: int)
    requires
        0 <= i < j < spec_tracks_from(data, off).len(),
    ensures
        spec_track_offset(data, off, i) < spec_track_offset(data, off, j),
    decreases data.len() - off,
{
    if spec_desc_here(data, off) {
        if data[off + 2] == 0xAA {
            lemma_track_offsets_increase(data, off + 8, i, j);
        } else if i == 0 {
            lemma_track_offsets(data, off + 8, j - 1);
        } else {
            lemma_track_offsets_increase(data, off + 8, i - 1, j - 1);
        }
    }
}

/// The TOC invariant is established by parsing: a payload whose track
/// descriptors carry strictly increasing LBAs, all below the lead-out
/// descriptor's LBA, parses to a well-formed TOC. A payload from a
/// damaged or non-conforming disc need not satisfy the hypothesis; its
/// TOC then fails at the bounds check instead of being misread.
pub proof fn lemma_ordered_payload_parses_wf(toc: Toc, data: Seq<u8>, leadout: u32)
    requires
        spec_toc_matches(toc, data),
        spec_leadout_from(data, 4) == Some(leadout),
        forall|o1: int, o2: int|
            (4 <= o1 < o2 && spec_desc_here(data, o1) && spec_desc_here(data, o2) && data[o1
                + 2] != 0xAA && data[o2 + 2] != 0xAA) ==> #[trigger] spec_desc_lba(data, o1)
                < #[trigger] spec_desc_lba(data, o2),
        forall|o: int|
            (4 <= o && spec_desc_here(data, o) && data[o + 2] != 0xAA)
                ==> #[trigger] spec_desc_lba(data, o) < leadout,
    ensures
        spec_toc_wf(toc),
{
    let tracks = toc.tracks@;
    assert forall|i: int, j: int|
        0 <= i < j < tracks.len() implies tracks[i].start_lba < tracks[j].start_lba by {
        lemma_track_offsets(data, 4, i);
        lemma_track_offsets(data, 4, j);
        lemma_track_offsets_increase(data, 4, i, j);
    }
    if tracks.len() > 0 {
        lemma_track_offsets(data, 4, tracks.len() - 1);
    }
}

/// Locate `track_no` in the TOC and return `(start_lba, sector_count)`.
///
/// Fails with `NotFound` when no track carries that number, and with
/// `InvalidData` when the TOC places the track's end at or before its
/// start.
pub fn get_track_bounds(toc: &Toc, track_no: u8) -> (r: Result<(u32, u32), CdReaderError>)
    ensures
        spec_track_bounds(*toc, track_no) matches Ok(b) ==> (r matches Ok(rb) && rb == b),
        spec_track_bounds(*toc, track_no) matches Err(k) ==> (r matches Err(e) && e matches
            CdReaderError::Io(io) && io.kind == k),
{
    let mut idx: usize = 0;
    while idx < toc.tracks.len()
        invariant
            0 <= idx <= toc.tracks@.len(),
            forall|j: int| 0 <= j < idx ==> toc.tracks@[j].number != track_no,
        decreases toc.tracks@.len() - idx,
    {
        if toc.tracks[idx].number == track_no {
            proof {
                lemma_find_track_spec(toc.tracks@, track_no);
                assert(spec_find_track(toc.tracks@, track_no) == Some(idx as int));
            }
            let start_lba = toc.tracks[idx].start_lba;
            let end_lba: u32 = if idx + 1 < toc.tracks.len() {
                toc.tracks[idx + 1].start_lba
            } else {
                toc.leadout_lba
            };
            if end_lba <= start_lba {
                return Err(CdReaderError::io(IoErrorKind::InvalidData, "bad TOC bounds".to_owned()));
            }
            return Ok((start_lba, end_lba - start_lba));
        }
        idx += 1;
    }
    proof {
        lemma_find_track_spec(toc.tracks@, track_no);
    }
    Err(CdReaderError::io(IoErrorKind::NotFound, "track not in TOC".to_owned()))
}

} // verus!
