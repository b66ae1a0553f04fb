//! Decoding the raw `READ TOC/PMA/ATIP` format-0 response (big-endian)
//! into the TOC model.
//!
//! Wire layout: bytes `[0..2]` hold the payload length, byte `[2]` the
//! first track number, byte `[3]` the last track number. Descriptors begin
//! at offset 4, eight bytes each: `[+1]` control/adr, `[+2]` track number,
//! `[+4..+8]` big-endian LBA. The descriptor with track number `0xAA` is
//! the lead-out; its LBA bounds the last track and it is not emitted as a
//! track.

use vstd::prelude::*;

use crate::errors::CdReaderError;
use crate::Toc;
use crate::Track;

verus! {

/// Big-endian 16-bit value.
pub open spec fn spec_be16(h: u8, l: u8) -> int {
    h * 256 + l
}

/// Big-endian 32-bit value.
pub open spec fn spec_be32(a: u8, b: u8, c: u8, d: u8) -> int {
    ((a * 256 + b) * 256 + c) * 256 + d
}

/// Minute/second/frame address of an absolute LBA. MSF addresses are
/// offset by 150 frames from LBA 0, with 75 frames per second; the
/// minute value wraps at 256 to fit its byte.
pub open spec fn spec_msf(lba: int) -> (u8, u8, u8) {
    (
        ((lba + 150) / 4500 % 256) as u8,
        ((lba + 150) / 75 % 60) as u8,
        ((lba + 150) % 75) as u8,
    )
}

/// A full 8-byte descriptor lies at `off`: it fits the buffer and starts
/// within the payload length announced by the header.
pub open spec fn spec_desc_here(data: Seq<u8>, off: int) -> bool {
    &&& off + 8 <= data.len()
    &&& off < spec_be16(data[0], data[1]) + 2
}

/// The LBA field of the descriptor at `off`.
pub open spec fn spec_desc_lba(data: Seq<u8>, off: int) -> int {
    spec_be32(data[off + 4], data[off + 5], data[off + 6], data[off + 7])
}

/// The track the descriptor at `off` decodes to.
pub open spec fn spec_desc_track(data: Seq<u8>, off: int) -> Track {
    Track {
        number: data[off + 2],
        start_lba: spec_desc_lba(data, off) as u32,
        start_msf: spec_msf(spec_desc_lba(data, off)),
        is_audio: data[off + 1] & 0x04 == 0,
    }
}

/// The tracks decoded from the descriptors at `off` and beyond, in order,
/// lead-out descriptors excluded.
pub open spec fn spec_tracks_from(data: Seq<u8>, off: int) -> Seq<Track>
    decreases data.len() - off,
{
    if spec_desc_here(data, off) {
        if data[off + 2] == 0xAA {
            spec_tracks_from(data, off + 8)
        } else {
            seq![spec_desc_track(data, off)] + spec_tracks_from(data, off + 8)
        }
    } else {
        Seq::empty()
    }
}

/// The lead-out LBA among the descriptors at `off` and beyond; when several
/// lead-out descriptors occur, the last one wins.
pub open spec fn spec_leadout_from(data: Seq<u8>, off: int) -> Option<u32>
    decreases data.len() - off,
{
    if spec_desc_here(data, off) {
        let rest = spec_leadout_from(data, off + 8);
        if rest is Some {
            rest
        } else if data[off + 2] == 0xAA {
            Some(spec_desc_lba(data, off) as u32)
        } else {
            None
        }
    } else {
        None
    }
}

/// What a decoded TOC states about the raw payload it was parsed from.
/// A payload without a lead-out descriptor yields `leadout_lba == 0`, so
/// that reading the last track fails at the bounds check instead of
/// silently treating the end of the TOC as the end of the disc.
pub open spec fn spec_toc_matches(toc: Toc, data: Seq<u8>) -> bool {
    &&& data.len() >= 4
    &&& toc.first_track == data[2]
    &&& toc.last_track == data[3]
    &&& toc.tracks@ == spec_tracks_from(data, 4)
    &&& toc.leadout_lba == (match spec_leadout_from(data, 4) {
        Some(l) => l,
        None => 0u32,
    })
}

/// Convert an absolute LBA to its (minute, second, frame) address.
pub fn lba_to_msf(lba: u32) -> (r: (u8, u8, u8))
    ensures
        r == spec_msf(lba as int),
        (lba + 150) / 4500 < 256 ==> r.0 == (lba + 150) / 4500,
{
    let total: u64 = lba as u64 + 150;
    let minutes: u8 = ((total / 4500) % 256) as u8;
    let seconds: u8 = ((total / 75) % 60) as u8;
    let frames: u8 = (total % 75) as u8;
    (minutes, seconds, frames)
}

/// Decode a `READ TOC` format-0 response.
///
/// Fails only when the buffer cannot hold the four header bytes; trailing
/// partial descriptors are ignored, as is anything past the announced
/// payload length.
pub fn parse_toc(data: Vec<u8>) -> (r: Result<Toc, CdReaderError>)
    ensures
        data@.len() < 4 ==> (r matches Err(e) && e matches CdReaderError::Parse(_)),
        data@.len() >= 4 ==> (r matches Ok(toc) && spec_toc_matches(toc, data@)),
{
    if data.len() < 4 {
        return Err(CdReaderError::Parse("TOC data too short".to_owned()));
    }

    let toc_length: usize = (data[0] as usize) * 256 + (data[1] as usize);
    let first_track = data[2];
    let last_track = data[3];

    let mut tracks: Vec<Track> = Vec::new();
    let mut leadout: Option<u32> = None;
    let mut offset: usize = 4;

    while data.len() - offset >= 8 && offset < toc_length + 2
        invariant
            4 <= offset <= data@.len(),
            data@.len() >= 4,
            toc_length == spec_be16(data@[0], data@[1]),
            spec_tracks_from(data@, 4) == tracks@ + spec_tracks_from(data@, offset as int),
            spec_leadout_from(data@, 4) == (if spec_leadout_from(data@, offset as int) is Some {
                spec_leadout_from(data@, offset as int)
            } else {
                leadout
            }),
        decreases data@.len() - offset,
    {
        let ghost off = offset as int;
        assert(spec_desc_here(data@, off));

        let track_num = data[offset + 2];
        let control = data[offset + 1];

        let lba: u32 = (data[offset + 4] as u32) * 16777216 + (data[offset + 5] as u32) * 65536
            + (data[offset + 6] as u32) * 256 + (data[offset + 7] as u32);
        assert(lba == spec_desc_lba(data@, off));

        let msf = lba_to_msf(lba);

        if track_num != 0xAA {
            let track = Track { number: track_num, start_lba: lba, start_msf: msf, is_audio: control
                & 0x04 == 0 };
            assert(track == spec_desc_track(data@, off));
            tracks.push(track);
            proof {
                assert(tracks@ + spec_tracks_from(data@, off + 8) =~= (tracks@.drop_last() + seq![
                    spec_desc_track(data@, off),
                ]) + spec_tracks_from(data@, off + 8));
            }
        } else {
            leadout = Some(lba);
        }

        offset += 8;
    }

    let leadout_lba: u32 = match leadout {
        Some(l) => l,
        None => 0,
    };

    Ok(Toc { first_track, last_track, tracks, leadout_lba })
}

} // verus!
