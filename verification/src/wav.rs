//! Framing raw CD-DA PCM as a WAV file: a 44-byte RIFF/WAVE header over
//! little-endian signed 16-bit stereo samples at 44100 Hz.

use vstd::prelude::*;

verus! {

/// Little-endian bytes of a 16-bit value.
pub open spec fn spec_le16(x: int) -> Seq<u8> {
    seq![(x % 256) as u8, (x / 256 % 256) as u8]
}

/// Little-endian bytes of a 32-bit value.
pub open spec fn spec_le32(x: int) -> Seq<u8> {
    seq![
        (x % 256) as u8,
        (x / 256 % 256) as u8,
        (x / 65536 % 256) as u8,
        (x / 16777216 % 256) as u8,
    ]
}

/// The 44-byte RIFF/WAVE header over `pcm_size` bytes of CD-DA PCM:
/// PCM format, 2 channels, 44100 Hz sample rate, byte rate 176400,
/// block align 4, 16 bits per sample.
pub open spec fn spec_wav_header(pcm_size: int) -> Seq<u8> {
    seq![0x52u8, 0x49u8, 0x46u8, 0x46u8]  // "RIFF"
    + spec_le32(pcm_size + 36)  // file size - 8
    + seq![0x57u8, 0x41u8, 0x56u8, 0x45u8]  // "WAVE"
    + seq![0x66u8, 0x6Du8, 0x74u8, 0x20u8]  // "fmt "
    + spec_le32(16)  // fmt chunk size
    + spec_le16(1)  // PCM format
    + spec_le16(2)  // channels
    + spec_le32(44100)  // sample rate
    + spec_le32(176400)  // byte rate
    + spec_le16(4)  // block align
    + spec_le16(16)  // bits per sample
    + seq![0x64u8, 0x61u8, 0x74u8, 0x61u8]  // "data"
    + spec_le32(pcm_size)
}

/// Append the little-endian bytes of a 16-bit value.
fn push_le16(out: &mut Vec<u8>, x: u16)
    ensures
        final(out)@ == old(out)@ + spec_le16(x as int),
{
    out.push((x % 256) as u8);
    out.push((x / 256) as u8);
    proof {
        assert(out@ =~= old(out)@ + spec_le16(x as int));
    }
}

/// Append the little-endian bytes of a 32-bit value.
fn push_le32(out: &mut Vec<u8>, x: u32)
    ensures
        final(out)@ == old(out)@ + spec_le32(x as int),
{
    out.push((x % 256) as u8);
    out.push((x / 256 % 256) as u8);
    out.push((x / 65536 % 256) as u8);
    out.push((x / 16777216) as u8);
    proof {
        assert(out@ =~= old(out)@ + spec_le32(x as int));
    }
}

/// Build the 44-byte WAV header for `pcm_data_size` bytes of PCM.
pub fn create_wav_header(pcm_data_size: u32) -> (r: Vec<u8>)
    requires
        pcm_data_size + 36 <= u32::MAX,
    ensures
        r@ == spec_wav_header(pcm_data_size as int),
        r@.len() == 44,
{
    let mut header: Vec<u8> = Vec::with_capacity(44);

    // RIFF header
    header.push(0x52);
    header.push(0x49);
    header.push(0x46);
    header.push(0x46);
    push_le32(&mut header, pcm_data_size + 36);
    header.push(0x57);
    header.push(0x41);
    header.push(0x56);
    header.push(0x45);

    // fmt chunk
    header.push(0x66);
    header.push(0x6D);
    header.push(0x74);
    header.push(0x20);
    push_le32(&mut header, 16);
    push_le16(&mut header, 1);
    push_le16(&mut header, 2);
    push_le32(&mut header, 44100);
    push_le32(&mut header, 176400);
    push_le16(&mut header, 4);
    push_le16(&mut header, 16);

    // data chunk header
    header.push(0x64);
    header.push(0x61);
    header.push(0x74);
    header.push(0x61);
    push_le32(&mut header, pcm_data_size);

    proof {
        assert(header@ =~= spec_wav_header(pcm_data_size as int));
    }
    header
}

/// Frame PCM bytes as a complete WAV file: header followed by the data.
pub fn create_wav(pcm: Vec<u8>) -> (r: Vec<u8>)
    requires
        pcm@.len() + 36 <= u32::MAX,
    ensures
        r@ == spec_wav_header(pcm@.len() as int) + pcm@,
{
    let mut data = pcm;
    let mut out = create_wav_header(data.len() as u32);
    out.append(&mut data);
    out
}

} // verus!
