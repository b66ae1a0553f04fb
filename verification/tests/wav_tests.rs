use cd_da_reader::create_wav;
use cd_da_reader::create_wav_header;

#[test]
fn wav_header_bytes_for_256_byte_payload() {
    let header = create_wav_header(0x100);
    let expected: Vec<u8> = vec![
        0x52, 0x49, 0x46, 0x46, 0x24, 0x01, 0x00, 0x00, 0x57, 0x41, 0x56, 0x45, 0x66, 0x6D, 0x74,
        0x20, 0x10, 0x00, 0x00, 0x00, 0x01, 0x00, 0x02, 0x00, 0x44, 0xAC, 0x00, 0x00, 0x10, 0xB1,
        0x02, 0x00, 0x04, 0x00, 0x10, 0x00, 0x64, 0x61, 0x74, 0x61, 0x00, 0x01, 0x00, 0x00,
    ];
    assert_eq!(header, expected);
}

#[test]
fn wav_header_is_44_bytes() {
    assert_eq!(create_wav_header(0).len(), 44);
    assert_eq!(create_wav_header(0xFFFF_0000).len(), 44);
}

#[test]
fn wav_file_is_header_then_pcm() {
    let pcm: Vec<u8> = vec![1, 2, 3, 4, 5, 6, 7, 8];
    let wav = create_wav(pcm.clone());
    assert_eq!(wav.len(), 44 + pcm.len());
    assert_eq!(wav[..44], create_wav_header(pcm.len() as u32)[..]);
    assert_eq!(wav[44..], pcm[..]);
}
