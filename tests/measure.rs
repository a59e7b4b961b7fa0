use mp3_duration::constants::{Layer, Mode, Version};
use mp3_duration::context::Context;
use mp3_duration::duration::Duration;
use mp3_duration::error::ErrorKind;
use mp3_duration::{
    from_read, get_bitrate, get_frame_duration, get_frame_length, get_samples_per_frame,
    get_sampling_rate, get_side_information_size, vbr_duration,
};

/// MPEG-1 Layer III, 128 kbit/s, 44100 Hz, stereo, no padding: 417 bytes.
const CBR_HEADER: [u8; 4] = [0xFF, 0xFB, 0x90, 0x00];
const CBR_FRAME_LEN: usize = 417;
/// 1152 samples at 44100 Hz, in nanoseconds, rounded down.
const CBR_FRAME_NANOS: u128 = 26_122_448;

fn cbr_frame() -> Vec<u8> {
    let mut f = CBR_HEADER.to_vec();
    f.resize(CBR_FRAME_LEN, 0x55);
    f
}

fn cbr_stream(n: usize) -> Vec<u8> {
    let mut s = Vec::new();
    for _ in 0..n {
        s.extend_from_slice(&cbr_frame());
    }
    s
}

/// A frame header, 32 bytes of side information, and a 12-byte probe.
fn frame_with_probe(header: [u8; 4], probe: [u8; 12]) -> Vec<u8> {
    let mut f = header.to_vec();
    f.extend_from_slice(&[0u8; 32]);
    f.extend_from_slice(&probe);
    f
}

fn xing_frame(magic: &[u8; 4], flags: u8, frames: u32) -> Vec<u8> {
    let mut probe = [0u8; 12];
    probe[..4].copy_from_slice(magic);
    probe[7] = flags;
    probe[8..].copy_from_slice(&frames.to_be_bytes());
    frame_with_probe(CBR_HEADER, probe)
}

fn id3v2_tag(flags: u8, size: [u8; 4], body: usize) -> Vec<u8> {
    let mut t = vec![b'I', b'D', b'3', 4, 0, flags];
    t.extend_from_slice(&size);
    t.resize(10 + body, 0x20);
    t
}

#[test]
fn empty_stream_measures_zero() {
    let d = from_read(&[]).unwrap();
    assert_eq!(d.as_nanos(), 0);
}

#[test]
fn only_zero_bytes_measure_zero() {
    let d = from_read(&[0u8; 100]).unwrap();
    assert_eq!(d.as_nanos(), 0);
}

#[test]
fn constant_bitrate_ten_frames() {
    let d = from_read(&cbr_stream(10)).unwrap();
    assert_eq!(d.as_secs(), 0);
    assert_eq!(d.subsec_nanos(), 261_224_480);
    assert_eq!(d.as_nanos(), 10 * CBR_FRAME_NANOS);
}

#[test]
fn constant_bitrate_hundred_frames() {
    let d = from_read(&cbr_stream(100)).unwrap();
    assert_eq!(d.as_secs(), 2);
    assert_eq!(d.subsec_nanos(), 612_244_800);
}

#[test]
fn constant_bitrate_within_one_nanosecond_per_frame() {
    let n: u128 = 37;
    let d = from_read(&cbr_stream(n as usize)).unwrap();
    let exact = n * 1152 * 1_000_000_000 / 44100;
    assert!(d.as_nanos() <= exact);
    assert!(exact < d.as_nanos() + n);
}

#[test]
fn padding_bit_adds_one_byte() {
    let mut f = vec![0xFF, 0xFB, 0x92, 0x00];
    f.resize(CBR_FRAME_LEN + 1, 0x55);
    let mut s = f.clone();
    s.extend_from_slice(&f);
    let d = from_read(&s).unwrap();
    assert_eq!(d.as_nanos(), 2 * CBR_FRAME_NANOS);
}

#[test]
fn xing_frame_count_gives_duration() {
    let d = from_read(&xing_frame(b"Xing", 1, 4096)).unwrap();
    assert_eq!(d.as_secs(), 106);
    assert_eq!(d.subsec_nanos(), 997_551_020);
}

#[test]
fn info_frame_count_ignores_what_follows() {
    let mut s = cbr_stream(3);
    s.extend_from_slice(&xing_frame(b"Info", 0x0F, 4096));
    s.extend_from_slice(b"garbage that is never read");
    let d = from_read(&s).unwrap();
    assert_eq!(d.as_secs(), 106);
    assert_eq!(d.subsec_nanos(), 997_551_020);
}

#[test]
fn xing_without_frame_flag_is_an_ordinary_frame() {
    let mut f = xing_frame(b"Xing", 0, 4096);
    f.resize(CBR_FRAME_LEN, 0);
    let mut s = f.clone();
    s.extend_from_slice(&cbr_frame());
    let d = from_read(&s).unwrap();
    assert_eq!(d.as_nanos(), 2 * CBR_FRAME_NANOS);
}

#[test]
fn zero_padding_is_skipped() {
    let mut s = vec![0u8; 7];
    s.extend_from_slice(&cbr_stream(2));
    s.extend_from_slice(&[0u8; 5]);
    s.extend_from_slice(&cbr_stream(1));
    let d = from_read(&s).unwrap();
    assert_eq!(d.as_nanos(), 3 * CBR_FRAME_NANOS);
}

#[test]
fn zero_padding_shifts_error_offsets() {
    let mut bad = cbr_stream(1);
    bad.extend_from_slice(b"junk");
    let e = from_read(&bad).unwrap_err();
    assert_eq!(e.offset, CBR_FRAME_LEN + 4);
    let mut padded = vec![0u8; 9];
    padded.extend_from_slice(&bad);
    let e2 = from_read(&padded).unwrap_err();
    assert_eq!(e2.offset, CBR_FRAME_LEN + 4 + 9);
    assert_eq!(e2.at_duration.as_nanos(), CBR_FRAME_NANOS);
    assert!(matches!(e2.kind, ErrorKind::UnexpectedFrame { header: 0x6A75_6E6B }));
}

#[test]
fn truncated_frame_body_reports_complete_frames() {
    let mut s = cbr_stream(3);
    s.extend_from_slice(&cbr_frame()[..200]);
    let e = from_read(&s).unwrap_err();
    assert!(matches!(e.kind, ErrorKind::UnexpectedEOF));
    assert_eq!(e.at_duration.as_nanos(), 3 * CBR_FRAME_NANOS);
    assert_eq!(e.offset, 3 * CBR_FRAME_LEN + 4 + 32 + 12);
}

#[test]
fn truncated_header_is_unexpected_eof() {
    let mut s = cbr_stream(1);
    s.extend_from_slice(&[0xFF, 0xFB]);
    let e = from_read(&s).unwrap_err();
    assert!(matches!(e.kind, ErrorKind::UnexpectedEOF));
    assert_eq!(e.offset, CBR_FRAME_LEN + 1);
    assert_eq!(e.at_duration.as_nanos(), CBR_FRAME_NANOS);
}

#[test]
fn truncated_side_information_is_unexpected_eof() {
    let e = from_read(&cbr_frame()[..20]).unwrap_err();
    assert!(matches!(e.kind, ErrorKind::UnexpectedEOF));
    assert_eq!(e.offset, 4);
}

#[test]
fn truncated_probe_is_unexpected_eof() {
    let e = from_read(&cbr_frame()[..40]).unwrap_err();
    assert!(matches!(e.kind, ErrorKind::UnexpectedEOF));
    assert_eq!(e.offset, 36);
}

#[test]
fn frame_shorter_than_probe_fails() {
    // MPEG-1 Layer I, 32 kbit/s, 48000 Hz: 32 bytes, less than 4 + 32 + 12.
    let f = frame_with_probe([0xFF, 0xFF, 0x14, 0x00], [0u8; 12]);
    let e = from_read(&f).unwrap_err();
    assert!(matches!(e.kind, ErrorKind::MPEGFrameTooShort));
    assert_eq!(e.offset, 48);
    assert_eq!(e.at_duration.as_nanos(), 0);
}

#[test]
fn forbidden_version() {
    let e = from_read(&[0xFF, 0xEB, 0x90, 0x00, 1, 2, 3]).unwrap_err();
    assert!(matches!(e.kind, ErrorKind::ForbiddenVersion));
    assert_eq!(e.offset, 4);
}

#[test]
fn forbidden_layer() {
    let e = from_read(&[0xFF, 0xF9, 0x90, 0x00, 1, 2, 3]).unwrap_err();
    assert!(matches!(e.kind, ErrorKind::ForbiddenLayer));
    assert_eq!(e.offset, 4);
}

#[test]
fn reserved_sampling_rate() {
    let e = from_read(&[0xFF, 0xFB, 0x9C, 0x00]).unwrap_err();
    assert!(matches!(e.kind, ErrorKind::InvalidSamplingRate { sampling_rate: 3 }));
    assert_eq!(e.offset, 4);
}

#[test]
fn reserved_bitrate_fifteen() {
    let f = frame_with_probe([0xFF, 0xFB, 0xF0, 0x00], [0u8; 12]);
    let e = from_read(&f).unwrap_err();
    assert!(matches!(e.kind, ErrorKind::InvalidBitrate { bitrate: 15 }));
    assert_eq!(e.offset, 48);
}

#[test]
fn free_format_bitrate_zero() {
    let f = frame_with_probe([0xFF, 0xFB, 0x00, 0x00], [0u8; 12]);
    let e = from_read(&f).unwrap_err();
    assert!(matches!(e.kind, ErrorKind::InvalidBitrate { bitrate: 0 }));
}

#[test]
fn unrecognized_block() {
    let e = from_read(b"RIFF....").unwrap_err();
    assert!(matches!(e.kind, ErrorKind::UnexpectedFrame { header: 0x5249_4646 }));
    assert_eq!(e.offset, 4);
    assert_eq!(e.at_duration.as_nanos(), 0);
}

#[test]
fn id3v2_synchsafe_size() {
    let mut s = id3v2_tag(0, [0x00, 0x00, 0x02, 0x01], 257);
    s.extend_from_slice(&cbr_stream(2));
    let d = from_read(&s).unwrap();
    assert_eq!(d.as_nanos(), 2 * CBR_FRAME_NANOS);
}

#[test]
fn id3v2_size_one_short_is_unexpected_eof() {
    let s = id3v2_tag(0, [0x00, 0x00, 0x02, 0x01], 256);
    let e = from_read(&s).unwrap_err();
    assert!(matches!(e.kind, ErrorKind::UnexpectedEOF));
    assert_eq!(e.offset, 10);
}

#[test]
fn id3v2_footer_adds_ten_bytes() {
    let mut s = id3v2_tag(0x10, [0x00, 0x00, 0x02, 0x01], 267);
    s.extend_from_slice(&cbr_stream(1));
    let d = from_read(&s).unwrap();
    assert_eq!(d.as_nanos(), CBR_FRAME_NANOS);
    let short = id3v2_tag(0x10, [0x00, 0x00, 0x02, 0x01], 257);
    assert!(from_read(&short).is_err());
}

#[test]
fn id3v2_size_ignores_top_bits() {
    let mut s = id3v2_tag(0, [0x80, 0x80, 0x82, 0x81], 257);
    s.extend_from_slice(&cbr_stream(1));
    let d = from_read(&s).unwrap();
    assert_eq!(d.as_nanos(), CBR_FRAME_NANOS);
}

#[test]
fn id3v1_tag_is_skipped() {
    let mut s = cbr_stream(2);
    let mut tag = b"TAG".to_vec();
    tag.resize(128, b'x');
    s.extend_from_slice(&tag);
    let d = from_read(&s).unwrap();
    assert_eq!(d.as_nanos(), 2 * CBR_FRAME_NANOS);
    let e = from_read(&tag[..100]).unwrap_err();
    assert!(matches!(e.kind, ErrorKind::UnexpectedEOF));
    assert_eq!(e.offset, 4);
}

#[test]
fn apev2_tag_is_skipped() {
    let mut s = cbr_stream(1);
    let mut tag = b"APETAGEX".to_vec();
    tag.extend_from_slice(&2000u32.to_le_bytes());
    tag.extend_from_slice(&40u32.to_le_bytes());
    tag.resize(16 + 40 + 16, 0);
    s.extend_from_slice(&tag);
    s.extend_from_slice(&cbr_frame());
    let d = from_read(&s).unwrap();
    assert_eq!(d.as_nanos(), 2 * CBR_FRAME_NANOS);
}

#[test]
fn apev2_prefix_without_full_magic() {
    let mut s = b"APETAGEZ".to_vec();
    s.resize(20, 0);
    let e = from_read(&s).unwrap_err();
    assert!(matches!(e.kind, ErrorKind::UnexpectedFrame { header: 0x4150_4554 }));
    assert_eq!(e.offset, 16);
}

#[test]
fn apev2_huge_size_is_unexpected_eof() {
    let mut tag = b"APETAGEX".to_vec();
    tag.extend_from_slice(&2000u32.to_le_bytes());
    tag.extend_from_slice(&u32::MAX.to_le_bytes());
    let e = from_read(&tag).unwrap_err();
    assert!(matches!(e.kind, ErrorKind::UnexpectedEOF));
    assert_eq!(e.offset, 16);
}

#[test]
fn mpeg2_layer3_frame() {
    // MPEG-2 Layer III, 64 kbit/s, 22050 Hz, mono: 576 / 8 * 64000 / 22050 = 208 bytes.
    let mut f = vec![0xFF, 0xF3, 0x80, 0xC0];
    f.resize(208, 0x11);
    let d = from_read(&f).unwrap();
    assert_eq!(d.as_nanos(), 26_122_448);
}

#[test]
fn context_reads_and_skips() {
    let data = [1u8, 2, 3, 4, 5];
    let mut c = Context::new(&data);
    let mut buf = [0u8; 2];
    assert!(c.read_exact(&mut buf).is_ok());
    assert_eq!(buf, [1, 2]);
    assert!(c.skip(2).is_ok());
    assert!(!c.reached_eof());
    let mut more = [9u8; 2];
    let e = c.read_exact(&mut more).unwrap_err();
    assert!(c.reached_eof());
    assert!(matches!(e.kind, ErrorKind::UnexpectedEOF));
    assert_eq!(e.offset, 4);
    assert_eq!(more, [9, 9]);
    let e = c.skip(2).unwrap_err();
    assert_eq!(e.offset, 4);
    assert!(c.skip(1).is_ok());
    assert!(!c.reached_eof());
    let e = c.error(ErrorKind::MPEGFrameTooShort);
    assert_eq!(e.offset, 5);
    assert_eq!(e.at_duration.as_nanos(), 0);
}

#[test]
fn context_accumulates_duration() {
    let data = [0u8; 3];
    let mut c = Context::new(&data);
    c.add_duration(Duration::new(1, 500_000_000));
    c.add_duration(Duration::new(0, 700_000_000));
    assert_eq!(c.duration().as_secs(), 2);
    assert_eq!(c.duration().subsec_nanos(), 200_000_000);
}

#[test]
fn table_lookups() {
    let data = [0u8; 1];
    let c = Context::new(&data);
    assert_eq!(get_bitrate(&c, Version::Mpeg1, Layer::Layer3, 9).unwrap(), 128_000);
    assert_eq!(get_bitrate(&c, Version::Mpeg1, Layer::Layer1, 14).unwrap(), 448_000);
    assert_eq!(get_bitrate(&c, Version::Mpeg25, Layer::Layer2, 1).unwrap(), 8_000);
    assert!(matches!(
        get_bitrate(&c, Version::Mpeg1, Layer::NotDefined, 15).unwrap_err().kind,
        ErrorKind::ForbiddenLayer
    ));
    assert!(matches!(
        get_bitrate(&c, Version::Mpeg2, Layer::Layer3, 15).unwrap_err().kind,
        ErrorKind::InvalidBitrate { bitrate: 15 }
    ));
    assert_eq!(get_sampling_rate(&c, Version::Mpeg1, 1).unwrap(), 48_000);
    assert_eq!(get_sampling_rate(&c, Version::Mpeg25, 2).unwrap(), 8_000);
    assert!(matches!(
        get_sampling_rate(&c, Version::Mpeg2, 3).unwrap_err().kind,
        ErrorKind::InvalidSamplingRate { sampling_rate: 3 }
    ));
    assert_eq!(get_samples_per_frame(&c, Version::Mpeg1, Layer::Layer3).unwrap(), 1152);
    assert_eq!(get_samples_per_frame(&c, Version::Mpeg2, Layer::Layer3).unwrap(), 576);
    assert_eq!(get_samples_per_frame(&c, Version::Mpeg25, Layer::Layer1).unwrap(), 384);
    assert!(matches!(
        get_samples_per_frame(&c, Version::Mpeg1, Layer::NotDefined).unwrap_err().kind,
        ErrorKind::ForbiddenLayer
    ));
    assert_eq!(get_side_information_size(Version::Mpeg1, Mode::Stereo), 32);
    assert_eq!(get_side_information_size(Version::Mpeg1, Mode::Mono), 17);
    assert_eq!(get_side_information_size(Version::Mpeg2, Mode::JointStereo), 17);
    assert_eq!(get_side_information_size(Version::Mpeg25, Mode::Mono), 9);
}

#[test]
fn frame_arithmetic() {
    assert_eq!(get_frame_length(1152, 128_000, 44_100, 0), 417);
    assert_eq!(get_frame_length(1152, 128_000, 44_100, 1), 418);
    assert_eq!(get_frame_length(384, 32_000, 48_000, 0), 32);
    assert_eq!(get_frame_duration(1152, 44_100).as_nanos(), 26_122_448);
    assert_eq!(get_frame_duration(1152, 8_000).as_nanos(), 144_000_000);
    let d = vbr_duration(4096, 1152, 44_100);
    assert_eq!(d.as_secs(), 106);
    assert_eq!(d.subsec_nanos(), 997_551_020);
    let big = vbr_duration(u32::MAX, 1152, 8_000);
    assert_eq!(big.as_nanos(), (u32::MAX as u128) * 1152 * 1_000_000_000 / 8_000);
}

#[test]
fn duration_arithmetic() {
    let d = Duration::new(3, 2_500_000_000);
    assert_eq!(d.as_secs(), 5);
    assert_eq!(d.subsec_nanos(), 500_000_000);
    assert_eq!(Duration::from_secs(7).as_nanos(), 7_000_000_000);
    let s = d.checked_add(Duration::new(0, 600_000_000)).unwrap();
    assert_eq!(s.as_secs(), 6);
    assert_eq!(s.subsec_nanos(), 100_000_000);
    assert!(Duration::from_secs(u64::MAX).checked_add(Duration::new(1, 0)).is_none());
}
