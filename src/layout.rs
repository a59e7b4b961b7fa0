//! The block structure of an MPEG audio stream, as a mathematical model.
//!
//! A stream is a sequence of blocks: audio frames, ID3v2, ID3v1 and APEv2
//! tags, and stray zero bytes between them. `scan` gives the outcome of
//! measuring a whole stream.
use vstd::prelude::*;

use crate::constants::{
    bit_rate_row, layer_index, mode_index, samples_per_frame_table, sampling_rate_table,
    side_information_table, version_index, Layer, Mode, Version,
};
use crate::duration::NANOS_PER_SEC;
use crate::error::ErrorKind;

verus! {

/// Four bytes read as a big-endian integer.
pub open spec fn be_u32(a: u8, b: u8, c: u8, d: u8) -> u32 {
    (a as u32) << 24u32 | (b as u32) << 16u32 | (c as u32) << 8u32 | (d as u32)
}

/// The four bytes at `pos` read as a big-endian integer.
pub open spec fn header_at(data: Seq<u8>, pos: int) -> u32 {
    be_u32(data[pos], data[pos + 1], data[pos + 2], data[pos + 3])
}

/// The top eleven bits of an audio frame header are all set.
pub open spec fn is_sync(h: u32) -> bool {
    h >> 21u32 == 0x7FFu32
}

/// The two version bits of a header.
pub open spec fn version_bits(h: u32) -> u32 {
    (h >> 19u32) & 0b11u32
}

/// The two layer bits of a header.
pub open spec fn layer_bits(h: u32) -> u32 {
    (h >> 17u32) & 0b11u32
}

/// The four bitrate bits of a header.
pub open spec fn bitrate_code(h: u32) -> u8 {
    ((h >> 12u32) & 0b1111u32) as u8
}

/// The two sampling-rate bits of a header.
pub open spec fn sampling_rate_code(h: u32) -> u8 {
    ((h >> 10u32) & 0b11u32) as u8
}

/// The padding bit of a header: one more byte in the frame.
pub open spec fn padding_bit(h: u32) -> u32 {
    if (h >> 9u32) & 1u32 != 0 { 1 } else { 0 }
}

/// The two channel-mode bits of a header.
pub open spec fn mode_bits(h: u32) -> u32 {
    (h >> 6u32) & 0b11u32
}

/// The version that two bits encode; `01` is reserved.
pub open spec fn decode_version(bits: u32) -> Option<Version> {
    if bits == 0 {
        Some(Version::Mpeg25)
    } else if bits == 1 {
        None
    } else if bits == 2 {
        Some(Version::Mpeg2)
    } else {
        Some(Version::Mpeg1)
    }
}

/// The layer that two bits encode; `00` is the reserved `NotDefined`.
pub open spec fn decode_layer(bits: u32) -> Layer {
    if bits == 0 {
        Layer::NotDefined
    } else if bits == 1 {
        Layer::Layer3
    } else if bits == 2 {
        Layer::Layer2
    } else {
        Layer::Layer1
    }
}

/// The channel mode that two bits encode.
pub open spec fn decode_mode(bits: u32) -> Mode {
    if bits == 0 {
        Mode::Stereo
    } else if bits == 1 {
        Mode::JointStereo
    } else if bits == 2 {
        Mode::DualChannel
    } else {
        Mode::Mono
    }
}

/// Sampling rate in Hz of a version and a (non-reserved) code.
pub open spec fn sampling_rate(version: Version, code: u8) -> u32 {
    sampling_rate_table()[version_index(version)][code as int]
}

/// Samples carried by one frame of a version and layer.
pub open spec fn samples_per_frame(version: Version, layer: Layer) -> u32 {
    samples_per_frame_table()[version_index(version)][layer_index(layer)]
}

/// Bytes of side information between the header and the rest of a frame.
pub open spec fn side_information_size(version: Version, mode: Mode) -> u32 {
    side_information_table()[version_index(version)][mode_index(mode)]
}

/// Bitrate in bit/s of a version, layer and (non-reserved) code.
pub open spec fn bitrate(version: Version, layer: Layer, code: u8) -> int {
    1000 * bit_rate_row(version, layer)[code as int]
}

/// Bytes in one frame.
pub open spec fn frame_length(samples: int, bitrate: int, rate: int, padding: int) -> int {
    samples / 8 * bitrate / rate + padding
}

/// Nanoseconds of audio in one frame, rounded down.
pub open spec fn frame_nanos(samples: int, rate: int) -> int {
    samples * (NANOS_PER_SEC as int) / rate
}

/// Nanoseconds of audio in `frames` frames, rounded down once.
pub open spec fn total_nanos(frames: int, samples: int, rate: int) -> int {
    frames * samples * (NANOS_PER_SEC as int) / rate
}

/// `"ID3"` at `pos`: an ID3v2 tag.
pub open spec fn id3v2_magic(data: Seq<u8>, pos: int) -> bool {
    data[pos] == 0x49 && data[pos + 1] == 0x44 && data[pos + 2] == 0x33
}

/// `"TAG"` at `pos`: an ID3v1 tag.
pub open spec fn id3v1_magic(data: Seq<u8>, pos: int) -> bool {
    data[pos] == 0x54 && data[pos + 1] == 0x41 && data[pos + 2] == 0x47
}

/// `"APET"` at `pos`: the start of an APEv2 tag.
pub open spec fn apev2_magic(data: Seq<u8>, pos: int) -> bool {
    data[pos] == 0x41 && data[pos + 1] == 0x50 && data[pos + 2] == 0x45 && data[pos + 3]
        == 0x54
}

/// `"AGEX"` at `pos`: the rest of the APEv2 magic.
pub open spec fn apev2_magic_rest(data: Seq<u8>, pos: int) -> bool {
    data[pos] == 0x41 && data[pos + 1] == 0x47 && data[pos + 2] == 0x45 && data[pos + 3]
        == 0x58
}

/// `"Xing"` or `"Info"` at `pos`: a tag that may give the number of frames.
pub open spec fn vbr_magic(data: Seq<u8>, pos: int) -> bool {
    ||| (data[pos] == 0x58 && data[pos + 1] == 0x69 && data[pos + 2] == 0x6E && data[pos + 3]
        == 0x67)
    ||| (data[pos] == 0x49 && data[pos + 1] == 0x6E && data[pos + 2] == 0x66 && data[pos + 3]
        == 0x6F)
}

/// Size of an ID3v2 tag body: four bytes of seven bits each, most
/// significant first; the top bit of each byte is ignored.
pub open spec fn synchsafe(a: u8, b: u8, c: u8, d: u8) -> u32 {
    ((a & 0x7F) as u32) << 21u32 | ((b & 0x7F) as u32) << 14u32 | ((c & 0x7F) as u32) << 7u32
        | ((d & 0x7F) as u32)
}

/// The fields of a header fit in their bit widths.
pub proof fn lemma_header_fields(h: u32)
    ensures
        (h >> 19u32) & 0b11u32 <= 3,
        (h >> 17u32) & 0b11u32 <= 3,
        (h >> 12u32) & 0b1111u32 <= 15,
        (h >> 10u32) & 0b11u32 <= 3,
        (h >> 6u32) & 0b11u32 <= 3,
{
    assert((h >> 19u32) & 0b11u32 <= 3) by (bit_vector);
    assert((h >> 17u32) & 0b11u32 <= 3) by (bit_vector);
    assert((h >> 12u32) & 0b1111u32 <= 15) by (bit_vector);
    assert((h >> 10u32) & 0b11u32 <= 3) by (bit_vector);
    assert((h >> 6u32) & 0b11u32 <= 3) by (bit_vector);
}

/// What the block at a position of the stream amounts to.
pub enum Step {
    /// The stream ends here, between blocks.
    End,
    /// The block ends before `next` and holds `nanos` nanoseconds of audio.
    Advance { next: int, nanos: nat },
    /// The block gives the duration of the whole stream.
    Total { nanos: nat },
    /// The block is malformed; `offset` is the byte count consumed when that
    /// shows.
    Fault { kind: ErrorKind, offset: int },
}

/// The audio frame whose header `h` stands at `pos`.
pub open spec fn audio_block(data: Seq<u8>, pos: int, h: u32) -> Step {
    match decode_version(version_bits(h)) {
        None => Step::Fault { kind: ErrorKind::ForbiddenVersion, offset: pos + 4 },
        Some(version) => {
            let rate_code = sampling_rate_code(h);
            let layer = decode_layer(layer_bits(h));
            if rate_code == 3 {
                Step::Fault {
                    kind: ErrorKind::InvalidSamplingRate { sampling_rate: rate_code },
                    offset: pos + 4,
                }
            } else if layer == Layer::NotDefined {
                Step::Fault { kind: ErrorKind::ForbiddenLayer, offset: pos + 4 }
            } else {
                let rate = sampling_rate(version, rate_code) as int;
                let samples = samples_per_frame(version, layer) as int;
                let side = side_information_size(version, decode_mode(mode_bits(h))) as int;
                let probe = pos + 4 + side;
                if probe > data.len() {
                    Step::Fault { kind: ErrorKind::UnexpectedEOF, offset: pos + 4 }
                } else if probe + 12 > data.len() {
                    Step::Fault { kind: ErrorKind::UnexpectedEOF, offset: probe }
                } else if vbr_magic(data, probe) && data[probe + 7] & 1 != 0 {
                    let frames = be_u32(
                        data[probe + 8],
                        data[probe + 9],
                        data[probe + 10],
                        data[probe + 11],
                    );
                    Step::Total { nanos: total_nanos(frames as int, samples, rate) as nat }
                } else {
                    let code = bitrate_code(h);
                    if code == 0 || code == 15 {
                        Step::Fault {
                            kind: ErrorKind::InvalidBitrate { bitrate: code },
                            offset: probe + 12,
                        }
                    } else {
                        let length = frame_length(
                            samples,
                            bitrate(version, layer, code),
                            rate,
                            padding_bit(h) as int,
                        );
                        if length < 16 + side {
                            Step::Fault { kind: ErrorKind::MPEGFrameTooShort, offset: probe + 12 }
                        } else if pos + length > data.len() {
                            Step::Fault { kind: ErrorKind::UnexpectedEOF, offset: probe + 12 }
                        } else {
                            Step::Advance {
                                next: pos + length,
                                nanos: frame_nanos(samples, rate) as nat,
                            }
                        }
                    }
                }
            }
        }
    }
}

/// The ID3v2 tag at `pos`: a ten-byte header, a body of the synchsafe size,
/// and a ten-byte footer where flag bit 4 is set.
pub open spec fn id3v2_block(data: Seq<u8>, pos: int) -> Step {
    if pos + 10 > data.len() {
        Step::Fault { kind: ErrorKind::UnexpectedEOF, offset: pos + 4 }
    } else {
        let size = synchsafe(data[pos + 6], data[pos + 7], data[pos + 8], data[pos + 9]);
        let footer: int = if data[pos + 5] & 0x10 != 0 { 10 } else { 0 };
        let end = pos + 10 + size as int + footer;
        if end > data.len() {
            Step::Fault { kind: ErrorKind::UnexpectedEOF, offset: pos + 10 }
        } else {
            Step::Advance { next: end, nanos: 0 }
        }
    }
}

/// The APEv2 tag that may stand at `pos`: a 32-byte footer whose bytes 12
/// to 15 give, little-endian, the size of what follows its first 16 bytes.
pub open spec fn apev2_block(data: Seq<u8>, pos: int, h: u32) -> Step {
    if pos + 16 > data.len() {
        Step::Fault { kind: ErrorKind::UnexpectedEOF, offset: pos + 4 }
    } else if !apev2_magic_rest(data, pos + 4) {
        Step::Fault { kind: ErrorKind::UnexpectedFrame { header: h }, offset: pos + 16 }
    } else {
        let size = be_u32(data[pos + 15], data[pos + 14], data[pos + 13], data[pos + 12]);
        let end = pos + 16 + size as int + 16;
        if end > data.len() {
            Step::Fault { kind: ErrorKind::UnexpectedEOF, offset: pos + 16 }
        } else {
            Step::Advance { next: end, nanos: 0 }
        }
    }
}

/// The block at `pos`, classified by its first bytes.
pub open spec fn block_at(data: Seq<u8>, pos: int) -> Step {
    if pos >= data.len() {
        Step::End
    } else if data[pos] == 0 {
        Step::Advance { next: pos + 1, nanos: 0 }
    } else if pos + 4 > data.len() {
        Step::Fault { kind: ErrorKind::UnexpectedEOF, offset: pos + 1 }
    } else {
        let h = header_at(data, pos);
        if is_sync(h) {
            audio_block(data, pos, h)
        } else if id3v2_magic(data, pos) {
            id3v2_block(data, pos)
        } else if id3v1_magic(data, pos) {
            if pos + 128 > data.len() {
                Step::Fault { kind: ErrorKind::UnexpectedEOF, offset: pos + 4 }
            } else {
                Step::Advance { next: pos + 128, nanos: 0 }
            }
        } else if apev2_magic(data, pos) {
            apev2_block(data, pos, h)
        } else {
            Step::Fault { kind: ErrorKind::UnexpectedFrame { header: h }, offset: pos + 4 }
        }
    }
}

/// A block that does not end the measurement lies within the stream and is
/// not empty.
pub proof fn lemma_advance(data: Seq<u8>, pos: int)
    requires
        0 <= pos,
    ensures
        block_at(data, pos) matches Step::Advance { next, nanos } ==> pos < next <= data.len(),
{
}

/// The outcome of a measurement.
pub enum Outcome {
    /// The stream measures `nanos` nanoseconds.
    Finished { nanos: nat },
    /// The measurement failed at `offset` after `nanos` nanoseconds of
    /// complete frames.
    Failed { kind: ErrorKind, offset: int, nanos: nat },
}

/// The outcome of measuring `data` from `pos` on, with `nanos` nanoseconds
/// measured before `pos`.
pub open spec fn scan_from(data: Seq<u8>, pos: int, nanos: nat) -> Outcome
    decreases data.len() - pos,
{
    match block_at(data, pos) {
        Step::End => Outcome::Finished { nanos },
        Step::Total { nanos: total } => Outcome::Finished { nanos: total },
        Step::Fault { kind, offset } => Outcome::Failed { kind, offset, nanos },
        Step::Advance { next, nanos: more } => {
            if pos < next <= data.len() {
                scan_from(data, next, nanos + more)
            } else {
                Outcome::Finished { nanos }
            }
        },
    }
}

/// The outcome of measuring the whole of `data`.
pub open spec fn scan(data: Seq<u8>) -> Outcome {
    scan_from(data, 0, 0)
}

} // verus!
