//! Measures the playback duration of an MPEG audio stream without decoding
//! it, by walking the stream block by block.
use vstd::prelude::*;

pub mod constants;
pub mod context;
pub mod duration;
pub mod error;
pub mod laws;
pub mod layout;

use crate::constants::{
    bit_rates, lemma_table_bounds, sampling_rates, samples_per_frame, side_information_sizes,
    Layer, Mode, Version,
};
use crate::context::Context;
use crate::duration::{max_nanos, Duration, NANOS_PER_SEC};
use crate::error::{is_failure, ErrorKind, MP3DurationError};
use crate::layout::{
    apev2_block, audio_block, bitrate, block_at, decode_layer, decode_mode, decode_version,
    frame_length, frame_nanos, header_at, id3v2_block, is_sync, lemma_advance,
    lemma_header_fields, scan, scan_from, side_information_size, synchsafe, total_nanos, Outcome,
    Step,
};

verus! {

/// `r` is what a measurement returns for the outcome `o`.
pub open spec fn reports(r: Result<Duration, MP3DurationError>, o: Outcome) -> bool {
    match o {
        Outcome::Finished { nanos } => r matches Ok(d) && d@ == nanos,
        Outcome::Failed { kind, offset, nanos } => r matches Err(e) && e.kind == kind
            && e.offset == offset && e.at_duration@ == nanos,
    }
}

/// The bitrate in bit/s of a version, layer and 4-bit code. Codes 0 (free
/// format) and 15 are reserved.
pub fn get_bitrate(
    context: &Context,
    version: Version,
    layer: Layer,
    encoded_bitrate: u8,
) -> (r: Result<u32, MP3DurationError>)
    ensures
        layer == Layer::NotDefined ==> is_failure(
            r,
            ErrorKind::ForbiddenLayer,
            context.offset() as int,
            context.measured(),
        ),
        layer != Layer::NotDefined && (encoded_bitrate == 0 || encoded_bitrate >= 15)
            ==> is_failure(
            r,
            ErrorKind::InvalidBitrate { bitrate: encoded_bitrate },
            context.offset() as int,
            context.measured(),
        ),
        layer != Layer::NotDefined && 0 < encoded_bitrate < 15 ==> r == Ok::<
            u32,
            MP3DurationError,
        >(bitrate(version, layer, encoded_bitrate) as u32),
{
    if layer == Layer::NotDefined {
        return Err(context.error(ErrorKind::ForbiddenLayer));
    }
    if encoded_bitrate == 0 || encoded_bitrate >= 15 {
        return Err(context.error(ErrorKind::InvalidBitrate { bitrate: encoded_bitrate }));
    }
    proof {
        lemma_table_bounds(version, layer, Mode::Stereo, 0, encoded_bitrate as int);
    }
    Ok(1000 * bit_rates(version, layer)[encoded_bitrate as usize])
}

/// The sampling rate in Hz of a version and 2-bit code. Code 3 is reserved.
pub fn get_sampling_rate(
    context: &Context,
    version: Version,
    encoded_sampling_rate: u8,
) -> (r: Result<u32, MP3DurationError>)
    ensures
        encoded_sampling_rate >= 3 ==> is_failure(
            r,
            ErrorKind::InvalidSamplingRate { sampling_rate: encoded_sampling_rate },
            context.offset() as int,
            context.measured(),
        ),
        encoded_sampling_rate < 3 ==> r == Ok::<u32, MP3DurationError>(
            layout::sampling_rate(version, encoded_sampling_rate),
        ),
{
    if encoded_sampling_rate >= 3 {
        return Err(
            context.error(ErrorKind::InvalidSamplingRate { sampling_rate: encoded_sampling_rate }),
        );
    }
    Ok(sampling_rates(version)[encoded_sampling_rate as usize])
}

/// The number of samples in one frame of a version and layer.
pub fn get_samples_per_frame(context: &Context, version: Version, layer: Layer) -> (r: Result<
    u32,
    MP3DurationError,
>)
    ensures
        layer == Layer::NotDefined ==> is_failure(
            r,
            ErrorKind::ForbiddenLayer,
            context.offset() as int,
            context.measured(),
        ),
        layer != Layer::NotDefined ==> r == Ok::<u32, MP3DurationError>(
            layout::samples_per_frame(version, layer),
        ),
{
    if layer == Layer::NotDefined {
        return Err(context.error(ErrorKind::ForbiddenLayer));
    }
    Ok(samples_per_frame(version)[layer.index()])
}

/// The number of side-information bytes after a frame header of a version
/// and channel mode.
pub fn get_side_information_size(version: Version, mode: Mode) -> (r: usize)
    ensures
        r == side_information_size(version, mode),
{
    side_information_sizes(version)[mode.index()] as usize
}

/// Nanoseconds of audio per byte of stream that no frame exceeds: a frame
/// holds at most 0.144 s of audio in at least 25 bytes.
spec fn nanos_per_byte_bound() -> nat {
    6_000_000
}

/// An ID3v2 body size has 28 bits.
proof fn lemma_synchsafe_bound(a: u8, b: u8, c: u8, d: u8)
    ensures
        synchsafe(a, b, c, d) < 0x1000_0000,
{
    assert(((a & 0x7F) as u32) << 21u32 | ((b & 0x7F) as u32) << 14u32 | ((c & 0x7F) as u32)
        << 7u32 | ((d & 0x7F) as u32) < 0x1000_0000u32) by (bit_vector);
}

/// Splitting a count of samples into whole seconds and a remainder loses
/// nothing: `(s / r) * 10^9 + (s % r) * 10^9 / r == s * 10^9 / r`.
proof fn lemma_split_samples(samples: nat, rate: nat)
    requires
        rate > 0,
    ensures
        (samples / rate) * (NANOS_PER_SEC as nat) + (samples % rate) * (NANOS_PER_SEC as nat)
            / rate == samples * (NANOS_PER_SEC as nat) / rate,
{
    let q = samples / rate;
    let m = samples % rate;
    let b = NANOS_PER_SEC as int;
    vstd::arithmetic::div_mod::lemma_fundamental_div_mod(samples as int, rate as int);
    vstd::arithmetic::div_mod::lemma_hoist_over_denominator(m * b, q * b, rate);
    assert(m * b + (q * b) * rate == samples * b) by (nonlinear_arith)
        requires
            samples == rate * q + m,
    ;
}

/// The result `r` of handling one block, and the cursor's offset and
/// measured duration after it, agree with `step`; `before` is the duration
/// measured before the block.
spec fn performs(
    step: Step,
    r: Result<Option<Duration>, MP3DurationError>,
    before: Duration,
    offset: int,
    after: Duration,
) -> bool {
    match step {
        Step::Advance { next, nanos } => r == Ok::<Option<Duration>, MP3DurationError>(None)
            && offset == next && after@ == before@ + nanos,
        Step::Total { nanos } => r matches Ok(Some(d)) && d@ == nanos,
        Step::Fault { kind, offset } => is_failure(r, kind, offset, before),
        Step::End => false,
    }
}

/// Measures the audio frame whose 4-byte header `header` was just read:
/// `Some` duration where a Xing or Info tag gives the duration of the whole
/// stream, else `None` with the frame's duration added to the context.
fn measure_frame(context: &mut Context, header: u32) -> (r: Result<
    Option<Duration>,
    MP3DurationError,
>)
    requires
        old(context).wf(),
        old(context).offset() >= 4,
        header == header_at(old(context).data(), old(context).offset() - 4),
        is_sync(header),
        old(context).measured()@ <= nanos_per_byte_bound() * (old(context).offset() - 4),
    ensures
        final(context).wf(),
        final(context).data() == old(context).data(),
        performs(
            audio_block(old(context).data(), old(context).offset() - 4, header),
            r,
            old(context).measured(),
            final(context).offset() as int,
            final(context).measured(),
        ),
        final(context).measured()@ <= nanos_per_byte_bound() * final(context).offset(),
{
    let ghost data = context.data();
    let ghost pos: int = context.offset() - 4;
    proof {
        lemma_header_fields(header);
    }
    let version = match version_of((header >> 19u32) & 0b11u32) {
        Some(v) => v,
        None => return Err(context.error(ErrorKind::ForbiddenVersion)),
    };
    let layer = layer_of((header >> 17u32) & 0b11u32);
    let encoded_bitrate = ((header >> 12u32) & 0b1111u32) as u8;
    let encoded_sampling_rate = ((header >> 10u32) & 0b11u32) as u8;
    let padding: u32 = if (header >> 9u32) & 1u32 != 0 {
        1
    } else {
        0
    };
    let mode = mode_of((header >> 6u32) & 0b11u32);

    let sampling_rate = match get_sampling_rate(context, version, encoded_sampling_rate) {
        Ok(rate) => rate,
        Err(e) => return Err(e),
    };
    let num_samples = match get_samples_per_frame(context, version, layer) {
        Ok(n) => n,
        Err(e) => return Err(e),
    };
    proof {
        lemma_table_bounds(
            version,
            layer,
            mode,
            encoded_sampling_rate as int,
            encoded_bitrate as int,
        );
    }

    let xing_offset = get_side_information_size(version, mode);
    match context.skip(xing_offset) {
        Ok(_) => {},
        Err(e) => return Err(e),
    }
    let mut xing_buffer: [u8; 12] = [0; 12];
    match context.read_exact(&mut xing_buffer) {
        Ok(_) => {},
        Err(e) => return Err(e),
    }
    let ghost probe = pos + 4 + xing_offset as int;
    assert(xing_buffer@ == data.subrange(probe, probe + 12));

    let is_xing = xing_buffer[0] == 0x58 && xing_buffer[1] == 0x69 && xing_buffer[2] == 0x6E
        && xing_buffer[3] == 0x67;
    let is_info = xing_buffer[0] == 0x49 && xing_buffer[1] == 0x6E && xing_buffer[2] == 0x66
        && xing_buffer[3] == 0x6F;
    if is_xing || is_info {
        let has_frames = xing_buffer[7] & 1 != 0;
        if has_frames {
            let num_frames = (xing_buffer[8] as u32) << 24u32 | (xing_buffer[9] as u32) << 16u32
                | (xing_buffer[10] as u32) << 8u32 | xing_buffer[11] as u32;
            return Ok(Some(vbr_duration(num_frames, num_samples, sampling_rate)));
        }
    }

    let bitrate = match get_bitrate(context, version, layer, encoded_bitrate) {
        Ok(b) => b,
        Err(e) => return Err(e),
    };
    let frame_length = get_frame_length(num_samples, bitrate, sampling_rate, padding);
    if frame_length < 4 + xing_offset + 12 {
        return Err(context.error(ErrorKind::MPEGFrameTooShort));
    }
    let bytes_to_next_frame = frame_length - (4 + xing_offset + 12);
    match context.skip(bytes_to_next_frame) {
        Ok(_) => {},
        Err(e) => return Err(e),
    }

    let frame_duration = get_frame_duration(num_samples, sampling_rate);
    proof {
        context.lemma_offset_bound();
        assert(context.measured()@ + frame_duration@ <= nanos_per_byte_bound() * context.offset())
            by (nonlinear_arith)
            requires
                context.measured()@ <= nanos_per_byte_bound() * pos,
                frame_duration@ <= 144_000_000,
                context.offset() >= pos + 25,
                nanos_per_byte_bound() == 6_000_000,
        ;
        assert(nanos_per_byte_bound() * context.offset() <= max_nanos()) by (nonlinear_arith)
            requires
                context.offset() <= usize::MAX,
                nanos_per_byte_bound() == 6_000_000,
                max_nanos() == 18_446_744_073_709_551_616_000_000_000 - 1,
        ;
    }
    context.add_duration(frame_duration);
    Ok(None)
}

/// The version that two header bits encode; `01` is reserved.
fn version_of(bits: u32) -> (r: Option<Version>)
    ensures
        r == decode_version(bits),
{
    if bits == 0 {
        Some(Version::Mpeg25)
    } else if bits == 1 {
        None
    } else if bits == 2 {
        Some(Version::Mpeg2)
    } else {
        Some(Version::Mpeg1)
    }
}

/// The layer that two header bits encode.
fn layer_of(bits: u32) -> (r: Layer)
    ensures
        r == decode_layer(bits),
{
    if bits == 0 {
        Layer::NotDefined
    } else if bits == 1 {
        Layer::Layer3
    } else if bits == 2 {
        Layer::Layer2
    } else {
        Layer::Layer1
    }
}

/// The channel mode that two header bits encode.
fn mode_of(bits: u32) -> (r: Mode)
    ensures
        r == decode_mode(bits),
{
    if bits == 0 {
        Mode::Stereo
    } else if bits == 1 {
        Mode::JointStereo
    } else if bits == 2 {
        Mode::DualChannel
    } else {
        Mode::Mono
    }
}

/// The length in bytes of a frame of `num_samples` samples at `bitrate`
/// bit/s and `sampling_rate` Hz, with `padding` extra bytes.
pub fn get_frame_length(num_samples: u32, bitrate: u32, sampling_rate: u32, padding: u32) -> (r:
    usize)
    requires
        num_samples <= 1152,
        bitrate <= 448_000,
        sampling_rate > 0,
        padding <= 1,
    ensures
        r == frame_length(num_samples as int, bitrate as int, sampling_rate as int, padding as int),
{
    assert((num_samples / 8) as int * bitrate as int <= 144 * 448_000) by (nonlinear_arith)
        requires
            num_samples / 8 <= 144,
            bitrate <= 448_000,
    ;
    let bytes = num_samples / 8 * bitrate;
    proof {
        vstd::arithmetic::div_mod::lemma_div_is_ordered_by_denominator(bytes as int, 1, sampling_rate as int);
    }
    (bytes / sampling_rate + padding) as usize
}

/// The duration of one frame of `num_samples` samples at `sampling_rate`
/// Hz, rounded down to the nanosecond.
pub fn get_frame_duration(num_samples: u32, sampling_rate: u32) -> (r: Duration)
    requires
        num_samples <= 1152,
        sampling_rate >= 8000,
    ensures
        r@ == frame_nanos(num_samples as int, sampling_rate as int),
        r@ <= 144_000_000,
{
    let scaled = num_samples as u64 * NANOS_PER_SEC;
    let nanos = scaled / (sampling_rate as u64);
    proof {
        vstd::arithmetic::div_mod::lemma_div_is_ordered_by_denominator(
            scaled as int,
            8000,
            sampling_rate as int,
        );
        vstd::arithmetic::div_mod::lemma_div_is_ordered(
            scaled as int,
            1_152_000_000_000,
            8000,
        );
    }
    Duration::new(0, nanos as u32)
}

/// The duration of `num_frames` frames of `num_samples` samples each at
/// `sampling_rate` Hz, rounded down to the nanosecond.
pub fn vbr_duration(num_frames: u32, num_samples: u32, sampling_rate: u32) -> (r: Duration)
    requires
        num_samples <= 1152,
        sampling_rate > 0,
    ensures
        r@ == total_nanos(num_frames as int, num_samples as int, sampling_rate as int),
{
    let rate = sampling_rate as u64;
    assert(num_frames as int * num_samples as int <= 0xFFFF_FFFF * 1152) by (nonlinear_arith)
        requires
            num_frames <= 0xFFFF_FFFFu32,
            num_samples <= 1152,
    ;
    let frames_x_samples = num_frames as u64 * num_samples as u64;
    let seconds = frames_x_samples / rate;
    let remainder = frames_x_samples % rate;
    assert(remainder * NANOS_PER_SEC < rate * NANOS_PER_SEC) by (nonlinear_arith)
        requires
            remainder < rate,
    ;
    let nanoseconds = remainder * NANOS_PER_SEC / rate;
    proof {
        vstd::arithmetic::div_mod::lemma_fundamental_div_mod(
            (remainder * NANOS_PER_SEC) as int,
            rate as int,
        );
        assert(nanoseconds < NANOS_PER_SEC) by (nonlinear_arith)
            requires
                rate > 0,
                rate * nanoseconds <= remainder * NANOS_PER_SEC,
                remainder < rate,
        ;
        vstd::arithmetic::div_mod::lemma_div_is_ordered_by_denominator(
            frames_x_samples as int,
            1,
            rate as int,
        );
        assert(seconds as nat * (NANOS_PER_SEC as nat) + nanoseconds as nat <= max_nanos())
            by (nonlinear_arith)
            requires
                seconds <= 0xFFFF_FFFF * 1152,
                nanoseconds < NANOS_PER_SEC,
        ;
        lemma_split_samples(frames_x_samples as nat, rate as nat);
    }
    Duration::new(seconds, nanoseconds as u32)
}

/// Skips the ID3v2 tag whose first 4 bytes were just read.
fn skip_id3v2(context: &mut Context) -> (r: Result<Option<Duration>, MP3DurationError>)
    requires
        old(context).wf(),
        old(context).offset() >= 4,
    ensures
        final(context).wf(),
        final(context).data() == old(context).data(),
        final(context).measured() == old(context).measured(),
        performs(
            id3v2_block(old(context).data(), old(context).offset() - 4),
            r,
            old(context).measured(),
            final(context).offset() as int,
            final(context).measured(),
        ),
{
    let ghost data = context.data();
    let ghost pos: int = context.offset() - 4;
    let mut id3v2: [u8; 6] = [0; 6];  // 4 bytes already read
    match context.read_exact(&mut id3v2) {
        Ok(_) => {},
        Err(e) => return Err(e),
    }
    assert(id3v2@ == data.subrange(pos + 4, pos + 10));
    let flags = id3v2[1];
    let footer_size: usize = if flags & 0b0001_0000 != 0 {
        10
    } else {
        0
    };
    let tag_size = ((id3v2[2] & 0x7F) as u32) << 21u32 | ((id3v2[3] & 0x7F) as u32) << 14u32 | ((
    id3v2[4] & 0x7F) as u32) << 7u32 | ((id3v2[5] & 0x7F) as u32);
    proof {
        lemma_synchsafe_bound(id3v2[2], id3v2[3], id3v2[4], id3v2[5]);
    }
    match context.skip(tag_size as usize + footer_size) {
        Ok(_) => {},
        Err(e) => return Err(e),
    }
    Ok(None)
}

/// Skips the APEv2 tag whose first 4 bytes, `"APET"`, were just read as
/// `header`; where the next 4 bytes are not `"AGEX"` the block is
/// unrecognized.
fn skip_apev2(context: &mut Context, header: u32) -> (r: Result<
    Option<Duration>,
    MP3DurationError,
>)
    requires
        old(context).wf(),
        old(context).offset() >= 4,
    ensures
        final(context).wf(),
        final(context).data() == old(context).data(),
        final(context).measured() == old(context).measured(),
        performs(
            apev2_block(old(context).data(), old(context).offset() - 4, header),
            r,
            old(context).measured(),
            final(context).offset() as int,
            final(context).measured(),
        ),
{
    let ghost data = context.data();
    let ghost pos: int = context.offset() - 4;
    let mut ape_header: [u8; 12] = [0; 12];
    match context.read_exact(&mut ape_header) {
        Ok(_) => {},
        Err(e) => return Err(e),
    }
    assert(ape_header@ == data.subrange(pos + 4, pos + 16));
    let is_really_ape_v2 = ape_header[0] == 0x41 && ape_header[1] == 0x47 && ape_header[2] == 0x45
        && ape_header[3] == 0x58;
    if !is_really_ape_v2 {
        return Err(context.error(ErrorKind::UnexpectedFrame { header }));
    }
    let tag_size = (ape_header[11] as u32) << 24u32 | (ape_header[10] as u32) << 16u32 | (
    ape_header[9] as u32) << 8u32 | (ape_header[8] as u32);
    let skip_size = (tag_size as usize).saturating_add(16);
    proof {
        context.lemma_offset_bound();
    }
    match context.skip(skip_size) {
        Ok(_) => {},
        Err(e) => return Err(e),
    }
    Ok(None)
}

/// Measures the duration of the MPEG audio stream held in `reader`.
///
/// The stream is walked block by block: stray zero bytes are passed over,
/// ID3v1, ID3v2 and APEv2 tags are skipped, and each audio frame adds its
/// duration. A Xing or Info tag that gives the number of frames settles the
/// duration at once. The stream may end between blocks; anything else is an
/// error that carries the offset and the duration measured before it.
pub fn from_read(reader: &[u8]) -> (r: Result<Duration, MP3DurationError>)
    ensures
        reports(r, scan(reader@)),
{
    let total = reader.len();
    let mut context = Context::new(reader);
    loop
        invariant
            total == reader@.len(),
            context.wf(),
            context.data() == reader@,
            scan_from(reader@, context.offset() as int, context.measured()@) == scan(reader@),
            context.measured()@ <= nanos_per_byte_bound() * context.offset(),
        decreases total - context.offset(),
    {
        let ghost acc = context.measured();
        let ghost start = context.offset();
        // Skip over 0x00 bytes (padding that some writers leave after an
        // ID3v2 tag).
        let mut first: [u8; 1] = [0];
        while first[0] == 0
            invariant
                total == reader@.len(),
                context.wf(),
                context.data() == reader@,
                context.measured() == acc,
                acc@ <= nanos_per_byte_bound() * start,
                start <= context.offset(),
                first@.len() == 1,
                first[0] == 0 ==> scan_from(reader@, context.offset() as int, acc@) == scan(
                    reader@,
                ),
                first[0] != 0 ==> {
                    &&& context.offset() >= start + 1
                    &&& reader@[context.offset() - 1] == first[0]
                    &&& scan_from(reader@, context.offset() - 1, acc@) == scan(reader@)
                },
            decreases total - context.offset(),
        {
            match context.read_exact(&mut first) {
                Ok(_) => {},
                Err(e) => {
                    if context.reached_eof() {
                        return Ok(context.duration());
                    }
                    return Err(e);
                },
            }
        }
        let ghost pos: int = context.offset() - 1;
        proof {
            context.lemma_offset_bound();
            lemma_advance(reader@, pos);
        }
        let mut rest: [u8; 3] = [0; 3];
        match context.read_exact(&mut rest) {
            Ok(_) => {},
            Err(e) => {
                assert(block_at(reader@, pos) == Step::Fault {
                    kind: ErrorKind::UnexpectedEOF,
                    offset: pos + 1,
                });
                return Err(e);
            },
        }
        let header = (first[0] as u32) << 24u32 | (rest[0] as u32) << 16u32 | (rest[1] as u32)
            << 8u32 | rest[2] as u32;
        assert(header == header_at(reader@, pos));

        let is_mp3 = header >> 21u32 == 0x7FFu32;
        let is_id3v2 = first[0] == 0x49 && rest[0] == 0x44 && rest[1] == 0x33;
        let is_id3v1 = first[0] == 0x54 && rest[0] == 0x41 && rest[1] == 0x47;
        let maybe_is_ape_v2 = first[0] == 0x41 && rest[0] == 0x50 && rest[1] == 0x45 && rest[2]
            == 0x54;
        let step = if is_mp3 {
            measure_frame(&mut context, header)
        } else if is_id3v2 {
            skip_id3v2(&mut context)
        } else if is_id3v1 {
            match context.skip(128 - 4) {
                Ok(_) => Ok(None),
                Err(e) => Err(e),
            }
        } else if maybe_is_ape_v2 {
            skip_apev2(&mut context, header)
        } else {
            Err(context.error(ErrorKind::UnexpectedFrame { header }))
        };
        assert(performs(
            block_at(reader@, pos),
            step,
            acc,
            context.offset() as int,
            context.measured(),
        ));
        match step {
            Ok(None) => {},
            Ok(Some(d)) => return Ok(d),
            Err(e) => return Err(e),
        }
    }
}

} // verus!
