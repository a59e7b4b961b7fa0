//! General facts about measuring streams, proved over the model in
//! `layout`, which `from_read` follows exactly.
use vstd::prelude::*;

use crate::constants::{Layer, Version};
use crate::duration::NANOS_PER_SEC;
use crate::error::ErrorKind;
use crate::layout::{
    be_u32, bitrate, bitrate_code, block_at, decode_layer, decode_mode, decode_version,
    frame_length, frame_nanos, header_at, is_sync, layer_bits, lemma_advance, mode_bits,
    padding_bit, samples_per_frame, sampling_rate, sampling_rate_code, scan, scan_from,
    side_information_size, total_nanos, lemma_header_fields, vbr_magic, version_bits, Outcome, Step,
};

verus! {

/// `s` with every stream position moved `k` bytes later.
pub open spec fn shift_step(s: Step, k: int) -> Step {
    match s {
        Step::Advance { next, nanos } => Step::Advance { next: next + k, nanos },
        Step::Fault { kind, offset } => Step::Fault { kind, offset: offset + k },
        _ => s,
    }
}

/// `o` with its failure offset, if any, moved `k` bytes later.
pub open spec fn shift_outcome(o: Outcome, k: int) -> Outcome {
    match o {
        Outcome::Failed { kind, offset, nanos } => Outcome::Failed { kind, offset: offset + k, nanos },
        _ => o,
    }
}

/// A block reads the same behind any prefix, its positions moved by the
/// prefix's length.
pub proof fn lemma_block_shift(pre: Seq<u8>, a: Seq<u8>, pos: int)
    requires
        0 <= pos,
    ensures
        block_at(pre + a, pre.len() + pos) == shift_step(block_at(a, pos), pre.len() as int),
{
}

/// Measuring from a position behind a prefix gives what measuring the rest
/// alone gives, with failure offsets moved by the prefix's length.
pub proof fn lemma_scan_shift(pre: Seq<u8>, a: Seq<u8>, pos: int, nanos: nat)
    requires
        0 <= pos,
    ensures
        scan_from(pre + a, pre.len() + pos, nanos) == shift_outcome(
            scan_from(a, pos, nanos),
            pre.len() as int,
        ),
    decreases a.len() - pos,
{
    lemma_block_shift(pre, a, pos);
    lemma_advance(a, pos);
    lemma_advance(pre + a, pre.len() + pos);
    if let Step::Advance { next, nanos: more } = block_at(a, pos) {
        lemma_scan_shift(pre, a, next, nanos + more);
    }
}

/// `k` zero bytes.
pub open spec fn zeros(k: nat) -> Seq<u8> {
    Seq::new(k, |i: int| 0u8)
}

/// Passing over zero bytes changes nothing.
proof fn lemma_skip_zeros(k: nat, rest: Seq<u8>, i: int)
    requires
        0 <= i <= k,
    ensures
        scan_from(zeros(k) + rest, i, 0) == scan_from(zeros(k) + rest, k as int, 0),
    decreases k - i,
{
    if i < k {
        assert((zeros(k) + rest)[i] == 0);
        lemma_skip_zeros(k, rest, i + 1);
    }
}

/// Zero bytes before a stream are passed over: the stream measures as it
/// does alone, and a failure is reported at the same place in it, its
/// offset counting the zero bytes too.
pub proof fn lemma_zero_padding(k: nat, rest: Seq<u8>)
    ensures
        scan(zeros(k) + rest) == shift_outcome(scan(rest), k as int),
{
    lemma_skip_zeros(k, rest, 0);
    lemma_scan_shift(zeros(k), rest, 0, 0);
}

/// The first byte of an audio frame header is `0xFF`, so never a padding
/// byte.
pub proof fn lemma_sync_first_byte(data: Seq<u8>)
    requires
        data.len() >= 4,
        is_sync(header_at(data, 0)),
    ensures
        data[0] == 0xFF,
{
    let (a, b, c, d) = (data[0], data[1], data[2], data[3]);
    assert(((a as u32) << 24u32 | (b as u32) << 16u32 | (c as u32) << 8u32 | (d as u32)) >> 21u32
        == 0x7FFu32 ==> a == 0xFF) by (bit_vector);
}

/// A header with the sync bits and no reserved version, sampling rate or
/// layer.
pub open spec fn valid_header(h: u32) -> bool {
    &&& is_sync(h)
    &&& decode_version(version_bits(h)) is Some
    &&& sampling_rate_code(h) != 3
    &&& decode_layer(layer_bits(h)) != Layer::NotDefined
}

/// The version a valid header gives.
pub open spec fn header_version(h: u32) -> Version {
    decode_version(version_bits(h))->Some_0
}

/// Samples per frame that a valid header gives.
pub open spec fn header_samples(h: u32) -> int {
    samples_per_frame(header_version(h), decode_layer(layer_bits(h))) as int
}

/// Sampling rate in Hz that a valid header gives.
pub open spec fn header_rate(h: u32) -> int {
    sampling_rate(header_version(h), sampling_rate_code(h)) as int
}

/// Bytes of side information after a valid header.
pub open spec fn header_side(h: u32) -> int {
    side_information_size(header_version(h), decode_mode(mode_bits(h))) as int
}

/// Frame length in bytes that a valid header with a permitted bitrate gives.
pub open spec fn header_frame_length(h: u32) -> int {
    frame_length(
        header_samples(h),
        bitrate(header_version(h), decode_layer(layer_bits(h)), bitrate_code(h)),
        header_rate(h),
        padding_bit(h) as int,
    )
}

/// A Xing or Info tag at `probe` whose flags say that it counts frames.
pub open spec fn counts_frames(data: Seq<u8>, probe: int) -> bool {
    vbr_magic(data, probe) && data[probe + 7] & 1 != 0
}

/// The number of frames that a Xing or Info tag at `probe` gives.
pub open spec fn frame_count(data: Seq<u8>, probe: int) -> u32 {
    be_u32(data[probe + 8], data[probe + 9], data[probe + 10], data[probe + 11])
}

/// `f` is one whole audio frame of a constant-bitrate stream: a valid
/// header with a permitted bitrate, no Xing or Info frame count after the
/// side information, and exactly the length that the header gives.
pub open spec fn is_plain_frame(f: Seq<u8>) -> bool {
    &&& f.len() >= 4
    &&& valid_header(header_at(f, 0))
    &&& bitrate_code(header_at(f, 0)) != 0
    &&& bitrate_code(header_at(f, 0)) != 15
    &&& f.len() >= 16 + header_side(header_at(f, 0))
    &&& !counts_frames(f, 4 + header_side(header_at(f, 0)))
    &&& f.len() == header_frame_length(header_at(f, 0))
}

/// The nanoseconds that one plain frame adds.
pub open spec fn plain_frame_nanos(f: Seq<u8>) -> nat {
    frame_nanos(header_samples(header_at(f, 0)), header_rate(header_at(f, 0))) as nat
}

/// A plain frame reads as one whole frame whatever follows it.
proof fn lemma_plain_frame_block(f: Seq<u8>, rest: Seq<u8>)
    requires
        is_plain_frame(f),
    ensures
        block_at(f + rest, 0) == (Step::Advance { next: f.len() as int, nanos: plain_frame_nanos(f) }),
{
    lemma_sync_first_byte(f);
    assert(header_at(f + rest, 0) == header_at(f, 0));
}

/// `n` copies of `f`, one after the other.
pub open spec fn repeat(f: Seq<u8>, n: nat) -> Seq<u8>
    decreases n,
{
    if n == 0 {
        Seq::empty()
    } else {
        f + repeat(f, (n - 1) as nat)
    }
}

proof fn lemma_constant_bitrate_from(f: Seq<u8>, n: nat, nanos: nat)
    requires
        is_plain_frame(f),
    ensures
        scan_from(repeat(f, n), 0, nanos) == (Outcome::Finished {
            nanos: nanos + n * plain_frame_nanos(f),
        }),
    decreases n,
{
    if n > 0 {
        let rest = repeat(f, (n - 1) as nat);
        lemma_plain_frame_block(f, rest);
        lemma_constant_bitrate_from(f, (n - 1) as nat, nanos + plain_frame_nanos(f));
        lemma_scan_shift(f, rest, 0, nanos + plain_frame_nanos(f));
        assert(repeat(f, n) == f + rest);
        assert(scan_from(f + rest, 0, nanos) == scan_from(
            f + rest,
            f.len() as int,
            nanos + plain_frame_nanos(f),
        ));
        assert(nanos + plain_frame_nanos(f) + (n - 1) * plain_frame_nanos(f) == nanos + n
            * plain_frame_nanos(f)) by (nonlinear_arith)
            requires
                n > 0,
        ;
    } else {
        assert(block_at(repeat(f, n), 0) == Step::End);
    }
}

/// A stream of `n` copies of a plain frame of `S` samples at `R` Hz
/// measures `n` times the duration of one frame, `S * 10^9 / R`
/// nanoseconds rounded down; that is `n * S / R` seconds less under one
/// nanosecond per frame. It ends between blocks, so it succeeds.
pub proof fn lemma_constant_bitrate(f: Seq<u8>, n: nat)
    requires
        is_plain_frame(f),
    ensures
        scan(repeat(f, n)) == (Outcome::Finished { nanos: n * plain_frame_nanos(f) }),
        n * plain_frame_nanos(f) <= total_nanos(
            n as int,
            header_samples(header_at(f, 0)),
            header_rate(header_at(f, 0)),
        ),
        n > 0 ==> total_nanos(
            n as int,
            header_samples(header_at(f, 0)),
            header_rate(header_at(f, 0)),
        ) < n * plain_frame_nanos(f) + n,
{
    lemma_constant_bitrate_from(f, n, 0);
    let h = header_at(f, 0);
    let x = header_samples(h) * (NANOS_PER_SEC as int);
    let r = header_rate(h);
    lemma_header_fields(h);
    crate::constants::lemma_table_bounds(
        header_version(h),
        decode_layer(layer_bits(h)),
        decode_mode(mode_bits(h)),
        sampling_rate_code(h) as int,
        bitrate_code(h) as int,
    );
    let q = x / r;
    let m = x % r;
    let t = (n * x) / r;
    let m2 = (n * x) % r;
    vstd::arithmetic::div_mod::lemma_fundamental_div_mod(x, r);
    vstd::arithmetic::div_mod::lemma_fundamental_div_mod(n * x, r);
    assert(n * header_samples(h) * (NANOS_PER_SEC as int) == n * x) by (nonlinear_arith)
        requires
            x == header_samples(h) * (NANOS_PER_SEC as int),
    ;
    assert(n * x == r * (n * q) + n * m) by (nonlinear_arith)
        requires
            x == r * q + m,
    ;
    assert(0 <= n * m <= n * (r - 1)) by (nonlinear_arith)
        requires
            0 <= m < r,
            n >= 0,
    ;
    assert(r * (n * q) <= r * t + m2);
    assert(n * q <= t) by (nonlinear_arith)
        requires
            r > 0,
            r * (n * q) <= r * t + m2,
            0 <= m2 < r,
    ;
    if n > 0 {
        assert(r * t <= r * (n * q) + n * (r - 1));
        assert(t < n * q + n) by (nonlinear_arith)
            requires
                r > 0,
                n > 0,
                r * t <= r * (n * q) + n * (r - 1),
        ;
    }
}

/// A proper, non-empty prefix of a plain frame ends inside the frame.
proof fn lemma_partial_frame(f: Seq<u8>, g: Seq<u8>)
    requires
        is_plain_frame(f),
        0 < g.len() < f.len(),
        g == f.subrange(0, g.len() as int),
    ensures
        block_at(g, 0) matches Step::Fault { kind, offset } && kind == ErrorKind::UnexpectedEOF
            && 0 < offset <= g.len(),
{
    lemma_sync_first_byte(f);
    assert(g[0] == f[0]);
    if g.len() >= 4 {
        assert(header_at(g, 0) == header_at(f, 0));
        let probe = 4 + header_side(header_at(f, 0));
        if probe + 12 <= g.len() {
            assert(g[probe] == f[probe]);
            assert(g[probe + 1] == f[probe + 1]);
            assert(g[probe + 2] == f[probe + 2]);
            assert(g[probe + 3] == f[probe + 3]);
            assert(g[probe + 7] == f[probe + 7]);
        }
    }
}

proof fn lemma_truncated_from(f: Seq<u8>, n: nat, g: Seq<u8>, nanos: nat)
    requires
        is_plain_frame(f),
        0 < g.len() < f.len(),
        g == f.subrange(0, g.len() as int),
    ensures
        scan_from(repeat(f, n) + g, 0, nanos) matches Outcome::Failed { kind, offset, nanos: at }
            && kind == ErrorKind::UnexpectedEOF && at == nanos + n * plain_frame_nanos(f) && n
            * f.len() < offset <= n * f.len() + g.len(),
    decreases n,
{
    if n == 0 {
        assert(repeat(f, n) + g =~= g);
        lemma_partial_frame(f, g);
    } else {
        let rest = repeat(f, (n - 1) as nat) + g;
        let more = plain_frame_nanos(f);
        assert(repeat(f, n) + g =~= f + rest);
        lemma_plain_frame_block(f, rest);
        lemma_truncated_from(f, (n - 1) as nat, g, nanos + more);
        lemma_scan_shift(f, rest, 0, nanos + more);
        assert(scan_from(f + rest, 0, nanos) == scan_from(f + rest, f.len() as int, nanos + more));
        assert(nanos + more + (n - 1) * more == nanos + n * more) by (nonlinear_arith)
            requires
                n > 0,
        ;
        assert((n - 1) * f.len() + f.len() == n * f.len()) by (nonlinear_arith)
            requires
                n > 0,
        ;
    }
}

/// A stream of `n` plain frames followed by a proper, non-empty beginning of
/// one more fails with `UnexpectedEOF` inside that last frame, reporting the
/// duration of the `n` complete frames.
pub proof fn lemma_truncated(f: Seq<u8>, n: nat, g: Seq<u8>)
    requires
        is_plain_frame(f),
        0 < g.len() < f.len(),
        g == f.subrange(0, g.len() as int),
    ensures
        scan(repeat(f, n) + g) matches Outcome::Failed { kind, offset, nanos }
            && kind == ErrorKind::UnexpectedEOF && nanos == n * plain_frame_nanos(f) && n
            * f.len() < offset <= n * f.len() + g.len(),
{
    lemma_truncated_from(f, n, g, 0);
}

/// A valid header followed, after its side information, by a Xing or Info
/// tag that counts frames settles the duration from that count, the
/// samples per frame and the sampling rate alone: whatever follows is not
/// read.
pub proof fn lemma_frame_count(data: Seq<u8>)
    requires
        data.len() >= 4,
        valid_header(header_at(data, 0)),
        data.len() >= 16 + header_side(header_at(data, 0)),
        counts_frames(data, 4 + header_side(header_at(data, 0))),
    ensures
        scan(data) == (Outcome::Finished {
            nanos: total_nanos(
                frame_count(data, 4 + header_side(header_at(data, 0))) as int,
                header_samples(header_at(data, 0)),
                header_rate(header_at(data, 0)),
            ) as nat,
        }),
{
    lemma_sync_first_byte(data);
}

/// An audio frame whose length, by its header, is less than its header,
/// side information and the 12 bytes probed for a Xing or Info tag fails
/// with `MPEGFrameTooShort` once those bytes are read.
pub proof fn lemma_frame_too_short(data: Seq<u8>)
    requires
        data.len() >= 4,
        valid_header(header_at(data, 0)),
        bitrate_code(header_at(data, 0)) != 0,
        bitrate_code(header_at(data, 0)) != 15,
        data.len() >= 16 + header_side(header_at(data, 0)),
        !counts_frames(data, 4 + header_side(header_at(data, 0))),
        header_frame_length(header_at(data, 0)) < 16 + header_side(header_at(data, 0)),
    ensures
        scan(data) == (Outcome::Failed {
            kind: ErrorKind::MPEGFrameTooShort,
            offset: 16 + header_side(header_at(data, 0)),
            nanos: 0,
        }),
{
    lemma_sync_first_byte(data);
}

/// The reserved version code `01` fails with `ForbiddenVersion`, whatever
/// the other fields hold.
pub proof fn lemma_forbidden_version(data: Seq<u8>)
    requires
        data.len() >= 4,
        is_sync(header_at(data, 0)),
        version_bits(header_at(data, 0)) == 1,
    ensures
        scan(data) == (Outcome::Failed { kind: ErrorKind::ForbiddenVersion, offset: 4, nanos: 0 }),
{
    lemma_sync_first_byte(data);
}

/// The reserved layer code `00` fails with `ForbiddenLayer` once the
/// samples per frame are looked up, that is whenever version and sampling
/// rate are not reserved.
pub proof fn lemma_forbidden_layer(data: Seq<u8>)
    requires
        data.len() >= 4,
        is_sync(header_at(data, 0)),
        version_bits(header_at(data, 0)) != 1,
        sampling_rate_code(header_at(data, 0)) != 3,
        layer_bits(header_at(data, 0)) == 0,
    ensures
        scan(data) == (Outcome::Failed { kind: ErrorKind::ForbiddenLayer, offset: 4, nanos: 0 }),
{
    lemma_sync_first_byte(data);
}

} // verus!
