//! MPEG header enumerations and the fixed lookup tables of the standard.
use vstd::prelude::*;

verus! {

/// MPEG audio version, as encoded by two bits of a frame header.
#[derive(Clone, Copy, Debug, PartialEq, Eq, Structural)]
pub enum Version {
    Mpeg1,
    Mpeg2,
    Mpeg25,
}

/// MPEG audio layer. `NotDefined` is the reserved code `00`.
#[derive(Clone, Copy, Debug, PartialEq, Eq, Structural)]
pub enum Layer {
    NotDefined,
    Layer1,
    Layer2,
    Layer3,
}

/// Channel mode of an audio frame.
#[derive(Clone, Copy, Debug, PartialEq, Eq, Structural)]
pub enum Mode {
    Stereo,
    JointStereo,
    DualChannel,
    Mono,
}

/// Bitrates in kbit/s for one version and layer, indexed by the 4-bit code.
/// Codes 0 (free format) and 15 are reserved and hold 0.
pub open spec fn bit_rate_row(version: Version, layer: Layer) -> Seq<u32> {
    match (version, layer) {
        (_, Layer::NotDefined) => Seq::new(16, |i: int| 0u32),
        (Version::Mpeg1, Layer::Layer1) =>
            seq![0, 32, 64, 96, 128, 160, 192, 224, 256, 288, 320, 352, 384, 416, 448, 0],
        (Version::Mpeg1, Layer::Layer2) =>
            seq![0, 32, 48, 56, 64, 80, 96, 112, 128, 160, 192, 224, 256, 320, 384, 0],
        (Version::Mpeg1, Layer::Layer3) =>
            seq![0, 32, 40, 48, 56, 64, 80, 96, 112, 128, 160, 192, 224, 256, 320, 0],
        (_, Layer::Layer1) =>
            seq![0, 32, 48, 56, 64, 80, 96, 112, 128, 144, 160, 176, 192, 224, 256, 0],
        (_, _) =>
            seq![0, 8, 16, 24, 32, 40, 48, 56, 64, 80, 96, 112, 128, 144, 160, 0],
    }
}

/// The bitrate table row of a version and layer.
pub fn bit_rates(version: Version, layer: Layer) -> (r: [u32; 16])
    ensures
        r@ == bit_rate_row(version, layer),
{
    let r: [u32; 16] = match (version, layer) {
        (_, Layer::NotDefined) => [0; 16],
        (Version::Mpeg1, Layer::Layer1) =>
            [0, 32, 64, 96, 128, 160, 192, 224, 256, 288, 320, 352, 384, 416, 448, 0],
        (Version::Mpeg1, Layer::Layer2) =>
            [0, 32, 48, 56, 64, 80, 96, 112, 128, 160, 192, 224, 256, 320, 384, 0],
        (Version::Mpeg1, Layer::Layer3) =>
            [0, 32, 40, 48, 56, 64, 80, 96, 112, 128, 160, 192, 224, 256, 320, 0],
        (_, Layer::Layer1) =>
            [0, 32, 48, 56, 64, 80, 96, 112, 128, 144, 160, 176, 192, 224, 256, 0],
        (_, _) =>
            [0, 8, 16, 24, 32, 40, 48, 56, 64, 80, 96, 112, 128, 144, 160, 0],
    };
    assert(r@ =~= bit_rate_row(version, layer));
    r
}

/// Position of a version in the rows of the tables below.
pub open spec fn version_index(version: Version) -> int {
    match version {
        Version::Mpeg1 => 0,
        Version::Mpeg2 => 1,
        Version::Mpeg25 => 2,
    }
}

/// Position of a layer in a row of the samples-per-frame table.
pub open spec fn layer_index(layer: Layer) -> int {
    match layer {
        Layer::NotDefined => 0,
        Layer::Layer1 => 1,
        Layer::Layer2 => 2,
        Layer::Layer3 => 3,
    }
}

/// Position of a channel mode in a row of the side-information table.
pub open spec fn mode_index(mode: Mode) -> int {
    match mode {
        Mode::Stereo => 0,
        Mode::JointStereo => 1,
        Mode::DualChannel => 2,
        Mode::Mono => 3,
    }
}

/// Sampling rates in Hz, one row per version, indexed by the 2-bit code.
/// Code 3 is reserved and holds 0.
pub open spec fn sampling_rate_table() -> Seq<Seq<u32>> {
    seq![
        seq![44100, 48000, 32000, 0],
        seq![22050, 24000, 16000, 0],
        seq![11025, 12000, 8000, 0],
    ]
}

/// Samples carried by one frame, one row per version, indexed by layer.
pub open spec fn samples_per_frame_table() -> Seq<Seq<u32>> {
    seq![
        seq![0, 384, 1152, 1152],
        seq![0, 384, 1152, 576],
        seq![0, 384, 1152, 576],
    ]
}

/// Bytes of side information after a frame header, one row per version,
/// indexed by channel mode.
pub open spec fn side_information_table() -> Seq<Seq<u32>> {
    seq![
        seq![32, 32, 32, 17],
        seq![17, 17, 17, 9],
        seq![17, 17, 17, 9],
    ]
}

/// The sampling-rate table row of a version.
pub fn sampling_rates(version: Version) -> (r: [u32; 4])
    ensures
        r@ == sampling_rate_table()[version_index(version)],
{
    let r: [u32; 4] = match version {
        Version::Mpeg1 => [44100, 48000, 32000, 0],
        Version::Mpeg2 => [22050, 24000, 16000, 0],
        Version::Mpeg25 => [11025, 12000, 8000, 0],
    };
    assert(r@ =~= sampling_rate_table()[version_index(version)]);
    r
}

/// The samples-per-frame table row of a version.
pub fn samples_per_frame(version: Version) -> (r: [u32; 4])
    ensures
        r@ == samples_per_frame_table()[version_index(version)],
{
    let r: [u32; 4] = match version {
        Version::Mpeg1 => [0, 384, 1152, 1152],
        _ => [0, 384, 1152, 576],
    };
    assert(r@ =~= samples_per_frame_table()[version_index(version)]);
    r
}

/// The side-information table row of a version.
pub fn side_information_sizes(version: Version) -> (r: [u32; 4])
    ensures
        r@ == side_information_table()[version_index(version)],
{
    let r: [u32; 4] = match version {
        Version::Mpeg1 => [32, 32, 32, 17],
        _ => [17, 17, 17, 9],
    };
    assert(r@ =~= side_information_table()[version_index(version)]);
    r
}

/// The ranges the table entries fall in, which keep frame arithmetic small.
pub proof fn lemma_table_bounds(
    version: Version,
    layer: Layer,
    mode: Mode,
    rate_code: int,
    bit_code: int,
)
    requires
        0 <= rate_code < 3,
        0 <= bit_code < 16,
        layer != Layer::NotDefined,
    ensures
        8000 <= sampling_rate_table()[version_index(version)][rate_code] <= 48000,
        384 <= samples_per_frame_table()[version_index(version)][layer_index(layer)] <= 1152,
        9 <= side_information_table()[version_index(version)][mode_index(mode)] <= 32,
        bit_rate_row(version, layer)[bit_code] <= 448,
{
}

impl Layer {
    /// Position of the layer in a row of the samples-per-frame table.
    pub fn index(self) -> (r: usize)
        ensures
            r == layer_index(self),
    {
        match self {
            Layer::NotDefined => 0,
            Layer::Layer1 => 1,
            Layer::Layer2 => 2,
            Layer::Layer3 => 3,
        }
    }
}

impl Mode {
    /// Position of the mode in a row of the side-information table.
    pub fn index(self) -> (r: usize)
        ensures
            r == mode_index(self),
    {
        match self {
            Mode::Stereo => 0,
            Mode::JointStereo => 1,
            Mode::DualChannel => 2,
            Mode::Mono => 3,
        }
    }
}

} // verus!
