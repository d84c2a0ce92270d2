//! The table-of-contents byte that opens every compressed packet.

use crate::bits::{bit_at, bit_reader, bits_value, read_u8};
use vstd::prelude::*;
use vstd::slice::slice_subrange;

verus! {

/// The three fields of a table-of-contents byte.
#[derive(Clone, Copy, Debug, PartialEq, Eq, Structural)]
pub struct Toc {
    /// Configuration number: the five high bits.
    pub config: u8,
    /// Stereo flag: the bit below the configuration number.
    pub stereo: bool,
    /// Frame-count code: the two low bits.
    pub code: u8,
}

/// The fields that `byte` spells.
pub open spec fn spec_toc(byte: u8) -> Toc {
    Toc { config: byte / 8, stereo: (byte / 4) % 2 == 1, code: byte % 4 }
}

/// Five bits, then one, then two make up the whole byte.
pub proof fn lemma_toc_fields(byte: u8)
    ensures
        bits_value(seq![byte], 0, 5) == byte / 8,
        bits_value(seq![byte], 5, 1) == (byte / 4) % 2,
        bits_value(seq![byte], 6, 2) == byte % 4,
{
    let s = seq![byte];
    assert(s[0] == byte);
    reveal_with_fuel(bits_value, 6);
    assert(bit_at(s, 0) == (byte as int / 128) % 2);
    assert(bit_at(s, 1) == (byte as int / 64) % 2);
    assert(bit_at(s, 2) == (byte as int / 32) % 2);
    assert(bit_at(s, 3) == (byte as int / 16) % 2);
    assert(bit_at(s, 4) == (byte as int / 8) % 2);
    assert(bit_at(s, 5) == (byte as int / 4) % 2);
    assert(bit_at(s, 6) == (byte as int / 2) % 2);
    assert(bit_at(s, 7) == (byte as int) % 2);
}

/// Splits the first byte of `packet` into its fields; an empty packet has none.
pub fn read_toc(packet: &Vec<u8>) -> (toc: Option<Toc>)
    ensures
        packet@.len() == 0 ==> toc is None,
        packet@.len() > 0 ==> toc == Some(spec_toc(packet@[0])),
{
    if packet.len() == 0 {
        return None;
    }
    let first = slice_subrange(packet.as_slice(), 0, 1);
    proof {
        assert(first@ =~= seq![packet@[0]]);
        lemma_toc_fields(packet@[0]);
    }
    let mut reader = bit_reader(first);
    let config = read_u8(&mut reader, 5).unwrap();
    let stereo = read_u8(&mut reader, 1).unwrap();
    let code = read_u8(&mut reader, 2).unwrap();
    Some(Toc { config, stereo: stereo != 0, code })
}

/// The frame geometry that a table-of-contents byte announces.
#[derive(Clone, Copy, Debug, PartialEq, Eq, Structural)]
pub struct FrameGeometry {
    /// Duration of one frame, in microseconds.
    pub duration_us: u32,
    /// Whether the packet is flagged as stereo.
    pub stereo: bool,
    /// Number of frames in the packet.
    pub frames: u8,
}

/// Frame duration in microseconds for a configuration number: SILK-only
/// configurations (0 to 11) run through 10, 20, 40 and 60 ms in each of three
/// bandwidths, hybrid ones (12 to 15) through 10 and 20 ms in each of two,
/// CELT-only ones (16 to 31) through 2.5, 5, 10 and 20 ms in each of four.
/// Numbers from 32 on name no configuration.
pub open spec fn spec_frame_duration_us(config: int) -> Option<int> {
    if 0 <= config < 12 {
        Some(
            if config % 4 == 0 {
                10_000
            } else if config % 4 == 1 {
                20_000
            } else if config % 4 == 2 {
                40_000
            } else {
                60_000
            },
        )
    } else if 12 <= config < 16 {
        Some(
            if config % 2 == 0 {
                10_000
            } else {
                20_000
            },
        )
    } else if 16 <= config < 32 {
        Some(
            if config % 4 == 0 {
                2_500
            } else if config % 4 == 1 {
                5_000
            } else if config % 4 == 2 {
                10_000
            } else {
                20_000
            },
        )
    } else {
        None
    }
}

/// The six frame durations of the codec, in microseconds.
pub open spec fn is_frame_duration_us(duration: int) -> bool {
    duration == 2_500 || duration == 5_000 || duration == 10_000 || duration == 20_000
        || duration == 40_000 || duration == 60_000
}

/// Number of frames for a frame-count code: the code itself, but never less than one.
pub open spec fn spec_frame_count(code: int) -> int {
    if code < 1 {
        1
    } else {
        code
    }
}

/// The geometry that `byte` announces. Every byte announces one, as five bits
/// cannot spell a configuration number beyond 31.
pub open spec fn spec_geometry(byte: u8) -> FrameGeometry {
    FrameGeometry {
        duration_us: spec_frame_duration_us(spec_toc(byte).config as int).unwrap() as u32,
        stereo: spec_toc(byte).stereo,
        frames: spec_frame_count(spec_toc(byte).code as int) as u8,
    }
}

/// Looks the frame duration up, in microseconds.
pub fn frame_duration_us(config: u8) -> (duration: Option<u32>)
    ensures
        duration is Some <==> config < 32,
        duration is Some ==> is_frame_duration_us(duration.unwrap() as int),
        match duration {
            Some(d) => spec_frame_duration_us(config as int) == Some(d as int),
            None => spec_frame_duration_us(config as int) is None,
        },
{
    match config {
        0 | 4 | 8 | 12 | 14 | 18 | 22 | 26 | 30 => Some(10_000),
        1 | 5 | 9 | 13 | 15 | 19 | 23 | 27 | 31 => Some(20_000),
        2 | 6 | 10 => Some(40_000),
        3 | 7 | 11 => Some(60_000),
        16 | 20 | 24 | 28 => Some(2_500),
        17 | 21 | 25 | 29 => Some(5_000),
        _ => None,
    }
}

/// Turns a frame-count code into a number of frames.
pub fn frame_count(code: u8) -> (frames: u8)
    ensures
        frames == spec_frame_count(code as int),
{
    if code < 1 {
        1
    } else {
        code
    }
}

impl Toc {
    /// The geometry that the fields announce, if the configuration number names
    /// a configuration.
    pub fn geometry(&self) -> (geometry: Option<FrameGeometry>)
        ensures
            geometry is Some <==> self.config < 32,
            geometry is Some ==> geometry.unwrap() == (FrameGeometry {
                duration_us: spec_frame_duration_us(self.config as int).unwrap() as u32,
                stereo: self.stereo,
                frames: spec_frame_count(self.code as int) as u8,
            }),
    {
        match frame_duration_us(self.config) {
            Some(duration_us) => Some(
                FrameGeometry { duration_us, stereo: self.stereo, frames: frame_count(self.code) },
            ),
            None => None,
        }
    }
}

/// Resolves the frame geometry of a packet from its first byte; an empty packet
/// has none.
pub fn frame_geometry(packet: &Vec<u8>) -> (geometry: Option<FrameGeometry>)
    ensures
        packet@.len() == 0 ==> geometry is None,
        packet@.len() > 0 ==> geometry == Some(spec_geometry(packet@[0])),
{
    match read_toc(packet) {
        Some(toc) => toc.geometry(),
        None => None,
    }
}

/// Whatever byte opens a packet, its geometry has one of the six frame
/// durations, one to three frames, and the frame count is the larger of the
/// code and one.
pub proof fn lemma_geometry_in_range(byte: u8)
    ensures
        spec_toc(byte).config < 32,
        spec_toc(byte).code < 4,
        is_frame_duration_us(spec_geometry(byte).duration_us as int),
        1 <= spec_geometry(byte).frames <= 3,
        spec_geometry(byte).frames == if spec_toc(byte).code == 0 { 1 } else { spec_toc(byte).code as int },
{
}

} // verus!
