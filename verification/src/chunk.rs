//! Sizing the buffer that one packet decodes into.

use crate::error::OpusSourceError;
use crate::stream::read_view;
use crate::toc::{frame_geometry, lemma_geometry_in_range, spec_geometry, FrameGeometry};
use vstd::prelude::*;

verus! {

/// What the codec is asked to do with one packet.
#[derive(Debug)]
pub struct DecodeRequest {
    /// The compressed packet, first byte included.
    pub packet: Vec<u8>,
    /// The buffer to decode into: zeroes, as many as the packet's geometry asks for.
    pub output: Vec<i16>,
    /// Whether to decode with forward error correction: never.
    pub fec: bool,
}

/// Channels per frame: one for a mono-flagged packet, two for a stereo-flagged one.
pub open spec fn spec_channels(stereo: bool) -> int {
    if stereo {
        2
    } else {
        1
    }
}

/// Length of the decoded buffer: the whole samples that one frame lasts at
/// `sample_rate`, times the frames, times the channels.
pub open spec fn spec_chunk_len(sample_rate: int, duration_us: int, frames: int, channels: int) -> int {
    sample_rate * duration_us / 1_000_000 * frames * channels
}

/// Length of the buffer that a packet with first byte `byte` decodes into.
pub open spec fn spec_packet_chunk_len(sample_rate: u32, byte: u8) -> int {
    let geometry = spec_geometry(byte);
    spec_chunk_len(
        sample_rate as int,
        geometry.duration_us as int,
        geometry.frames as int,
        spec_channels(geometry.stereo),
    )
}

/// The request that the outcome `read` of a packet read leads to, if any: none
/// for a failed read, an empty packet, or a packet that decodes to no sample.
pub open spec fn spec_plan(sample_rate: u32, read: Option<Seq<u8>>) -> Option<(Seq<u8>, nat)> {
    match read {
        Some(packet) => if packet.len() > 0 && spec_packet_chunk_len(sample_rate, packet[0]) > 0 {
            Some((packet, spec_packet_chunk_len(sample_rate, packet[0]) as nat))
        } else {
            None
        },
        None => None,
    }
}

/// Computes the length of the decoded buffer.
pub fn chunk_len(sample_rate: u32, geometry: FrameGeometry) -> (len: u64)
    ensures
        len == spec_chunk_len(
            sample_rate as int,
            geometry.duration_us as int,
            geometry.frames as int,
            spec_channels(geometry.stereo),
        ),
{
    let channels: u64 = if geometry.stereo {
        2
    } else {
        1
    };
    let rate: u64 = sample_rate as u64;
    let duration: u64 = geometry.duration_us as u64;
    let frames: u64 = geometry.frames as u64;
    assert(rate * duration <= 0xffff_ffff * 0xffff_ffff) by (nonlinear_arith)
        requires
            rate <= 0xffff_ffff,
            duration <= 0xffff_ffff,
    ;
    let per_frame: u64 = rate * duration / 1_000_000;
    assert(per_frame * frames <= 18_446_744_065_119 * 255) by (nonlinear_arith)
        requires
            per_frame <= 18_446_744_065_119,
            frames <= 255,
    ;
    per_frame * frames * channels
}

/// A packet's buffer fits in memory on every machine and is within what the
/// codec accepts as an output length.
pub proof fn lemma_packet_chunk_len_bounded(sample_rate: u32, byte: u8)
    ensures
        0 <= spec_packet_chunk_len(sample_rate, byte) <= 0x7fff_ffff,
{
    lemma_geometry_in_range(byte);
    let geometry = spec_geometry(byte);
    let rate = sample_rate as int;
    let duration = geometry.duration_us as int;
    assert(0 <= rate * duration <= 0xffff_ffff * 60_000) by (nonlinear_arith)
        requires
            0 <= rate <= 0xffff_ffff,
            0 <= duration <= 60_000,
    ;
    let per_frame = rate * duration / 1_000_000;
    let frames = geometry.frames as int;
    assert(0 <= per_frame * frames <= 257_698_037 * 3) by (nonlinear_arith)
        requires
            0 <= per_frame <= 257_698_037,
            0 <= frames <= 3,
    ;
}

/// Plans the decoding of the packet that a read gave: resolves its geometry and
/// sets up a zeroed buffer of the length that the geometry asks for. A read that
/// gave no packet is an invalid stream, and so is a packet without a first byte
/// or one that leaves no room for a sample, which no codec can decode.
pub fn plan_chunk(sample_rate: u32, read: Option<Vec<u8>>) -> (plan: Result<
    DecodeRequest,
    OpusSourceError,
>)
    ensures
        match plan {
            Ok(request) => spec_plan(sample_rate, read_view(read)) == Some(
                (request.packet@, request.output@.len()),
            ) && request.output@ == Seq::new(request.output@.len(), |i: int| 0i16)
                && !request.fec,
            Err(error) => spec_plan(sample_rate, read_view(read)) is None && error
                == OpusSourceError::InvalidAudioStream,
        },
{
    let packet = match read {
        Some(packet) => packet,
        None => {
            return Err(OpusSourceError::InvalidAudioStream);
        },
    };
    let geometry = match frame_geometry(&packet) {
        Some(geometry) => geometry,
        None => {
            return Err(OpusSourceError::InvalidAudioStream);
        },
    };
    let len = chunk_len(sample_rate, geometry);
    if len == 0 {
        return Err(OpusSourceError::InvalidAudioStream);
    }
    proof {
        lemma_packet_chunk_len_bounded(sample_rate, packet@[0]);
    }
    let output = vec![0i16; len as usize];
    assert(output@ =~= Seq::new(output@.len(), |i: int| 0i16));
    Ok(DecodeRequest { packet, output, fec: false })
}

} // verus!
