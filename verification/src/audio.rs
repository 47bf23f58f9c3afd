//! Chunks of 16-bit PCM audio.
use vstd::prelude::*;
use crate::pool::map_chunks_exact;

verus! {

/// The magnitude that stands for full scale: samples lie between its negative and itself.
pub const FULL_SCALE: i32 = 32_768;

/// Interleaved samples of one audio packet.
#[derive(Debug, PartialEq, Eq)]
pub struct AudioChunk {
    pub channels: u16,
    pub sample_rate: u32,
    pub samples: Vec<i16>,
}

/// What an [`AudioChunk`] holds.
pub struct ChunkModel {
    pub channels: int,
    pub sample_rate: int,
    pub samples: Seq<i16>,
}

/// The number that two bytes, low byte first, stand for in two's complement.
pub open spec fn little_endian(low: u8, high: u8) -> int {
    low + 256 * (if high >= 128 { high - 256 } else { high as int })
}

/// The samples in a packet of little-endian 16-bit PCM; an odd last byte is left out.
pub open spec fn pcm_samples(data: Seq<u8>) -> Seq<i16> {
    Seq::new(data.len() / 2, |i: int| little_endian(data[2 * i], data[2 * i + 1]) as i16)
}

impl View for AudioChunk {
    type V = ChunkModel;

    open spec fn view(&self) -> ChunkModel {
        ChunkModel {
            channels: self.channels as int,
            sample_rate: self.sample_rate as int,
            samples: self.samples@,
        }
    }
}

impl AudioChunk {
    /// Decodes a packet of little-endian 16-bit PCM, in parallel.
    pub fn decode(channels: u16, sample_rate: u32, data: &Vec<u8>) -> (chunk: Self)
        ensures
            chunk@ == (ChunkModel {
                channels: channels as int,
                sample_rate: sample_rate as int,
                samples: pcm_samples(data@),
            }),
    {
        let sample = |pair: &[u8]| -> (sample: i16)
            requires
                pair@.len() == 2,
            ensures
                sample == little_endian(pair@[0], pair@[1]),
            { read_sample(pair[0], pair[1]) };
        let samples: Vec<i16> = map_chunks_exact(data.as_slice(), 2, sample);
        assert(samples@ =~= pcm_samples(data@)) by {
            assert forall|i: int| 0 <= i < samples@.len() implies samples@[i] == pcm_samples(data@)[i] by {
                let pair = choose|pair: &[u8]|
                    {
                        &&& pair@ == data@.subrange(i * 2, (i + 1) * 2)
                        &&& #[trigger] sample.ensures((pair,), samples@[i])
                    };
                assert(samples@[i] == little_endian(pair@[0], pair@[1]));
            }
        }
        AudioChunk { channels, sample_rate, samples }
    }
}

fn read_sample(low: u8, high: u8) -> (sample: i16)
    ensures
        sample == little_endian(low, high),
{
    if high >= 128 {
        low as i16 + (high as i16 - 256) * 256
    } else {
        low as i16 + high as i16 * 256
    }
}

/// The number that two bytes stand for fits in 16 bits with a sign, and differs from the
/// unsigned number that they stand for by a multiple of 65,536.
pub proof fn law_bytes_give_two_complement(low: u8, high: u8)
    ensures
        -0x8000 <= little_endian(low, high) <= 0x7fff,
        (little_endian(low, high) - (low + 256 * high)) % 0x1_0000 == 0,
{
}

/// A packet holds one sample for every two bytes. Each sample is, up to a multiple of 65,536,
/// its first byte and 256 times its second, which leaves one value for 16 bits with a sign.
pub proof fn law_samples_are_byte_pairs(data: Seq<u8>)
    ensures
        pcm_samples(data).len() == data.len() / 2,
        forall|i: int|
            0 <= i < pcm_samples(data).len() ==> ((#[trigger] pcm_samples(data)[i]) - (data[2 * i]
                + 256 * data[2 * i + 1])) % 0x1_0000 == 0,
{
    assert forall|i: int| 0 <= i < pcm_samples(data).len() implies ((#[trigger] pcm_samples(
        data,
    )[i]) - (data[2 * i] + 256 * data[2 * i + 1])) % 0x1_0000 == 0 by {
        law_bytes_give_two_complement(data[2 * i], data[2 * i + 1]);
    }
}

/// What a chunk is taken for is what its fields hold.
pub proof fn law_chunk_shows_fields(chunk: AudioChunk)
    ensures
        chunk@.channels == chunk.channels,
        chunk@.sample_rate == chunk.sample_rate,
        chunk@.samples == chunk.samples@,
{
}

/// Whatever packet is decoded, the chunk is in the given format, with one sample for every two
/// bytes, low byte first.
pub proof fn law_decoded_chunk_holds_samples(
    channels: u16,
    sample_rate: u32,
    data: Vec<u8>,
    chunk: AudioChunk,
)
    requires
        call_ensures(AudioChunk::decode, (channels, sample_rate, &data), chunk),
    ensures
        chunk.channels == channels,
        chunk.sample_rate == sample_rate,
        chunk.samples@.len() == data@.len() / 2,
        forall|i: int|
            0 <= i < chunk.samples@.len() ==> ((#[trigger] chunk.samples@[i]) - (data@[2 * i] + 256
                * data@[2 * i + 1])) % 0x1_0000 == 0,
{
    law_samples_are_byte_pairs(data@);
}

} // verus!
