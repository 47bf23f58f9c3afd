use av1_player::audio::{AudioChunk, FULL_SCALE};

#[test]
fn samples_are_little_endian() {
    let chunk = AudioChunk::decode(2, 48_000, &vec![0x01, 0x00, 0xff, 0xff, 0x00, 0x80, 0xff, 0x7f]);
    assert_eq!(chunk.channels, 2);
    assert_eq!(chunk.sample_rate, 48_000);
    assert_eq!(chunk.samples, vec![1, -1, -32_768, 32_767]);
}

#[test]
fn odd_last_byte_is_left_out() {
    assert_eq!(AudioChunk::decode(1, 8_000, &vec![0x34, 0x12, 0x56]).samples, vec![0x1234]);
    assert_eq!(AudioChunk::decode(1, 8_000, &vec![0x56]).samples, Vec::<i16>::new());
    assert_eq!(AudioChunk::decode(1, 8_000, &vec![]).samples, Vec::<i16>::new());
}

#[test]
fn long_packets_keep_their_order() {
    let data: Vec<u8> = (0..20_000u16).flat_map(|n| n.to_le_bytes()).collect();
    let expected: Vec<i16> = (0..20_000).collect();
    assert_eq!(AudioChunk::decode(2, 44_100, &data).samples, expected);
}

#[test]
fn every_sample_agrees_with_std() {
    let data: Vec<u8> = (0..=u16::MAX).flat_map(|n| n.to_le_bytes()).collect();
    let expected: Vec<i16> = data.chunks_exact(2).map(|s| i16::from_le_bytes([s[0], s[1]])).collect();
    assert_eq!(AudioChunk::decode(2, 44_100, &data).samples, expected);
}

#[test]
fn full_scale_is_the_largest_magnitude() {
    assert_eq!(i16::MIN as f32 / FULL_SCALE as f32, -1.0);
    assert!(i16::MAX as f32 / (FULL_SCALE as f32) < 1.0);
    assert_eq!(16_384i16 as f32 / FULL_SCALE as f32, 0.5);
}
