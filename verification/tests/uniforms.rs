use vaporwave_overlay::uniforms::{
    FrameUniforms, NEGATIVE_ZERO, OPACITY_FULL, TIME_AT_START, UNIFORM_BLOCK_SIZE, WINDOW_SEED,
};

fn host_is_little_endian() -> bool {
    u32::from_ne_bytes([1, 0, 0, 0]) == 1
}

#[test]
fn constants_are_the_bit_patterns_of_their_floats() {
    assert_eq!(TIME_AT_START, 0.0f32.to_bits());
    assert_eq!(OPACITY_FULL, 1.0f32.to_bits());
    assert_eq!(WINDOW_SEED, 42.0f32.to_bits());
    assert_eq!(NEGATIVE_ZERO, (-0.0f32).to_bits());
    assert_eq!(UNIFORM_BLOCK_SIZE, 16);
}

#[test]
fn initial_uniforms_hold_time_zero_full_opacity_and_the_seed() {
    let uniforms = FrameUniforms::initial();
    assert_eq!(f32::from_bits(uniforms.time), 0.0);
    assert_eq!(f32::from_bits(uniforms.opacity), 1.0);
    assert_eq!(f32::from_bits(uniforms.seed), 42.0);
}

#[test]
fn initial_block_is_exact() {
    let bytes = FrameUniforms::initial().to_bytes();
    assert_eq!(
        bytes,
        [0, 0, 0, 0, 0x00, 0x00, 0x80, 0x3f, 0x00, 0x00, 0x28, 0x42, 0, 0, 0, 0]
    );
}

#[test]
fn block_holds_the_fields_in_order_least_significant_byte_first() {
    let uniforms = FrameUniforms::new(
        1234.5678f32.to_bits(),
        0.25f32.to_bits(),
        3.1415927f32.to_bits(),
    )
    .unwrap();
    let bytes = uniforms.to_bytes();
    assert_eq!(bytes.len(), UNIFORM_BLOCK_SIZE);
    assert_eq!(
        bytes,
        [0x2b, 0x52, 0x9a, 0x44, 0x00, 0x00, 0x80, 0x3e, 0xdb, 0x0f, 0x49, 0x40, 0, 0, 0, 0]
    );
}

#[test]
fn block_reads_back_as_the_three_floats_and_zero_padding() {
    let uniforms =
        FrameUniforms::new(16.625f32.to_bits(), 0.5f32.to_bits(), 7.25f32.to_bits()).unwrap();
    let bytes = uniforms.to_bytes();
    let word = |at: usize| [bytes[at], bytes[at + 1], bytes[at + 2], bytes[at + 3]];
    assert_eq!(f32::from_le_bytes(word(0)), 16.625);
    assert_eq!(f32::from_le_bytes(word(4)), 0.5);
    assert_eq!(f32::from_le_bytes(word(8)), 7.25);
    assert_eq!(word(12), [0, 0, 0, 0]);
}

#[test]
fn block_is_the_memory_image_of_four_floats() {
    if !host_is_little_endian() {
        return;
    }
    let triples: [(f32, f32, f32); 5] = [
        (0.0, 1.0, 42.0),
        (1000.0, 1.0, 42.0),
        (1234.5678, 0.25, 3.1415927),
        (86_400_000.0, 0.0, -17.5),
        (0.001, 0.999, 1.0e-20),
    ];
    for (time, opacity, seed) in triples {
        let uniforms =
            FrameUniforms::new(time.to_bits(), opacity.to_bits(), seed.to_bits()).unwrap();
        let record: [f32; 4] = [time, opacity, seed, 0.0];
        let image: &[u8] = bytemuck::cast_slice(&record);
        assert_eq!(&uniforms.to_bytes()[..], image);
    }
}

#[test]
fn every_byte_of_every_field_reaches_the_block() {
    let uniforms = FrameUniforms { time: 0x0403_0201, opacity: 0x0807_0605, seed: 0x0c0b_0a09 };
    assert_eq!(
        uniforms.to_bytes(),
        [1, 2, 3, 4, 5, 6, 7, 8, 9, 10, 11, 12, 0, 0, 0, 0]
    );
    let all_ones = FrameUniforms { time: u32::MAX, opacity: u32::MAX, seed: u32::MAX };
    assert_eq!(
        all_ones.to_bytes(),
        [255, 255, 255, 255, 255, 255, 255, 255, 255, 255, 255, 255, 0, 0, 0, 0]
    );
}

#[test]
fn records_that_differ_have_blocks_that_differ() {
    let base = FrameUniforms::initial();
    let later = base.with_time(1.0f32.to_bits());
    let other_seed = FrameUniforms { seed: 43.0f32.to_bits(), ..base };
    let dimmer = FrameUniforms { opacity: 0.5f32.to_bits(), ..base };
    assert_ne!(base.to_bytes(), later.to_bytes());
    assert_ne!(base.to_bytes(), other_seed.to_bytes());
    assert_ne!(base.to_bytes(), dimmer.to_bytes());
    assert_ne!(later.to_bytes(), other_seed.to_bytes());
}

#[test]
fn new_takes_every_opacity_in_the_unit_range() {
    for opacity in [0.0f32, -0.0, 1.0, 0.5, 0.25, f32::MIN_POSITIVE, 0.99999994] {
        let made = FrameUniforms::new(7, opacity.to_bits(), 9);
        assert_eq!(
            made,
            Some(FrameUniforms { time: 7, opacity: opacity.to_bits(), seed: 9 })
        );
    }
}

#[test]
fn new_refuses_an_opacity_outside_the_unit_range() {
    for opacity in [1.0000001f32, 1.5, 2.0, -0.5, -1.0, f32::INFINITY, f32::NEG_INFINITY, f32::NAN]
    {
        assert_eq!(FrameUniforms::new(0, opacity.to_bits(), 0), None);
    }
    assert_eq!(FrameUniforms::new(0, OPACITY_FULL + 1, 0), None);
    assert_eq!(FrameUniforms::new(0, NEGATIVE_ZERO + 1, 0), None);
    assert_eq!(FrameUniforms::new(0, u32::MAX, 0), None);
}

#[test]
fn with_time_moves_the_time_only() {
    let uniforms = FrameUniforms::new(5, 0.5f32.to_bits(), 11).unwrap();
    let moved = uniforms.with_time(1000.0f32.to_bits());
    assert_eq!(f32::from_bits(moved.time), 1000.0);
    assert_eq!(moved.opacity, uniforms.opacity);
    assert_eq!(moved.seed, uniforms.seed);
    assert_eq!(moved.with_time(5), uniforms);
}
