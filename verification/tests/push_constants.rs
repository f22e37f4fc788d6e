use glow_post_effect::push_constants::BlurDownsamplePushConstants;
use glow_post_effect::push_constants::BlurUpsamplePushConstants;
use glow_post_effect::push_constants::ToneMapperPushConstants;
use glow_post_effect::scalar::Scalar;

fn block_scalar(value: f32) -> Scalar {
    Scalar::from_bits(value.to_bits())
}

fn layout(values: &[f32]) -> Vec<u8> {
    let mut bytes = Vec::new();
    for value in values {
        bytes.extend_from_slice(&value.to_ne_bytes());
    }
    bytes
}

#[test]
fn a_zeroed_block_is_all_zero_bytes() {
    assert_eq!(BlurDownsamplePushConstants::zeroed().serialize(), vec![0u8; 48]);
    assert_eq!(BlurUpsamplePushConstants::zeroed().serialize(), vec![0u8; 32]);
    assert_eq!(ToneMapperPushConstants::zeroed().serialize(), vec![0u8; 32]);
}

#[test]
fn the_downsample_block_keeps_the_order_of_its_fields() {
    let block = BlurDownsamplePushConstants {
        source_pixel_size_x: block_scalar(1.0),
        source_pixel_size_y: block_scalar(2.0),
        pad1: block_scalar(3.0),
        pad2: block_scalar(4.0),
        glow_strength: block_scalar(5.0),
        glow_bloom: block_scalar(6.0),
        glow_hdr_threshold: block_scalar(7.0),
        glow_hdr_scale: block_scalar(8.0),
        glow_exposure: block_scalar(9.0),
        glow_luminance_cap: block_scalar(10.0),
        luminance_multiplier: block_scalar(11.0),
        pad: block_scalar(12.0),
    };
    let bytes = block.serialize();
    assert_eq!(bytes.len(), 48);
    assert_eq!(
        bytes,
        layout(&[1.0, 2.0, 3.0, 4.0, 5.0, 6.0, 7.0, 8.0, 9.0, 10.0, 11.0, 12.0])
    );
}

#[test]
fn the_upsample_block_keeps_the_order_of_its_fields() {
    let block = BlurUpsamplePushConstants {
        dest_pixel_size_x: block_scalar(0.5),
        dest_pixel_size_y: block_scalar(0.25),
        source_pixel_size_x: block_scalar(0.125),
        source_pixel_size_y: block_scalar(0.0625),
        glow_level: block_scalar(0.4),
        glow_strength: block_scalar(1.0),
        pad1: block_scalar(0.0),
        pad2: block_scalar(0.0),
    };
    let bytes = block.serialize();
    assert_eq!(bytes.len(), 32);
    assert_eq!(bytes, layout(&[0.5, 0.25, 0.125, 0.0625, 0.4, 1.0, 0.0, 0.0]));
}

#[test]
fn the_tone_mapper_block_keeps_the_order_of_its_fields() {
    let block = ToneMapperPushConstants {
        dest_pixel_size_x: block_scalar(1.0 / 1920.0),
        dest_pixel_size_y: block_scalar(1.0 / 1080.0),
        glow_pixel_size_x: block_scalar(1.0 / 480.0),
        glow_pixel_size_y: block_scalar(1.0 / 270.0),
        glow_intensity: block_scalar(0.8),
        glow_map_strength: block_scalar(0.8),
        exposure: block_scalar(1.0),
        white: block_scalar(2.0),
    };
    assert_eq!(
        block.serialize(),
        layout(&[1.0 / 1920.0, 1.0 / 1080.0, 1.0 / 480.0, 1.0 / 270.0, 0.8, 0.8, 1.0, 2.0])
    );
}

#[test]
fn a_word_is_four_bytes_in_the_order_of_the_machine() {
    let mut block = BlurUpsamplePushConstants::zeroed();
    block.dest_pixel_size_x = Scalar::from_bits(0x0403_0201);
    let bytes = block.serialize();
    assert_eq!(&bytes[0..4], &0x0403_0201u32.to_ne_bytes());
    assert!(bytes[0..4] == [1, 2, 3, 4] || bytes[0..4] == [4, 3, 2, 1]);
    assert_eq!(&bytes[4..], &[0u8; 28]);
}
