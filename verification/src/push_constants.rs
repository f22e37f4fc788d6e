//! The parameter blocks that the shaders read as push constants: fixed
//! sequences of 32-bit words, laid out in memory without gaps.

use vstd::prelude::*;
use crate::scalar::Scalar;

verus! {

/// Byte `k` of a word, counted from the least significant one.
pub open spec fn word_byte(word: u32, k: int) -> u8 {
    if k == 0 {
        (word % 256) as u8
    } else if k == 1 {
        ((word / 0x100) % 256) as u8
    } else if k == 2 {
        ((word / 0x1_0000) % 256) as u8
    } else {
        ((word / 0x100_0000) % 256) as u8
    }
}

/// The words one after the other, each with its least significant byte first.
pub open spec fn little_endian_layout(words: Seq<u32>) -> Seq<u8> {
    Seq::new(4 * words.len(), |i: int| word_byte(words[i / 4], i % 4))
}

/// The words one after the other, each with its most significant byte first.
pub open spec fn big_endian_layout(words: Seq<u32>) -> Seq<u8> {
    Seq::new(4 * words.len(), |i: int| word_byte(words[i / 4], 3 - i % 4))
}

/// Whether `bytes` is how the words lie in memory, on a machine of either
/// byte order.
pub open spec fn is_memory_layout(bytes: Seq<u8>, words: Seq<u32>) -> bool {
    bytes == little_endian_layout(words) || bytes == big_endian_layout(words)
}

/// Calls `zerocopy::IntoBytes::as_bytes` on the slice of words and copies the
/// bytes out. `as_bytes` hands back the memory that the value occupies: for a
/// slice of `u32` that is four bytes per word, in the order of the slice, each
/// word in the byte order of the machine.
#[verifier::external_body]
fn words_as_bytes(words: &Vec<u32>) -> (bytes: Vec<u8>)
    ensures
        is_memory_layout(bytes@, words@),
{
    zerocopy::IntoBytes::as_bytes(words.as_slice()).to_vec()
}

/// The block of the downsampling shader: twelve words.
#[derive(Clone, Copy, PartialEq, Eq, Structural, Debug)]
pub struct BlurDownsamplePushConstants {
    pub source_pixel_size_x: Scalar,
    pub source_pixel_size_y: Scalar,
    pub pad1: Scalar,
    pub pad2: Scalar,
    pub glow_strength: Scalar,
    pub glow_bloom: Scalar,
    pub glow_hdr_threshold: Scalar,
    pub glow_hdr_scale: Scalar,
    pub glow_exposure: Scalar,
    pub glow_luminance_cap: Scalar,
    pub luminance_multiplier: Scalar,
    pub pad: Scalar,
}

impl BlurDownsamplePushConstants {
    /// The fields in the order in which the shader declares them.
    pub open spec fn words(self) -> Seq<u32> {
        seq![
            self.source_pixel_size_x.bits,
            self.source_pixel_size_y.bits,
            self.pad1.bits,
            self.pad2.bits,
            self.glow_strength.bits,
            self.glow_bloom.bits,
            self.glow_hdr_threshold.bits,
            self.glow_hdr_scale.bits,
            self.glow_exposure.bits,
            self.glow_luminance_cap.bits,
            self.luminance_multiplier.bits,
            self.pad.bits,
        ]
    }

    /// The block with every word zero.
    pub fn zeroed() -> (block: BlurDownsamplePushConstants)
        ensures
            block.words() == Seq::new(12, |i: int| 0u32),
    {
        let z = Scalar::zero();
        let block = BlurDownsamplePushConstants {
            source_pixel_size_x: z,
            source_pixel_size_y: z,
            pad1: z,
            pad2: z,
            glow_strength: z,
            glow_bloom: z,
            glow_hdr_threshold: z,
            glow_hdr_scale: z,
            glow_exposure: z,
            glow_luminance_cap: z,
            luminance_multiplier: z,
            pad: z,
        };
        assert(block.words() =~= Seq::new(12, |i: int| 0u32));
        block
    }

    /// The 48 bytes that the shader reads.
    pub fn serialize(&self) -> (bytes: Vec<u8>)
        ensures
            is_memory_layout(bytes@, self.words()),
            bytes@.len() == 48,
    {
        let mut words: Vec<u32> = Vec::new();
        words.push(self.source_pixel_size_x.bits);
        words.push(self.source_pixel_size_y.bits);
        words.push(self.pad1.bits);
        words.push(self.pad2.bits);
        words.push(self.glow_strength.bits);
        words.push(self.glow_bloom.bits);
        words.push(self.glow_hdr_threshold.bits);
        words.push(self.glow_hdr_scale.bits);
        words.push(self.glow_exposure.bits);
        words.push(self.glow_luminance_cap.bits);
        words.push(self.luminance_multiplier.bits);
        words.push(self.pad.bits);
        assert(words@ =~= self.words());
        words_as_bytes(&words)
    }
}

/// The block of the upsampling shader: eight words.
#[derive(Clone, Copy, PartialEq, Eq, Structural, Debug)]
pub struct BlurUpsamplePushConstants {
    pub dest_pixel_size_x: Scalar,
    pub dest_pixel_size_y: Scalar,
    pub source_pixel_size_x: Scalar,
    pub source_pixel_size_y: Scalar,
    pub glow_level: Scalar,
    pub glow_strength: Scalar,
    pub pad1: Scalar,
    pub pad2: Scalar,
}

impl BlurUpsamplePushConstants {
    /// The fields in the order in which the shader declares them.
    pub open spec fn words(self) -> Seq<u32> {
        seq![
            self.dest_pixel_size_x.bits,
            self.dest_pixel_size_y.bits,
            self.source_pixel_size_x.bits,
            self.source_pixel_size_y.bits,
            self.glow_level.bits,
            self.glow_strength.bits,
            self.pad1.bits,
            self.pad2.bits,
        ]
    }

    /// The block with every word zero.
    pub fn zeroed() -> (block: BlurUpsamplePushConstants)
        ensures
            block.words() == Seq::new(8, |i: int| 0u32),
    {
        let z = Scalar::zero();
        let block = BlurUpsamplePushConstants {
            dest_pixel_size_x: z,
            dest_pixel_size_y: z,
            source_pixel_size_x: z,
            source_pixel_size_y: z,
            glow_level: z,
            glow_strength: z,
            pad1: z,
            pad2: z,
        };
        assert(block.words() =~= Seq::new(8, |i: int| 0u32));
        block
    }

    /// The 32 bytes that the shader reads.
    pub fn serialize(&self) -> (bytes: Vec<u8>)
        ensures
            is_memory_layout(bytes@, self.words()),
            bytes@.len() == 32,
    {
        let mut words: Vec<u32> = Vec::new();
        words.push(self.dest_pixel_size_x.bits);
        words.push(self.dest_pixel_size_y.bits);
        words.push(self.source_pixel_size_x.bits);
        words.push(self.source_pixel_size_y.bits);
        words.push(self.glow_level.bits);
        words.push(self.glow_strength.bits);
        words.push(self.pad1.bits);
        words.push(self.pad2.bits);
        assert(words@ =~= self.words());
        words_as_bytes(&words)
    }
}

/// The block of the tone-mapping shader: eight words.
#[derive(Clone, Copy, PartialEq, Eq, Structural, Debug)]
pub struct ToneMapperPushConstants {
    pub dest_pixel_size_x: Scalar,
    pub dest_pixel_size_y: Scalar,
    pub glow_pixel_size_x: Scalar,
    pub glow_pixel_size_y: Scalar,
    pub glow_intensity: Scalar,
    pub glow_map_strength: Scalar,
    pub exposure: Scalar,
    pub white: Scalar,
}

impl ToneMapperPushConstants {
    /// The fields in the order in which the shader declares them.
    pub open spec fn words(self) -> Seq<u32> {
        seq![
            self.dest_pixel_size_x.bits,
            self.dest_pixel_size_y.bits,
            self.glow_pixel_size_x.bits,
            self.glow_pixel_size_y.bits,
            self.glow_intensity.bits,
            self.glow_map_strength.bits,
            self.exposure.bits,
            self.white.bits,
        ]
    }

    /// The block with every word zero.
    pub fn zeroed() -> (block: ToneMapperPushConstants)
        ensures
            block.words() == Seq::new(8, |i: int| 0u32),
    {
        let z = Scalar::zero();
        let block = ToneMapperPushConstants {
            dest_pixel_size_x: z,
            dest_pixel_size_y: z,
            glow_pixel_size_x: z,
            glow_pixel_size_y: z,
            glow_intensity: z,
            glow_map_strength: z,
            exposure: z,
            white: z,
        };
        assert(block.words() =~= Seq::new(8, |i: int| 0u32));
        block
    }

    /// The 32 bytes that the shader reads.
    pub fn serialize(&self) -> (bytes: Vec<u8>)
        ensures
            is_memory_layout(bytes@, self.words()),
            bytes@.len() == 32,
    {
        let mut words: Vec<u32> = Vec::new();
        words.push(self.dest_pixel_size_x.bits);
        words.push(self.dest_pixel_size_y.bits);
        words.push(self.glow_pixel_size_x.bits);
        words.push(self.glow_pixel_size_y.bits);
        words.push(self.glow_intensity.bits);
        words.push(self.glow_map_strength.bits);
        words.push(self.exposure.bits);
        words.push(self.white.bits);
        assert(words@ =~= self.words());
        words_as_bytes(&words)
    }
}

} // verus!
