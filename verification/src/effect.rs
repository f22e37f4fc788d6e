//! The effect as the host sees it: its tunables, and the plan of the draws of
//! one frame.

use vstd::prelude::*;
use crate::blur_downsample::BlurDownsample;
use crate::blur_upsample::BlurUpsample;
use crate::draw::SetupError;
use crate::handle::Handle;
use crate::mipmap::get_image_required_mipmaps;
use crate::mipmap::required_mipmaps;
use crate::registry::GlobalRidsSingleton;
use crate::renderer::fresh_renderer;
use crate::scalar::PixelSize;
use crate::scalar::Scalar;
use crate::tex_copy::TexCopy;
use crate::tone_mapper::GlowMode;
use crate::tone_mapper::ToneMapSettings;
use crate::tone_mapper::ToneMapper;
use crate::tone_mapper::ToneMapperType;

verus! {

/// The scope of the frame's buffers in which the scratch textures live.
pub const RB_SCOPE_BUFFERS: &'static str = "my_render_buffers";

/// The name of the fine chain, which starts at the size of the frame.
pub const RB_TEX_BLUR_0: &'static str = "blur_0";

/// The name of the coarse chain, which starts at half the size of the frame.
pub const RB_TEX_BLUR_1: &'static str = "blur_1";

/// The number of views with which the effect runs.
pub const SUPPORTED_VIEW_COUNT: u32 = 1;

/// A texture of the frame, by its role.
#[derive(Clone, Copy, PartialEq, Eq, Structural, Debug)]
pub enum TextureRef {
    /// The colour buffer that the scene was rendered into.
    Color,
    /// The shared black placeholder.
    Black,
    /// A mip level of the fine chain.
    Fine(u32),
    /// A mip level of the coarse chain.
    Coarse(u32),
}

/// The extents of a texture of the frame, by its role.
#[derive(Clone, Copy, PartialEq, Eq, Structural, Debug)]
pub enum SizeRef {
    /// The internal size of the frame.
    Frame,
    /// The size of a mip level of the fine chain.
    Fine(u32),
    /// The size of a mip level of the coarse chain.
    Coarse(u32),
}

/// The parameters that shape the glow in the downsampling shader.
#[derive(Clone, Copy, PartialEq, Eq, Structural, Debug)]
pub struct GlowShaping {
    pub luminance_multiplier: Scalar,
    pub strength: Scalar,
    pub luminance_cap: Scalar,
    pub exposure: Scalar,
    pub bloom: Scalar,
    pub hdr_bleed_threshold: Scalar,
    pub hdr_bleed_scale: Scalar,
}

/// What the tone-mapping draw of a frame is told, but for the handle and the
/// pixel size of the glow texture, which the device knows. The draw goes into
/// the framebuffer of `dest`, of the extents `size`.
#[derive(Clone, Copy, PartialEq, Eq, Structural, Debug)]
pub struct ToneMapPass {
    pub source: TextureRef,
    pub dest: TextureRef,
    pub size: SizeRef,
    pub glow: TextureRef,
    pub glow_size: SizeRef,
    pub use_glow_map: bool,
    pub glow_map_tex: Handle,
    pub glow_intensity: Scalar,
    pub glow_map_strength: Scalar,
    pub exposure: Scalar,
    pub white: Scalar,
    pub use_fxaa: bool,
    pub tonemap_type: ToneMapperType,
    pub glow_mode: GlowMode,
}

/// One draw of a frame.
#[derive(Clone, Copy, PartialEq, Eq, Structural, Debug)]
pub enum Pass {
    /// A downsampling draw; `size` is the size of the source.
    Downsample { source: TextureRef, dest: TextureRef, size: SizeRef, first_pass: bool, shaping: GlowShaping },
    /// An upsampling draw.
    Upsample {
        source: TextureRef,
        dest: TextureRef,
        blend: TextureRef,
        source_size: SizeRef,
        dest_size: SizeRef,
        level: Scalar,
        base_strength: Scalar,
    },
    /// A copy.
    Copy { source: TextureRef, dest: TextureRef },
    /// The tone-mapping draw, into the framebuffer of its destination.
    ToneMap { pass: ToneMapPass },
}

/// A scratch mip chain to create, or to find again, in the frame's buffers.
#[derive(Clone, Copy, PartialEq, Eq, Structural, Debug)]
pub struct ChainRequest {
    pub width: u32,
    pub height: u32,
    pub layers: u32,
    pub mipmaps: u32,
    pub usage_bits: u32,
    pub unique: bool,
    pub discardable: bool,
}

/// What the effect does in one frame.
#[derive(Debug)]
pub struct FramePlan {
    pub fine_chain: ChainRequest,
    pub coarse_chain: ChainRequest,
    pub min_glow_level: i32,
    pub max_glow_index: i32,
    pub passes: Vec<Pass>,
}

/// The compiled shaders of the four stages.
#[derive(Clone, Copy, PartialEq, Eq, Structural, Debug)]
pub struct StageShaders {
    pub copy: Handle,
    pub downsample: Handle,
    pub upsample: Handle,
    pub tonemapper: Handle,
}

/// The effect: its four stages, the shared resources, and its tunables.
#[derive(Debug)]
pub struct PostEffectToneMap {
    pub downsample: BlurDownsample,
    pub upsample: BlurUpsample,
    pub tonemapper: ToneMapper,
    pub copy: TexCopy,
    pub global_rids_singleton: GlobalRidsSingleton,
    pub use_fxaa: bool,
    pub glow_levels: Vec<Scalar>,
    pub glow_intensity: Scalar,
    pub glow_strength: Scalar,
    pub glow_mix: Scalar,
    pub glow_bloom: Scalar,
    pub glow_blend_mode: GlowMode,
    pub glow_hdr_bleed_threshold: Scalar,
    pub glow_hdr_bleed_scale: Scalar,
    pub glow_hdr_luminance_cap: Scalar,
    pub glow_map_strength: Scalar,
    pub glow_map: Option<Handle>,
    pub exposure: Scalar,
    pub white: Scalar,
    pub tonemap_type: ToneMapperType,
}

/// Calls `godot::obj::EngineEnum::ord` on
/// `EffectCallbackType::POST_TRANSPARENT` of godot's `compositor_effect`
/// module. `ord` hands back the ordinal that the engine gives the enumerator,
/// and the engine's API description, from which godot's classes are
/// generated, gives `EFFECT_CALLBACK_TYPE_POST_TRANSPARENT` the value 4.
#[verifier::external_body]
fn post_transparent_ord() -> (ordinal: i32)
    ensures
        ordinal == 4,
{
    godot::obj::EngineEnum::ord(
        godot::classes::compositor_effect::EffectCallbackType::POST_TRANSPARENT,
    )
}

/// Calls `godot::obj::EngineBitfield::ord` on
/// `TextureUsageBits::SAMPLING_BIT` of godot's `rendering_device` module.
/// `ord` hands back the value that the engine gives the flag, and the
/// engine's API description gives `TEXTURE_USAGE_SAMPLING_BIT` the value 1.
#[verifier::external_body]
fn sampling_bit_ord() -> (bits: u64)
    ensures
        bits == 1,
{
    godot::obj::EngineBitfield::ord(godot::classes::rendering_device::TextureUsageBits::SAMPLING_BIT)
}

/// Calls `godot::obj::EngineBitfield::ord` on
/// `TextureUsageBits::COLOR_ATTACHMENT_BIT` of godot's `rendering_device`
/// module. `ord` hands back the value that the engine gives the flag, and the
/// engine's API description gives `TEXTURE_USAGE_COLOR_ATTACHMENT_BIT` the
/// value 2.
#[verifier::external_body]
fn color_attachment_bit_ord() -> (bits: u64)
    ensures
        bits == 2,
{
    godot::obj::EngineBitfield::ord(
        godot::classes::rendering_device::TextureUsageBits::COLOR_ATTACHMENT_BIT,
    )
}

/// Whether `m` is the index of the last active level, or -1 where no level
/// is active.
pub open spec fn is_max_active(levels: Seq<Scalar>, m: int) -> bool {
    &&& -1 <= m < levels.len()
    &&& m >= 0 ==> levels[m].exceeds_glow_threshold()
    &&& forall|i: int| m < i < levels.len() ==> !(#[trigger] levels[i]).exceeds_glow_threshold()
}

/// Whether `m` is the index of the first active level, or the number of
/// levels where no level is active.
pub open spec fn is_min_active(levels: Seq<Scalar>, m: int) -> bool {
    &&& 0 <= m <= levels.len()
    &&& m < levels.len() ==> levels[m].exceeds_glow_threshold()
    &&& forall|i: int| 0 <= i < m ==> !(#[trigger] levels[i]).exceeds_glow_threshold()
}

/// A scratch chain of the given size: one layer, sampled and drawn into, with
/// as many mip levels as its size allows.
pub open spec fn chain_request(width: u32, height: u32) -> ChainRequest {
    ChainRequest {
        width: width,
        height: height,
        layers: 1,
        mipmaps: required_mipmaps(width as nat, height as nat, 1) as u32,
        usage_bits: 3,
        unique: true,
        discardable: false,
    }
}

/// Downsampling draw number `k` of a frame. The first reads the colour
/// buffer and is the one that shapes the glow; each later one reads the level
/// that the draw before it wrote. All of them write the coarse chain.
pub open spec fn downsample_pass(k: int, shaping: GlowShaping) -> Pass {
    if k == 0 {
        Pass::Downsample {
            source: TextureRef::Color,
            dest: TextureRef::Coarse(1),
            size: SizeRef::Frame,
            first_pass: true,
            shaping: shaping,
        }
    } else {
        Pass::Downsample {
            source: TextureRef::Coarse(k as u32),
            dest: TextureRef::Coarse((k + 1) as u32),
            size: SizeRef::Coarse(k as u32),
            first_pass: false,
            shaping: shaping,
        }
    }
}

/// How many downsampling draws a frame has, where `m` is the index of the
/// last active level: one for each level up to it, and one in any case.
pub open spec fn downsample_count(m: int) -> nat {
    if m < 1 {
        1
    } else {
        (m + 1) as nat
    }
}

/// The downsampling draws of a frame.
pub open spec fn downsample_passes(m: int, shaping: GlowShaping) -> Seq<Pass> {
    Seq::new(downsample_count(m), |k: int| downsample_pass(k, shaping))
}

/// The one upsampling draw of a frame in which no level above the first is
/// active: from the black placeholder, so that nothing is added to the first
/// level of the coarse chain.
pub open spec fn idle_upsample_pass(levels: Seq<Scalar>) -> Pass {
    Pass::Upsample {
        source: TextureRef::Black,
        dest: TextureRef::Fine(2),
        blend: TextureRef::Coarse(1),
        source_size: SizeRef::Fine(2),
        dest_size: SizeRef::Fine(2),
        level: levels[0],
        base_strength: Scalar { bits: 0 },
    }
}

/// Upsampling draw number `k` of a frame whose last active level has the
/// index `m >= 1`. The draws go from level `m - 1` down to level 0. The first
/// reads what the last downsampling draw wrote and takes the intensity of
/// level `m` as its base strength; each later one reads what the draw before
/// it wrote, at full strength.
pub open spec fn upsample_pass(levels: Seq<Scalar>, m: int, k: int) -> Pass {
    let i = m - 1 - k;
    Pass::Upsample {
        source: if k == 0 {
            TextureRef::Coarse((m + 1) as u32)
        } else {
            TextureRef::Fine((i + 3) as u32)
        },
        dest: TextureRef::Fine((i + 2) as u32),
        blend: TextureRef::Coarse((i + 1) as u32),
        source_size: SizeRef::Fine((i + 3) as u32),
        dest_size: SizeRef::Fine((i + 2) as u32),
        level: levels[i],
        base_strength: if k == 0 {
            levels[i + 1]
        } else {
            Scalar { bits: 0x3F80_0000 }
        },
    }
}

/// The upsampling draws of a frame.
pub open spec fn upsample_passes(levels: Seq<Scalar>, m: int) -> Seq<Pass> {
    if m <= 0 {
        seq![idle_upsample_pass(levels)]
    } else {
        Seq::new(m as nat, |k: int| upsample_pass(levels, m, k))
    }
}

/// The copy that ends a frame's glow: the colour buffer into the finest level
/// of the fine chain, from where the tone mapper reads the scene.
pub open spec fn seed_copy_pass() -> Pass {
    Pass::Copy { source: TextureRef::Color, dest: TextureRef::Fine(0) }
}

/// The usage flags of a scratch chain: drawn into and sampled.
fn scratch_usage_bits() -> (bits: u32)
    ensures
        bits == 3,
{
    let attachment: u64 = color_attachment_bit_ord();
    let sampling: u64 = sampling_bit_ord();
    let both: u64 = attachment | sampling;
    assert(2u64 | 1u64 == 3u64) by (bit_vector);
    both as u32
}

/// The scratch chain of the given size.
fn scratch_chain(width: u32, height: u32) -> (chain: ChainRequest)
    ensures
        chain == chain_request(width, height),
{
    ChainRequest {
        width,
        height,
        layers: 1,
        mipmaps: get_image_required_mipmaps(width, height, 1),
        usage_bits: scratch_usage_bits(),
        unique: true,
        discardable: false,
    }
}

impl PostEffectToneMap {
    /// Whether the effect has at least one glow level, and no more than a
    /// signed 32-bit index can count.
    pub open spec fn wf(&self) -> bool {
        1 <= self.glow_levels@.len() <= 0x7fff_ffff
    }

    /// The shaping parameters of the downsampling draws. The luminance
    /// multiplier is 2.0.
    pub open spec fn shaping(&self) -> GlowShaping {
        GlowShaping {
            luminance_multiplier: Scalar { bits: 0x4000_0000 },
            strength: self.glow_strength,
            luminance_cap: self.glow_hdr_luminance_cap,
            exposure: self.exposure,
            bloom: self.glow_bloom,
            hdr_bleed_threshold: self.glow_hdr_bleed_threshold,
            hdr_bleed_scale: self.glow_hdr_bleed_scale,
        }
    }

    /// The intensity that the tone mapper gives the glow: the mix factor in
    /// the mixing mode, the glow intensity in the others.
    pub open spec fn effective_glow_intensity(&self) -> Scalar {
        if self.glow_blend_mode == GlowMode::Mix {
            self.glow_mix
        } else {
            self.glow_intensity
        }
    }

    /// The tone-mapping draw of a frame. It reads the scene from the finest
    /// level of the fine chain and the glow from its third level, and writes
    /// the output: the framebuffer of the colour buffer.
    pub open spec fn tone_map_pass(&self, glow_map: Handle) -> Pass {
        Pass::ToneMap {
            pass: ToneMapPass {
                source: TextureRef::Fine(0),
                dest: TextureRef::Color,
                size: SizeRef::Frame,
                glow: TextureRef::Fine(2),
                glow_size: SizeRef::Fine(2),
                use_glow_map: glow_map.valid(),
                glow_map_tex: glow_map,
                glow_intensity: self.effective_glow_intensity(),
                glow_map_strength: self.glow_map_strength,
                exposure: self.exposure,
                white: self.white,
                use_fxaa: self.use_fxaa,
                tonemap_type: self.tonemap_type,
                glow_mode: self.glow_blend_mode,
            },
        }
    }

    /// The draws of a frame in their order: down the coarse chain, up the
    /// fine chain, then the copy and the tone mapping.
    pub open spec fn frame_passes(&self, m: int, glow_map: Handle) -> Seq<Pass> {
        downsample_passes(m, self.shaping()) + upsample_passes(self.glow_levels@, m) + seq![
            seed_copy_pass(),
            self.tone_map_pass(glow_map),
        ]
    }

    /// The texture whose device texture is the glow map of the frame: the one
    /// that is set, if its handle is valid.
    pub open spec fn glow_map_texture(&self) -> Option<Handle> {
        match self.glow_map {
            Some(texture) => if texture.valid() {
                Some(texture)
            } else {
                None
            },
            None => None,
        }
    }

    /// The effect with its stages set up and every tunable at its default:
    /// three glow levels of 1.0, intensity 0.8, strength 1.0, mix 0.05, bloom
    /// 0.0, additive blending, bleed threshold 0.2 and scale 2.0, luminance
    /// cap 12.0, map strength 0.8 and no glow map, exposure 1.0, white 2.0,
    /// the Reinhard operator, and no FXAA.
    pub fn init(rids: GlobalRidsSingleton, shaders: StageShaders) -> (made: Result<
        PostEffectToneMap,
        SetupError,
    >)
        ensures
            made is Ok <==> shaders.copy.valid() && shaders.downsample.valid()
                && shaders.upsample.valid() && shaders.tonemapper.valid(),
            made is Err ==> made->Err_0 == SetupError::ShaderMissing,
            made matches Ok(effect) ==> {
                &&& effect.wf()
                &&& effect.global_rids_singleton == rids
                &&& effect.copy.renderer@ == fresh_renderer(shaders.copy)
                &&& effect.downsample.renderer@ == fresh_renderer(shaders.downsample)
                &&& effect.upsample.renderer@ == fresh_renderer(shaders.upsample)
                &&& effect.tonemapper.renderer@ == fresh_renderer(shaders.tonemapper)
                &&& effect.copy.scs@.len() == 0
                &&& effect.downsample.scs@ == seq![false]
                &&& effect.upsample.scs@ == seq![false]
                &&& effect.tonemapper.scs@ == Seq::new(12, |i: int| false)
                &&& effect.downsample.ubo.words() == Seq::new(12, |i: int| 0u32)
                &&& effect.upsample.ubo.words() == Seq::new(8, |i: int| 0u32)
                &&& effect.tonemapper.ubo.words() == Seq::new(8, |i: int| 0u32)
                &&& effect.copy.sampler == rids.default_sampler
                &&& effect.downsample.sampler == rids.glow_downsample_sampler
                &&& effect.upsample.sampler == rids.default_sampler
                &&& effect.tonemapper.sampler == rids.default_sampler
                &&& effect.tonemapper.sampler_mipmaps == rids.default_sampler_mipmaps
                &&& effect.tonemapper.default_tex_white == rids.default_texture_white
                &&& !effect.use_fxaa
                &&& effect.glow_levels@ == Seq::new(3, |i: int| Scalar { bits: 0x3F80_0000 })
                &&& effect.glow_intensity.bits == 0x3F4C_CCCD
                &&& effect.glow_strength.bits == 0x3F80_0000
                &&& effect.glow_mix.bits == 0x3D4C_CCCD
                &&& effect.glow_bloom.bits == 0
                &&& effect.glow_blend_mode == GlowMode::Add
                &&& effect.glow_hdr_bleed_threshold.bits == 0x3E4C_CCCD
                &&& effect.glow_hdr_bleed_scale.bits == 0x4000_0000
                &&& effect.glow_hdr_luminance_cap.bits == 0x4140_0000
                &&& effect.glow_map_strength.bits == 0x3F4C_CCCD
                &&& effect.glow_map is None
                &&& effect.exposure.bits == 0x3F80_0000
                &&& effect.white.bits == 0x4000_0000
                &&& effect.tonemap_type == ToneMapperType::Reinhard
            },
    {
        let downsample = match BlurDownsample::init(shaders.downsample, &rids) {
            Ok(stage) => stage,
            Err(e) => {
                return Err(e);
            },
        };
        let upsample = match BlurUpsample::init(shaders.upsample, &rids) {
            Ok(stage) => stage,
            Err(e) => {
                return Err(e);
            },
        };
        let tonemapper = match ToneMapper::init(shaders.tonemapper, &rids) {
            Ok(stage) => stage,
            Err(e) => {
                return Err(e);
            },
        };
        let copy = match TexCopy::init(shaders.copy, &rids) {
            Ok(stage) => stage,
            Err(e) => {
                return Err(e);
            },
        };
        let mut glow_levels: Vec<Scalar> = Vec::new();
        glow_levels.push(Scalar::one());
        glow_levels.push(Scalar::one());
        glow_levels.push(Scalar::one());
        assert(glow_levels@ =~= Seq::new(3, |i: int| Scalar { bits: 0x3F80_0000 }));
        Ok(
            PostEffectToneMap {
                downsample,
                upsample,
                tonemapper,
                copy,
                global_rids_singleton: rids,
                use_fxaa: false,
                glow_levels,
                glow_intensity: Scalar::from_bits(0x3F4C_CCCD),
                glow_strength: Scalar::one(),
                glow_mix: Scalar::from_bits(0x3D4C_CCCD),
                glow_bloom: Scalar::zero(),
                glow_blend_mode: GlowMode::Add,
                glow_hdr_bleed_threshold: Scalar::from_bits(0x3E4C_CCCD),
                glow_hdr_bleed_scale: Scalar::from_bits(0x4000_0000),
                glow_hdr_luminance_cap: Scalar::from_bits(0x4140_0000),
                glow_map_strength: Scalar::from_bits(0x3F4C_CCCD),
                glow_map: None,
                exposure: Scalar::one(),
                white: Scalar::from_bits(0x4000_0000),
                tonemap_type: ToneMapperType::Reinhard,
            },
        )
    }

    /// Whether the effect acts in the callback of the given kind: only in the
    /// one after the transparent pass.
    pub fn handles_callback(effect_callback_type: i32) -> (handled: bool)
        ensures
            handled == (effect_callback_type == 4),
    {
        effect_callback_type == post_transparent_ord()
    }

    /// Whether the effect acts on a frame with the given number of views:
    /// only on one with a single view.
    pub fn handles_view_count(view_count: u32) -> (handled: bool)
        ensures
            handled == (view_count == 1),
    {
        view_count == SUPPORTED_VIEW_COUNT
    }

    /// The texture that the caller has to look up on the device to find the
    /// glow map of the frame, if there is one.
    pub fn glow_map_lookup(&self) -> (texture: Option<Handle>)
        ensures
            texture == self.glow_map_texture(),
    {
        match self.glow_map {
            Some(texture) => if texture.is_valid() {
                Some(texture)
            } else {
                None
            },
            None => None,
        }
    }

    /// The indices of the first and of the last active glow level: the
    /// number of levels and -1 where none is active.
    pub fn active_glow_range(&self) -> (range: (i32, i32))
        requires
            self.glow_levels@.len() <= 0x7fff_ffff,
        ensures
            is_min_active(self.glow_levels@, range.0 as int),
            is_max_active(self.glow_levels@, range.1 as int),
    {
        let n: usize = self.glow_levels.len();
        let mut max_glow_index: i32 = -1;
        let mut min_glow_level: i32 = n as i32;
        let mut i: usize = 0;
        while i < n
            invariant
                n == self.glow_levels@.len(),
                n <= 0x7fff_ffff,
                i <= n,
                -1 <= max_glow_index < i,
                max_glow_index >= 0 ==> self.glow_levels@[max_glow_index as int].exceeds_glow_threshold(),
                forall|k: int|
                    max_glow_index < k < i ==> !(#[trigger] self.glow_levels@[k]).exceeds_glow_threshold(),
                min_glow_level == n || 0 <= min_glow_level < i,
                min_glow_level < n ==> self.glow_levels@[min_glow_level as int].exceeds_glow_threshold(),
                forall|k: int|
                    0 <= k < i && k < min_glow_level ==> !(#[trigger] self.glow_levels@[k]).exceeds_glow_threshold(),
            decreases n - i,
        {
            if self.glow_levels[i].is_active_level() {
                let index: i32 = i as i32;
                if max_glow_index < index {
                    max_glow_index = index;
                }
                if index < min_glow_level {
                    min_glow_level = index;
                }
            }
            i = i + 1;
        }
        (min_glow_level, max_glow_index)
    }

    /// Plans the frame. The effect acts only in the callback after the
    /// transparent pass and only on a frame with one view; in any other case
    /// there is no plan and nothing is drawn. `glow_map` is the device texture
    /// of the glow map, or the invalid handle where there is none.
    pub fn render_callback(
        &self,
        effect_callback_type: i32,
        view_count: u32,
        width: u32,
        height: u32,
        glow_map: Handle,
    ) -> (planned: Option<FramePlan>)
        requires
            self.wf(),
        ensures
            planned is Some <==> effect_callback_type == 4 && view_count == 1,
            planned matches Some(plan) ==> {
                &&& plan.fine_chain == chain_request(width, height)
                &&& plan.coarse_chain == chain_request(width / 2, height / 2)
                &&& is_min_active(self.glow_levels@, plan.min_glow_level as int)
                &&& is_max_active(self.glow_levels@, plan.max_glow_index as int)
                &&& plan.passes@ == self.frame_passes(plan.max_glow_index as int, glow_map)
            },
    {
        if !PostEffectToneMap::handles_callback(effect_callback_type) {
            return None;
        }
        if !PostEffectToneMap::handles_view_count(view_count) {
            return None;
        }
        let fine_chain = scratch_chain(width, height);
        assert(width >> 1 == width / 2) by (bit_vector);
        assert(height >> 1 == height / 2) by (bit_vector);
        let coarse_chain = scratch_chain(width >> 1, height >> 1);
        let (min_glow_level, max_glow_index) = self.active_glow_range();
        let shaping = GlowShaping {
            luminance_multiplier: Scalar::from_bits(0x4000_0000),
            strength: self.glow_strength,
            luminance_cap: self.glow_hdr_luminance_cap,
            exposure: self.exposure,
            bloom: self.glow_bloom,
            hdr_bleed_threshold: self.glow_hdr_bleed_threshold,
            hdr_bleed_scale: self.glow_hdr_bleed_scale,
        };
        let ghost m = max_glow_index as int;
        let ghost levels = self.glow_levels@;
        let mut passes: Vec<Pass> = Vec::new();
        // Down the coarse chain.
        passes.push(
            Pass::Downsample {
                source: TextureRef::Color,
                dest: TextureRef::Coarse(1),
                size: SizeRef::Frame,
                first_pass: true,
                shaping,
            },
        );
        let mut i: i32 = 1;
        while i < max_glow_index + 1
            invariant
                1 <= i,
                -1 <= max_glow_index < 0x7fff_ffff,
                m == max_glow_index,
                i <= downsample_count(m),
                shaping == self.shaping(),
                passes@.len() == i,
                forall|k: int| 0 <= k < i ==> #[trigger] passes@[k] == downsample_pass(k, shaping),
            decreases max_glow_index + 1 - i,
        {
            let level: u32 = i as u32;
            passes.push(
                Pass::Downsample {
                    source: TextureRef::Coarse(level),
                    dest: TextureRef::Coarse(level + 1),
                    size: SizeRef::Coarse(level),
                    first_pass: false,
                    shaping,
                },
            );
            i = i + 1;
        }
        assert(passes@ =~= downsample_passes(m, self.shaping()));
        // Up the fine chain.
        let glow_intensity = match self.glow_blend_mode {
            GlowMode::Mix => self.glow_mix,
            _ => self.glow_intensity,
        };
        if max_glow_index <= 0 {
            passes.push(
                Pass::Upsample {
                    source: TextureRef::Black,
                    dest: TextureRef::Fine(2),
                    blend: TextureRef::Coarse(1),
                    source_size: SizeRef::Fine(2),
                    dest_size: SizeRef::Fine(2),
                    level: self.glow_levels[0],
                    base_strength: Scalar::zero(),
                },
            );
            assert(passes@ =~= downsample_passes(m, self.shaping()) + upsample_passes(levels, m));
        } else {
            let ghost down = passes@;
            let mut i: i32 = max_glow_index - 1;
            while i >= 0
                invariant
                    -1 <= i < max_glow_index,
                    1 <= max_glow_index < levels.len(),
                    levels.len() <= 0x7fff_ffff,
                    levels == self.glow_levels@,
                    m == max_glow_index,
                    passes@.len() == down.len() + (m - 1 - i),
                    forall|k: int| 0 <= k < down.len() ==> #[trigger] passes@[k] == down[k],
                    forall|k: int|
                        down.len() <= k < passes@.len() ==> #[trigger] passes@[k] == upsample_pass(
                            levels,
                            m,
                            k - down.len(),
                        ),
                decreases i + 1,
            {
                let first = i == max_glow_index - 1;
                let level_index: usize = i as usize;
                let level: u32 = i as u32;
                passes.push(
                    Pass::Upsample {
                        source: if first {
                            TextureRef::Coarse(level + 2)
                        } else {
                            TextureRef::Fine(level + 3)
                        },
                        dest: TextureRef::Fine(level + 2),
                        blend: TextureRef::Coarse(level + 1),
                        source_size: SizeRef::Fine(level + 3),
                        dest_size: SizeRef::Fine(level + 2),
                        level: self.glow_levels[level_index],
                        base_strength: if first {
                            self.glow_levels[level_index + 1]
                        } else {
                            Scalar::one()
                        },
                    },
                );
                i = i - 1;
            }
            assert(passes@ =~= down + upsample_passes(levels, m));
        }
        // The scene, and the tone mapping.
        passes.push(Pass::Copy { source: TextureRef::Color, dest: TextureRef::Fine(0) });
        passes.push(
            Pass::ToneMap {
                pass: ToneMapPass {
                    source: TextureRef::Fine(0),
                    dest: TextureRef::Color,
                    size: SizeRef::Frame,
                    glow: TextureRef::Fine(2),
                    glow_size: SizeRef::Fine(2),
                    use_glow_map: glow_map.is_valid(),
                    glow_map_tex: glow_map,
                    glow_intensity,
                    glow_map_strength: self.glow_map_strength,
                    exposure: self.exposure,
                    white: self.white,
                    use_fxaa: self.use_fxaa,
                    tonemap_type: self.tonemap_type,
                    glow_mode: self.glow_blend_mode,
                },
            },
        );
        assert(passes@ =~= self.frame_passes(m, glow_map));
        Some(FramePlan { fine_chain, coarse_chain, min_glow_level, max_glow_index, passes })
    }
}

impl ToneMapPass {
    /// The settings of the tone-mapping draw, once the device has told the
    /// handle of the glow texture and the reciprocals of its extents.
    pub fn settings(&self, glow_tex: Handle, glow_pixel_size: PixelSize) -> (settings:
        ToneMapSettings)
        ensures
            settings == (ToneMapSettings {
                glow_pixel_size: glow_pixel_size,
                glow_tex: glow_tex,
                use_glow_map: self.use_glow_map,
                glow_map_tex: self.glow_map_tex,
                glow_intensity: self.glow_intensity,
                glow_map_strength: self.glow_map_strength,
                exposure: self.exposure,
                white: self.white,
                use_fxaa: self.use_fxaa,
                tonemap_type: self.tonemap_type,
                glow_mode: self.glow_mode,
            }),
    {
        ToneMapSettings {
            glow_pixel_size,
            glow_tex,
            use_glow_map: self.use_glow_map,
            glow_map_tex: self.glow_map_tex,
            glow_intensity: self.glow_intensity,
            glow_map_strength: self.glow_map_strength,
            exposure: self.exposure,
            white: self.white,
            use_fxaa: self.use_fxaa,
            tonemap_type: self.tonemap_type,
            glow_mode: self.glow_mode,
        }
    }
}

/// A sequence of levels has one last active level: two indices that both
/// qualify are the same.
pub proof fn lemma_max_active_is_unique(levels: Seq<Scalar>, a: int, b: int)
    requires
        is_max_active(levels, a),
        is_max_active(levels, b),
    ensures
        a == b,
{
    if a < b {
        assert(!levels[b].exceeds_glow_threshold());
    } else if b < a {
        assert(!levels[a].exceeds_glow_threshold());
    }
}

/// A sequence of levels has one first active level: two indices that both
/// qualify are the same.
pub proof fn lemma_min_active_is_unique(levels: Seq<Scalar>, a: int, b: int)
    requires
        is_min_active(levels, a),
        is_min_active(levels, b),
    ensures
        a == b,
{
    if a < b {
        assert(!levels[a].exceeds_glow_threshold());
    } else if b < a {
        assert(!levels[b].exceeds_glow_threshold());
    }
}

/// The first active level is not above the last one, unless no level is
/// active.
pub proof fn lemma_active_range_is_ordered(levels: Seq<Scalar>, min: int, max: int)
    requires
        is_min_active(levels, min),
        is_max_active(levels, max),
    ensures
        max >= 0 ==> min <= max,
        max == -1 <==> min == levels.len(),
{
    if max >= 0 && min > max {
        assert(!levels[max].exceeds_glow_threshold());
    }
    if max == -1 && min < levels.len() {
        assert(!levels[min].exceeds_glow_threshold());
    }
}

/// Where no level is active, or only the first, a frame has four draws: one
/// down, from the colour buffer; one up, from the black placeholder; the copy;
/// and the tone mapping.
pub proof fn lemma_idle_frame(effect: PostEffectToneMap, m: int, glow_map: Handle)
    requires
        m <= 0,
    ensures
        effect.frame_passes(m, glow_map) == seq![
            downsample_pass(0, effect.shaping()),
            idle_upsample_pass(effect.glow_levels@),
            seed_copy_pass(),
            effect.tone_map_pass(glow_map),
        ],
        downsample_passes(m, effect.shaping()).len() == 1,
        upsample_passes(effect.glow_levels@, m).len() == 1,
{
    assert(effect.frame_passes(m, glow_map) =~= seq![
        downsample_pass(0, effect.shaping()),
        idle_upsample_pass(effect.glow_levels@),
        seed_copy_pass(),
        effect.tone_map_pass(glow_map),
    ]);
}

/// Where the last active level has the index `m >= 1`, a frame has `m + 1`
/// draws down, into the levels 1 to `m + 1` of the coarse chain, then `m`
/// draws up, for the levels `m - 1` down to 0, then the copy and the tone
/// mapping.
pub proof fn lemma_active_frame(effect: PostEffectToneMap, m: int, glow_map: Handle)
    requires
        m >= 1,
    ensures
        downsample_passes(m, effect.shaping()).len() == m + 1,
        upsample_passes(effect.glow_levels@, m).len() == m,
        effect.frame_passes(m, glow_map).len() == 2 * m + 3,
        forall|k: int|
            0 <= k <= m ==> #[trigger] effect.frame_passes(m, glow_map)[k] == downsample_pass(
                k,
                effect.shaping(),
            ),
        forall|k: int|
            0 <= k < m ==> #[trigger] effect.frame_passes(m, glow_map)[m + 1 + k] == upsample_pass(
                effect.glow_levels@,
                m,
                k,
            ),
        effect.frame_passes(m, glow_map)[2 * m + 1] == seed_copy_pass(),
        effect.frame_passes(m, glow_map)[2 * m + 2] == effect.tone_map_pass(glow_map),
{
}

} // verus!
