//! The stage that blurs a texture into one of half its size.

use vstd::prelude::*;
use crate::draw::copy_constants;
use crate::draw::DrawCall;
use crate::draw::SetupError;
use crate::draw::Target;
use crate::draw::UniformBinding;
use crate::draw::FULL_SCREEN_VERTEX_COUNT;
use crate::handle::Handle;
use crate::push_constants::is_memory_layout;
use crate::push_constants::BlurDownsamplePushConstants;
use crate::registry::GlobalRidsSingleton;
use crate::renderer::after_setup;
use crate::renderer::fresh_renderer;
use crate::renderer::setup_step;
use crate::renderer::Renderer;
use crate::scalar::PixelSize;
use crate::scalar::Scalar;

verus! {

/// Where the shader of the stage is found.
pub const DOWNSAMPLER_SHADER_PATH: &'static str = "uid://dn7kvwu3pc8ht";

/// The downsampling stage. Its one specialization constant says whether the
/// draw is the first of the chain, the only one that applies the threshold and
/// the shaping of the glow.
#[derive(Debug)]
pub struct BlurDownsample {
    pub renderer: Renderer,
    pub scs: Vec<bool>,
    pub ubo: BlurDownsamplePushConstants,
    pub sampler: Handle,
}

/// The block of a downsampling draw: the parameters of the draw, and the
/// padding words as they were.
pub open spec fn downsample_block(
    before: BlurDownsamplePushConstants,
    luminance_multiplier: Scalar,
    source_pixel_size: PixelSize,
    strength: Scalar,
    luminance_cap: Scalar,
    exposure: Scalar,
    bloom: Scalar,
    hdr_bleed_threshold: Scalar,
    hdr_bleed_scale: Scalar,
) -> BlurDownsamplePushConstants {
    BlurDownsamplePushConstants {
        source_pixel_size_x: source_pixel_size.x,
        source_pixel_size_y: source_pixel_size.y,
        pad1: before.pad1,
        pad2: before.pad2,
        glow_strength: strength,
        glow_bloom: bloom,
        glow_hdr_threshold: hdr_bleed_threshold,
        glow_hdr_scale: hdr_bleed_scale,
        glow_exposure: exposure,
        glow_luminance_cap: luminance_cap,
        luminance_multiplier: luminance_multiplier,
        pad: before.pad,
    }
}

impl BlurDownsample {
    /// The stage for the compiled shader, with its constant cleared and its
    /// block zeroed, reading through the sampler that is transparent beyond
    /// the border.
    pub fn init(shader: Handle, rids: &GlobalRidsSingleton) -> (made: Result<
        BlurDownsample,
        SetupError,
    >)
        ensures
            shader.valid() ==> made is Ok,
            !shader.valid() ==> made is Err && made->Err_0 == SetupError::ShaderMissing,
            made matches Ok(stage) ==> {
                &&& stage.renderer@ == fresh_renderer(shader)
                &&& stage.scs@ == seq![false]
                &&& stage.ubo.words() == Seq::new(12, |i: int| 0u32)
                &&& stage.sampler == rids.glow_downsample_sampler
            },
    {
        match Renderer::from_shader_file(shader) {
            Ok(renderer) => {
                let mut scs: Vec<bool> = Vec::new();
                scs.push(false);
                assert(scs@ =~= seq![false]);
                Ok(
                    BlurDownsample {
                        renderer,
                        scs,
                        ubo: BlurDownsamplePushConstants::zeroed(),
                        sampler: rids.glow_downsample_sampler,
                    },
                )
            },
            Err(e) => Err(e),
        }
    }

    /// One downsampling draw of `source_rd_texture` into the target, which is
    /// the framebuffer of the destination texture. `source_pixel_size` holds
    /// the reciprocals of the extents of the source.
    pub fn exec(
        &mut self,
        source_rd_texture: Handle,
        target: Target,
        luminance_multiplier: Scalar,
        source_pixel_size: PixelSize,
        strength: Scalar,
        first_pass: bool,
        luminance_cap: Scalar,
        exposure: Scalar,
        bloom: Scalar,
        hdr_bleed_threshold: Scalar,
        hdr_bleed_scale: Scalar,
    ) -> (call: DrawCall)
        ensures
            final(self).scs@ == seq![first_pass],
            call.constants@ == seq![first_pass],
            call.step == setup_step(old(self).renderer@, target, seq![first_pass]),
            final(self).renderer@ == after_setup(
                old(self).renderer@,
                target,
                seq![first_pass],
                !target.shared,
            ),
            final(self).ubo == downsample_block(
                old(self).ubo,
                luminance_multiplier,
                source_pixel_size,
                strength,
                luminance_cap,
                exposure,
                bloom,
                hdr_bleed_threshold,
                hdr_bleed_scale,
            ),
            final(self).sampler == old(self).sampler,
            call.shader == old(self).renderer.shader,
            call.framebuffer == target.framebuffer,
            call.framebuffer_format == target.format,
            is_memory_layout(call.push_constants@, final(self).ubo.words()),
            call.push_constants@.len() == 48,
            call.uniforms@ == seq![
                UniformBinding {
                    set: 0,
                    binding: 0,
                    sampler: old(self).sampler,
                    texture: source_rd_texture,
                },
            ],
            call.set_count == 1,
            call.vertex_count == 3,
            call.instance_count == 1,
    {
        let mut scs: Vec<bool> = Vec::new();
        scs.push(first_pass);
        assert(scs@ =~= seq![first_pass]);
        self.scs = scs;
        let step = self.renderer.setup_pipeline_texure(target, &self.scs);
        self.ubo.source_pixel_size_x = source_pixel_size.x;
        self.ubo.source_pixel_size_y = source_pixel_size.y;
        self.ubo.glow_strength = strength;
        self.ubo.glow_bloom = bloom;
        self.ubo.glow_hdr_threshold = hdr_bleed_threshold;
        self.ubo.glow_hdr_scale = hdr_bleed_scale;
        self.ubo.glow_exposure = exposure;
        self.ubo.glow_luminance_cap = luminance_cap;
        self.ubo.luminance_multiplier = luminance_multiplier;
        let mut uniforms: Vec<UniformBinding> = Vec::new();
        uniforms.push(
            UniformBinding { set: 0, binding: 0, sampler: self.sampler, texture: source_rd_texture },
        );
        assert(uniforms@ =~= seq![
            UniformBinding {
                set: 0,
                binding: 0,
                sampler: old(self).sampler,
                texture: source_rd_texture,
            },
        ]);
        DrawCall {
            step,
            shader: self.renderer.shader,
            framebuffer: self.renderer.framebuffer,
            framebuffer_format: self.renderer.framebuffer_format,
            constants: copy_constants(&self.scs),
            push_constants: self.ubo.serialize(),
            uniforms,
            set_count: 1,
            vertex_count: FULL_SCREEN_VERTEX_COUNT,
            instance_count: 1,
        }
    }
}

} // verus!
