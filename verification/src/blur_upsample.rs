//! The stage that upsamples the glow built so far and blends one level of
//! the downsampled chain into it.

use vstd::prelude::*;
use crate::draw::copy_constants;
use crate::draw::DrawCall;
use crate::draw::SetupError;
use crate::draw::Target;
use crate::draw::UniformBinding;
use crate::draw::FULL_SCREEN_VERTEX_COUNT;
use crate::handle::Handle;
use crate::push_constants::is_memory_layout;
use crate::push_constants::BlurUpsamplePushConstants;
use crate::registry::GlobalRidsSingleton;
use crate::renderer::after_setup;
use crate::renderer::fresh_renderer;
use crate::renderer::setup_step;
use crate::renderer::Renderer;
use crate::scalar::PixelSize;
use crate::scalar::Scalar;

verus! {

/// Where the shader of the stage is found.
pub const UPSAMPLE_SHADER_PATH: &'static str = "uid://d20ptrfi77euk";

/// The upsampling stage. Its one specialization constant says whether the
/// level of the draw is active; the shader leaves the input of an inactive
/// level unread.
#[derive(Debug)]
pub struct BlurUpsample {
    pub renderer: Renderer,
    pub scs: Vec<bool>,
    pub ubo: BlurUpsamplePushConstants,
    pub sampler: Handle,
}

/// The block of an upsampling draw: the parameters of the draw, and the
/// padding words as they were.
pub open spec fn upsample_block(
    before: BlurUpsamplePushConstants,
    source_pixel_size: PixelSize,
    dest_pixel_size: PixelSize,
    half_level: Scalar,
    base_strength: Scalar,
) -> BlurUpsamplePushConstants {
    BlurUpsamplePushConstants {
        dest_pixel_size_x: dest_pixel_size.x,
        dest_pixel_size_y: dest_pixel_size.y,
        source_pixel_size_x: source_pixel_size.x,
        source_pixel_size_y: source_pixel_size.y,
        glow_level: half_level,
        glow_strength: base_strength,
        pad1: before.pad1,
        pad2: before.pad2,
    }
}

/// The two textures of an upsampling draw, each alone in a uniform set of its
/// own and read through the same sampler.
pub open spec fn upsample_uniforms(
    sampler: Handle,
    source: Handle,
    blend: Handle,
) -> Seq<UniformBinding> {
    seq![
        UniformBinding { set: 0, binding: 0, sampler: sampler, texture: source },
        UniformBinding { set: 1, binding: 0, sampler: sampler, texture: blend },
    ]
}

impl BlurUpsample {
    /// The stage for the compiled shader, with its constant cleared and its
    /// block zeroed, reading through the sampler that stays at the finest mip
    /// level.
    pub fn init(shader: Handle, rids: &GlobalRidsSingleton) -> (made: Result<
        BlurUpsample,
        SetupError,
    >)
        ensures
            shader.valid() ==> made is Ok,
            !shader.valid() ==> made is Err && made->Err_0 == SetupError::ShaderMissing,
            made matches Ok(stage) ==> {
                &&& stage.renderer@ == fresh_renderer(shader)
                &&& stage.scs@ == seq![false]
                &&& stage.ubo.words() == Seq::new(8, |i: int| 0u32)
                &&& stage.sampler == rids.default_sampler
            },
    {
        match Renderer::from_shader_file(shader) {
            Ok(renderer) => {
                let mut scs: Vec<bool> = Vec::new();
                scs.push(false);
                assert(scs@ =~= seq![false]);
                Ok(
                    BlurUpsample {
                        renderer,
                        scs,
                        ubo: BlurUpsamplePushConstants::zeroed(),
                        sampler: rids.default_sampler,
                    },
                )
            },
            Err(e) => Err(e),
        }
    }

    /// One upsampling draw into the target, which is the framebuffer of the
    /// destination texture. The pixel sizes hold the reciprocals of the
    /// extents of the source and of the destination; `half_level` is the
    /// weight that the shader gives the level, half of `level`.
    pub fn exec(
        &mut self,
        source_rd_texture: Handle,
        blend_texture: Handle,
        target: Target,
        source_pixel_size: PixelSize,
        dest_pixel_size: PixelSize,
        level: Scalar,
        half_level: Scalar,
        base_strength: Scalar,
    ) -> (call: DrawCall)
        ensures
            final(self).scs@ == seq![level.exceeds_glow_threshold()],
            call.constants@ == seq![level.exceeds_glow_threshold()],
            call.step == setup_step(
                old(self).renderer@,
                target,
                seq![level.exceeds_glow_threshold()],
            ),
            final(self).renderer@ == after_setup(
                old(self).renderer@,
                target,
                seq![level.exceeds_glow_threshold()],
                !target.shared,
            ),
            final(self).ubo == upsample_block(
                old(self).ubo,
                source_pixel_size,
                dest_pixel_size,
                half_level,
                base_strength,
            ),
            final(self).sampler == old(self).sampler,
            call.shader == old(self).renderer.shader,
            call.framebuffer == target.framebuffer,
            call.framebuffer_format == target.format,
            is_memory_layout(call.push_constants@, final(self).ubo.words()),
            call.push_constants@.len() == 32,
            call.uniforms@ == upsample_uniforms(
                old(self).sampler,
                source_rd_texture,
                blend_texture,
            ),
            call.set_count == 2,
            call.vertex_count == 3,
            call.instance_count == 1,
    {
        let mut scs: Vec<bool> = Vec::new();
        scs.push(level.is_active_level());
        assert(scs@ =~= seq![level.exceeds_glow_threshold()]);
        self.scs = scs;
        let step = self.renderer.setup_pipeline_texure(target, &self.scs);
        self.ubo.source_pixel_size_x = source_pixel_size.x;
        self.ubo.source_pixel_size_y = source_pixel_size.y;
        self.ubo.dest_pixel_size_x = dest_pixel_size.x;
        self.ubo.dest_pixel_size_y = dest_pixel_size.y;
        self.ubo.glow_level = half_level;
        self.ubo.glow_strength = base_strength;
        let mut uniforms: Vec<UniformBinding> = Vec::new();
        uniforms.push(
            UniformBinding { set: 0, binding: 0, sampler: self.sampler, texture: source_rd_texture },
        );
        uniforms.push(
            UniformBinding { set: 1, binding: 0, sampler: self.sampler, texture: blend_texture },
        );
        assert(uniforms@ =~= upsample_uniforms(
            old(self).sampler,
            source_rd_texture,
            blend_texture,
        ));
        DrawCall {
            step,
            shader: self.renderer.shader,
            framebuffer: self.renderer.framebuffer,
            framebuffer_format: self.renderer.framebuffer_format,
            constants: copy_constants(&self.scs),
            push_constants: self.ubo.serialize(),
            uniforms,
            set_count: 2,
            vertex_count: FULL_SCREEN_VERTEX_COUNT,
            instance_count: 1,
        }
    }
}

} // verus!
