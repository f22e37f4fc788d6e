//! The stage that copies one texture into another.

use vstd::prelude::*;
use crate::draw::copy_constants;
use crate::draw::DrawCall;
use crate::draw::SetupError;
use crate::draw::Target;
use crate::draw::UniformBinding;
use crate::draw::FULL_SCREEN_VERTEX_COUNT;
use crate::handle::Handle;
use crate::registry::GlobalRidsSingleton;
use crate::renderer::after_setup;
use crate::renderer::fresh_renderer;
use crate::renderer::setup_step;
use crate::renderer::Renderer;

verus! {

/// Where the shader of the stage is found.
pub const TEX_COPY_SHADER_PATH: &'static str = "uid://bky734u2m1ik4";

/// The copy stage: its renderer, its (empty) list of specialization constants
/// and the sampler through which it reads the source.
#[derive(Debug)]
pub struct TexCopy {
    pub renderer: Renderer,
    pub scs: Vec<bool>,
    pub sampler: Handle,
}

impl TexCopy {
    /// The stage for the compiled shader, reading through the sampler that
    /// stays at the finest mip level.
    pub fn init(shader: Handle, rids: &GlobalRidsSingleton) -> (made: Result<TexCopy, SetupError>)
        ensures
            shader.valid() ==> made is Ok,
            !shader.valid() ==> made is Err && made->Err_0 == SetupError::ShaderMissing,
            made matches Ok(stage) ==> {
                &&& stage.renderer@ == fresh_renderer(shader)
                &&& stage.scs@.len() == 0
                &&& stage.sampler == rids.default_sampler
            },
    {
        match Renderer::from_shader_file(shader) {
            Ok(renderer) => Ok(TexCopy { renderer, scs: Vec::new(), sampler: rids.default_sampler }),
            Err(e) => Err(e),
        }
    }

    /// One copy of `source_rd_texture` into the target, which is the
    /// framebuffer of the destination texture.
    pub fn exec(&mut self, source_rd_texture: Handle, target: Target) -> (call: DrawCall)
        ensures
            call.step == setup_step(old(self).renderer@, target, old(self).scs@),
            final(self).renderer@ == after_setup(
                old(self).renderer@,
                target,
                old(self).scs@,
                !target.shared,
            ),
            final(self).scs@ == old(self).scs@,
            final(self).sampler == old(self).sampler,
            call.shader == old(self).renderer.shader,
            call.framebuffer == target.framebuffer,
            call.framebuffer_format == target.format,
            call.constants@ == old(self).scs@,
            call.push_constants@.len() == 0,
            call.uniforms@ == seq![
                UniformBinding {
                    set: 0,
                    binding: 0,
                    sampler: old(self).sampler,
                    texture: source_rd_texture,
                },
            ],
            call.set_count == 1,
            call.vertex_count == 3,
            call.instance_count == 1,
    {
        let step = self.renderer.setup_pipeline_texure(target, &self.scs);
        let mut uniforms: Vec<UniformBinding> = Vec::new();
        uniforms.push(
            UniformBinding { set: 0, binding: 0, sampler: self.sampler, texture: source_rd_texture },
        );
        assert(uniforms@ =~= seq![
            UniformBinding {
                set: 0,
                binding: 0,
                sampler: old(self).sampler,
                texture: source_rd_texture,
            },
        ]);
        DrawCall {
            step,
            shader: self.renderer.shader,
            framebuffer: self.renderer.framebuffer,
            framebuffer_format: self.renderer.framebuffer_format,
            constants: copy_constants(&self.scs),
            push_constants: Vec::new(),
            uniforms,
            set_count: 1,
            vertex_count: FULL_SCREEN_VERTEX_COUNT,
            instance_count: 1,
        }
    }
}

} // verus!
