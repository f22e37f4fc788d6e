//! A shader program with the pipeline derived from it and the framebuffer it
//! draws into.

use vstd::prelude::*;
use crate::draw::copy_constants;
use crate::draw::same_constants;
use crate::draw::PipelineStep;
use crate::draw::SetupError;
use crate::draw::Target;
use crate::handle::Handle;

verus! {

/// A shader, its pipeline and its target. The pipeline is built for one
/// framebuffer, one framebuffer format and one list of specialization
/// constants, which the renderer remembers beside it.
#[derive(Debug)]
pub struct Renderer {
    pub shader: Handle,
    pub pipeline: Handle,
    pub framebuffer: Handle,
    pub framebuffer_format: i64,
    pub constants: Vec<bool>,
    pub owns_framebuffer: bool,
}

/// A renderer as a plain value.
pub struct RendererView {
    pub shader: Handle,
    pub pipeline: Handle,
    pub framebuffer: Handle,
    pub framebuffer_format: i64,
    pub constants: Seq<bool>,
    pub owns_framebuffer: bool,
}

impl View for Renderer {
    type V = RendererView;

    open spec fn view(&self) -> RendererView {
        RendererView {
            shader: self.shader,
            pipeline: self.pipeline,
            framebuffer: self.framebuffer,
            framebuffer_format: self.framebuffer_format,
            constants: self.constants@,
            owns_framebuffer: self.owns_framebuffer,
        }
    }
}

/// The handle that refers to nothing.
pub open spec fn no_handle() -> Handle {
    Handle { id: 0 }
}

/// A renderer that was just made for a shader: it has no pipeline and no
/// target.
pub open spec fn fresh_renderer(shader: Handle) -> RendererView {
    RendererView {
        shader: shader,
        pipeline: no_handle(),
        framebuffer: no_handle(),
        framebuffer_format: 0,
        constants: Seq::<bool>::empty(),
        owns_framebuffer: false,
    }
}

/// Whether the pipeline that the renderer holds can serve a draw into the
/// target with the given constants: it is a live pipeline, and it was built
/// for this framebuffer, this format and these constants.
pub open spec fn pipeline_serves(r: RendererView, target: Target, constants: Seq<bool>) -> bool {
    &&& r.pipeline.valid()
    &&& target.pipeline_alive
    &&& r.framebuffer == target.framebuffer
    &&& r.framebuffer_format == target.format
    &&& r.constants == constants
}

/// What is done to the pipeline before a draw into the target: nothing where
/// the pipeline serves; else a new one is built, after the old one is freed if
/// it is still alive.
pub open spec fn setup_step(r: RendererView, target: Target, constants: Seq<bool>) -> PipelineStep {
    if pipeline_serves(r, target, constants) {
        PipelineStep { rebuild: false, release: no_handle() }
    } else {
        PipelineStep {
            rebuild: true,
            release: if r.pipeline.valid() && target.pipeline_alive {
                r.pipeline
            } else {
                no_handle()
            },
        }
    }
}

/// The renderer after it was set up for the target. Where a new pipeline is
/// due the renderer holds none until one is installed.
pub open spec fn after_setup(
    r: RendererView,
    target: Target,
    constants: Seq<bool>,
    owns_framebuffer: bool,
) -> RendererView {
    RendererView {
        shader: r.shader,
        pipeline: if pipeline_serves(r, target, constants) {
            r.pipeline
        } else {
            no_handle()
        },
        framebuffer: target.framebuffer,
        framebuffer_format: target.format,
        constants: constants,
        owns_framebuffer: owns_framebuffer,
    }
}

/// The renderer after the given pipeline was installed in it.
pub open spec fn with_pipeline(r: RendererView, pipeline: Handle) -> RendererView {
    RendererView {
        shader: r.shader,
        pipeline: pipeline,
        framebuffer: r.framebuffer,
        framebuffer_format: r.framebuffer_format,
        constants: r.constants,
        owns_framebuffer: r.owns_framebuffer,
    }
}

/// The handles that are freed when the renderer is torn down: the framebuffer
/// if the renderer made it and the device still knows it, then the shader.
pub open spec fn teardown_releases(r: RendererView, framebuffer_alive: bool) -> Seq<Handle> {
    let framebuffer = if r.owns_framebuffer && r.framebuffer.valid() && framebuffer_alive {
        seq![r.framebuffer]
    } else {
        Seq::<Handle>::empty()
    };
    let shader = if r.shader.valid() {
        seq![r.shader]
    } else {
        Seq::<Handle>::empty()
    };
    framebuffer + shader
}

/// The renderer after teardown: it holds no handle any more.
pub open spec fn torn_down(r: RendererView) -> RendererView {
    RendererView {
        shader: no_handle(),
        pipeline: no_handle(),
        framebuffer: no_handle(),
        framebuffer_format: r.framebuffer_format,
        constants: r.constants,
        owns_framebuffer: false,
    }
}

impl Renderer {
    /// A renderer for a compiled shader, with no pipeline and no target yet.
    /// There is none for a shader that the device did not create.
    pub fn from_shader_file(shader: Handle) -> (made: Result<Renderer, SetupError>)
        ensures
            shader.valid() ==> made is Ok,
            !shader.valid() ==> made == Err::<Renderer, SetupError>(SetupError::ShaderMissing),
            made matches Ok(r) ==> r@ == fresh_renderer(shader),
    {
        if !shader.is_valid() {
            return Err(SetupError::ShaderMissing);
        }
        let renderer = Renderer {
            shader,
            pipeline: Handle::invalid(),
            framebuffer: Handle::invalid(),
            framebuffer_format: 0,
            constants: Vec::new(),
            owns_framebuffer: false,
        };
        assert(renderer@.constants =~= Seq::<bool>::empty());
        Ok(renderer)
    }

    fn setup(&mut self, target: Target, scs: &Vec<bool>, owns_framebuffer: bool) -> (step:
        PipelineStep)
        ensures
            step == setup_step(old(self)@, target, scs@),
            final(self)@ == after_setup(old(self)@, target, scs@, owns_framebuffer),
    {
        let serves = self.pipeline.is_valid() && target.pipeline_alive && self.framebuffer.id
            == target.framebuffer.id && self.framebuffer_format == target.format && same_constants(
            &self.constants,
            scs,
        );
        let step = if serves {
            PipelineStep { rebuild: false, release: Handle::invalid() }
        } else {
            let release = if self.pipeline.is_valid() && target.pipeline_alive {
                self.pipeline
            } else {
                Handle::invalid()
            };
            self.pipeline = Handle::invalid();
            PipelineStep { rebuild: true, release }
        };
        self.framebuffer = target.framebuffer;
        self.framebuffer_format = target.format;
        self.constants = copy_constants(scs);
        self.owns_framebuffer = owns_framebuffer;
        step
    }

    /// Readies the renderer for a draw into a texture, through the framebuffer
    /// that was made for that texture alone. The renderer answers for that
    /// framebuffer from now on, unless a shared cache handed it out.
    pub fn setup_pipeline_texure(&mut self, target: Target, scs: &Vec<bool>) -> (step: PipelineStep)
        ensures
            step == setup_step(old(self)@, target, scs@),
            final(self)@ == after_setup(old(self)@, target, scs@, !target.shared),
    {
        self.setup(target, scs, !target.shared)
    }

    /// Readies the renderer for a draw into a framebuffer that belongs to the
    /// caller.
    pub fn setup_pipeline_framebuffer(&mut self, target: Target, scs: &Vec<bool>) -> (step:
        PipelineStep)
        ensures
            step == setup_step(old(self)@, target, scs@),
            final(self)@ == after_setup(old(self)@, target, scs@, false),
    {
        self.setup(target, scs, false)
    }

    /// Takes the pipeline that was built after a setup asked for one.
    pub fn install_pipeline(&mut self, pipeline: Handle)
        ensures
            final(self)@ == with_pipeline(old(self)@, pipeline),
    {
        self.pipeline = pipeline;
    }

    /// Gives up every handle and says which of them have to be freed. A second
    /// teardown frees nothing.
    pub fn teardown(&mut self, framebuffer_alive: bool) -> (released: Vec<Handle>)
        ensures
            released@ == teardown_releases(old(self)@, framebuffer_alive),
            final(self)@ == torn_down(old(self)@),
    {
        let mut released: Vec<Handle> = Vec::new();
        if self.owns_framebuffer && self.framebuffer.is_valid() && framebuffer_alive {
            released.push(self.framebuffer);
        }
        if self.shader.is_valid() {
            released.push(self.shader);
        }
        assert(released@ =~= teardown_releases(old(self)@, framebuffer_alive));
        self.shader = Handle::invalid();
        self.pipeline = Handle::invalid();
        self.framebuffer = Handle::invalid();
        self.owns_framebuffer = false;
        released
    }
}

/// A draw into the target of the draw before it, with the same constants,
/// builds no pipeline and keeps the one that is installed.
pub proof fn lemma_unchanged_target_keeps_pipeline(
    r: RendererView,
    target: Target,
    constants: Seq<bool>,
    owns_framebuffer: bool,
    built: Handle,
)
    requires
        built.valid(),
    ensures
        ({
            let first = setup_step(r, target, constants);
            let ready = after_setup(r, target, constants, owns_framebuffer);
            let drawn = if first.rebuild {
                with_pipeline(ready, built)
            } else {
                ready
            };
            let again = Target {
                framebuffer: target.framebuffer,
                format: target.format,
                pipeline_alive: true,
                shared: target.shared,
            };
            &&& drawn.pipeline.valid()
            &&& !setup_step(drawn, again, constants).rebuild
            &&& !setup_step(drawn, again, constants).release.valid()
            &&& after_setup(drawn, again, constants, owns_framebuffer).pipeline == drawn.pipeline
            &&& after_setup(drawn, again, constants, owns_framebuffer) == drawn
        }),
{
}

/// A draw into another framebuffer than the one that the live pipeline was
/// built for frees that pipeline and builds one; the draw after it, into the
/// same new framebuffer, builds none.
pub proof fn lemma_changed_target_rebuilds_once(
    r: RendererView,
    target: Target,
    constants: Seq<bool>,
    owns_framebuffer: bool,
    built: Handle,
)
    requires
        r.pipeline.valid(),
        target.pipeline_alive,
        built.valid(),
        r.framebuffer != target.framebuffer,
    ensures
        ({
            let first = setup_step(r, target, constants);
            let drawn = with_pipeline(after_setup(r, target, constants, owns_framebuffer), built);
            &&& first.rebuild
            &&& first.release == r.pipeline
            &&& !setup_step(drawn, target, constants).rebuild
            &&& !setup_step(drawn, target, constants).release.valid()
            &&& after_setup(drawn, target, constants, owns_framebuffer).pipeline == built
        }),
{
}

/// A pipeline is handed out to be freed at most once: after the setup that
/// frees it the renderer no longer holds it.
pub proof fn lemma_released_pipeline_is_dropped(
    r: RendererView,
    target: Target,
    constants: Seq<bool>,
    owns_framebuffer: bool,
)
    ensures
        setup_step(r, target, constants).release.valid() ==> {
            &&& setup_step(r, target, constants).release == r.pipeline
            &&& !after_setup(r, target, constants, owns_framebuffer).pipeline.valid()
        },
        !setup_step(r, target, constants).rebuild ==> !setup_step(
            r,
            target,
            constants,
        ).release.valid(),
{
}

/// A renderer that was torn down frees nothing when it is torn down again.
pub proof fn lemma_teardown_is_idempotent(r: RendererView, framebuffer_alive: bool)
    ensures
        teardown_releases(torn_down(r), framebuffer_alive) == Seq::<Handle>::empty(),
        torn_down(torn_down(r)) == torn_down(r),
{
    assert(teardown_releases(torn_down(r), framebuffer_alive) =~= Seq::<Handle>::empty());
}

/// Teardown frees no framebuffer that a shared cache handed out, and none
/// that belongs to the caller: after a setup for such a target it frees the
/// shader and nothing else.
pub proof fn lemma_teardown_spares_foreign_framebuffers(
    r: RendererView,
    target: Target,
    constants: Seq<bool>,
    framebuffer_alive: bool,
)
    ensures
        teardown_releases(after_setup(r, target, constants, false), framebuffer_alive) == if r.shader.valid() {
            seq![r.shader]
        } else {
            Seq::<Handle>::empty()
        },
        target.shared ==> teardown_releases(
            after_setup(r, target, constants, !target.shared),
            framebuffer_alive,
        ) == teardown_releases(after_setup(r, target, constants, false), framebuffer_alive),
{
    let left = teardown_releases(after_setup(r, target, constants, false), framebuffer_alive);
    if r.shader.valid() {
        assert(left =~= seq![r.shader]);
    } else {
        assert(left =~= Seq::<Handle>::empty());
    }
}

} // verus!
