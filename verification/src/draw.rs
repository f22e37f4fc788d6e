//! What one draw of a stage consists of, as plain values for the caller to
//! hand to the rendering device.

use vstd::prelude::*;
use crate::handle::Handle;

verus! {

/// The number of vertices of the triangle that covers the screen.
pub const FULL_SCREEN_VERTEX_COUNT: u32 = 3;

/// Why a stage or the shared resources could not be set up.
#[derive(Clone, Copy, PartialEq, Eq, Structural, Debug)]
pub enum SetupError {
    /// The shader program could not be loaded or compiled.
    ShaderMissing,
    /// The device did not create one of the shared samplers or textures.
    ResourceCreationFailed,
}

/// Where a draw goes, as the caller found it on the device: the framebuffer,
/// its format, whether the device still knows the pipeline that the stage
/// holds, and whether the framebuffer was handed out by a cache that the host
/// shares. A shared framebuffer is the cache's to free, whoever draws into it.
#[derive(Clone, Copy, PartialEq, Eq, Structural, Debug)]
pub struct Target {
    pub framebuffer: Handle,
    pub format: i64,
    pub pipeline_alive: bool,
    pub shared: bool,
}

/// What has to happen to the pipeline before the draw: whether a new one is
/// built, and which old one is freed first (the invalid handle for none).
#[derive(Clone, Copy, PartialEq, Eq, Structural, Debug)]
pub struct PipelineStep {
    pub rebuild: bool,
    pub release: Handle,
}

/// A texture with its sampler, bound at one binding of one uniform set.
#[derive(Clone, Copy, PartialEq, Eq, Structural, Debug)]
pub struct UniformBinding {
    pub set: u32,
    pub binding: u32,
    pub sampler: Handle,
    pub texture: Handle,
}

/// One draw of the full-screen triangle. The uniform sets of the draw are
/// those with the indices below `set_count`.
#[derive(Debug)]
pub struct DrawCall {
    pub step: PipelineStep,
    pub shader: Handle,
    pub framebuffer: Handle,
    pub framebuffer_format: i64,
    pub constants: Vec<bool>,
    pub push_constants: Vec<u8>,
    pub uniforms: Vec<UniformBinding>,
    pub set_count: u32,
    pub vertex_count: u32,
    pub instance_count: u32,
}

/// One command of the recording of a draw.
#[derive(Clone, Copy, PartialEq, Eq, Structural, Debug)]
pub enum DrawCommand {
    BindPipeline,
    BindUniformSet { set: u32 },
    SetPushConstants,
    Draw { vertex_count: u32, instance_count: u32 },
}

/// The commands of a draw in the order in which they are recorded: the
/// pipeline is bound first, then the uniform sets in the order of their
/// indices, then the push constants are set if the draw has any, and the draw
/// itself comes last.
pub open spec fn draw_commands(
    set_count: u32,
    has_push_constants: bool,
    vertex_count: u32,
    instance_count: u32,
) -> Seq<DrawCommand> {
    seq![DrawCommand::BindPipeline] + Seq::new(
        set_count as nat,
        |set: int| DrawCommand::BindUniformSet { set: set as u32 },
    ) + (if has_push_constants {
        seq![DrawCommand::SetPushConstants]
    } else {
        Seq::<DrawCommand>::empty()
    }) + seq![DrawCommand::Draw { vertex_count: vertex_count, instance_count: instance_count }]
}

impl DrawCall {
    /// The commands that record the draw, in their order.
    pub fn commands(&self) -> (commands: Vec<DrawCommand>)
        ensures
            commands@ == draw_commands(
                self.set_count,
                self.push_constants@.len() > 0,
                self.vertex_count,
                self.instance_count,
            ),
    {
        let mut commands: Vec<DrawCommand> = Vec::new();
        commands.push(DrawCommand::BindPipeline);
        let mut set: u32 = 0;
        while set < self.set_count
            invariant
                set <= self.set_count,
                commands@.len() == 1 + set,
                commands@[0] == DrawCommand::BindPipeline,
                forall|k: int|
                    1 <= k < commands@.len() ==> #[trigger] commands@[k] == (
                    DrawCommand::BindUniformSet { set: (k - 1) as u32 }),
            decreases self.set_count - set,
        {
            commands.push(DrawCommand::BindUniformSet { set });
            set = set + 1;
        }
        let ghost bound = commands@;
        assert(bound =~= seq![DrawCommand::BindPipeline] + Seq::new(
            self.set_count as nat,
            |set: int| DrawCommand::BindUniformSet { set: set as u32 },
        ));
        if self.push_constants.len() > 0 {
            commands.push(DrawCommand::SetPushConstants);
        }
        commands.push(
            DrawCommand::Draw {
                vertex_count: self.vertex_count,
                instance_count: self.instance_count,
            },
        );
        assert(commands@ =~= draw_commands(
            self.set_count,
            self.push_constants@.len() > 0,
            self.vertex_count,
            self.instance_count,
        ));
        commands
    }

    /// The bindings of one uniform set of the draw, in their order.
    pub fn uniforms_of_set(&self, set: u32) -> (bindings: Vec<UniformBinding>)
        ensures
            bindings@ == self.uniforms@.filter(|binding: UniformBinding| binding.set == set),
    {
        let mut bindings: Vec<UniformBinding> = Vec::new();
        let ghost wanted = |binding: UniformBinding| binding.set == set;
        let mut i: usize = 0;
        while i < self.uniforms.len()
            invariant
                i <= self.uniforms.len(),
                wanted == |binding: UniformBinding| binding.set == set,
                bindings@ == self.uniforms@.subrange(0, i as int).filter(wanted),
            decreases self.uniforms.len() - i,
        {
            proof {
                let before = self.uniforms@.subrange(0, i as int);
                let next = self.uniforms@.subrange(0, i as int + 1);
                assert(next.drop_last() =~= before);
                reveal(Seq::filter);
            }
            if self.uniforms[i].set == set {
                bindings.push(self.uniforms[i]);
            }
            i = i + 1;
        }
        assert(self.uniforms@.subrange(0, self.uniforms@.len() as int) =~= self.uniforms@);
        bindings
    }
}

/// Copies a list of specialization constants.
pub fn copy_constants(constants: &Vec<bool>) -> (copy: Vec<bool>)
    ensures
        copy@ == constants@,
{
    let mut copy: Vec<bool> = Vec::new();
    let mut i: usize = 0;
    while i < constants.len()
        invariant
            i <= constants.len(),
            copy@ == constants@.subrange(0, i as int),
        decreases constants.len() - i,
    {
        copy.push(constants[i]);
        i = i + 1;
        assert(copy@ =~= constants@.subrange(0, i as int));
    }
    assert(constants@.subrange(0, constants@.len() as int) =~= constants@);
    copy
}

/// Whether two lists of specialization constants are the same.
pub fn same_constants(a: &Vec<bool>, b: &Vec<bool>) -> (same: bool)
    ensures
        same == (a@ == b@),
{
    if a.len() != b.len() {
        return false;
    }
    let mut i: usize = 0;
    while i < a.len()
        invariant
            i <= a.len(),
            a.len() == b.len(),
            forall|k: int| 0 <= k < i ==> a@[k] == b@[k],
        decreases a.len() - i,
    {
        if a[i] != b[i] {
            return false;
        }
        i = i + 1;
    }
    assert(a@ =~= b@);
    true
}

} // verus!
