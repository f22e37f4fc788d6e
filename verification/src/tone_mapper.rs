//! The stage that composes the glow with the scene and maps the result to
//! the displayable range.

use vstd::prelude::*;
use crate::draw::copy_constants;
use crate::draw::DrawCall;
use crate::draw::SetupError;
use crate::draw::Target;
use crate::draw::UniformBinding;
use crate::draw::FULL_SCREEN_VERTEX_COUNT;
use crate::handle::Handle;
use crate::push_constants::is_memory_layout;
use crate::push_constants::ToneMapperPushConstants;
use crate::registry::GlobalRidsSingleton;
use crate::renderer::after_setup;
use crate::renderer::fresh_renderer;
use crate::renderer::setup_step;
use crate::renderer::Renderer;
use crate::scalar::PixelSize;
use crate::scalar::Scalar;

verus! {

/// Where the shader of the stage is found.
pub const TONEMAPPER_SHADER_PATH: &'static str = "uid://dch7mum06agob";

/// The index of the specialization constant of the first tone-map operator.
pub const SC_TONEMAP_TYPE_INDEX: u8 = 2;

/// The index of the specialization constant of the first glow blend mode.
pub const SC_GLOW_MODE_INDEX: u8 = 9;

/// The index of the last specialization constant.
pub const SC_MAX: u8 = 11;

/// The curve that compresses the scene's range.
#[derive(Clone, Copy, PartialEq, Eq, Structural, Debug)]
pub enum ToneMapperType {
    Linear,
    Reinhard,
    Filmic,
    Aces,
    Agx,
    Gt,
    Lottes,
}

/// How the glow is combined with the scene.
#[derive(Clone, Copy, PartialEq, Eq, Structural, Debug)]
pub enum GlowMode {
    Add,
    Replace,
    Mix,
}

impl ToneMapperType {
    /// The position of the operator in the list of operators.
    pub open spec fn ordinal(self) -> int {
        match self {
            ToneMapperType::Linear => 0,
            ToneMapperType::Reinhard => 1,
            ToneMapperType::Filmic => 2,
            ToneMapperType::Aces => 3,
            ToneMapperType::Agx => 4,
            ToneMapperType::Gt => 5,
            ToneMapperType::Lottes => 6,
        }
    }

    /// The position of the operator in the list of operators.
    pub fn ord(&self) -> (n: usize)
        ensures
            n == self.ordinal(),
            n <= 6,
    {
        match self {
            ToneMapperType::Linear => 0,
            ToneMapperType::Reinhard => 1,
            ToneMapperType::Filmic => 2,
            ToneMapperType::Aces => 3,
            ToneMapperType::Agx => 4,
            ToneMapperType::Gt => 5,
            ToneMapperType::Lottes => 6,
        }
    }

    /// The operator at the given position, if there is one.
    pub fn from_ord(n: i64) -> (found: Option<ToneMapperType>)
        ensures
            found is Some <==> 0 <= n <= 6,
            found matches Some(t) ==> t.ordinal() == n,
    {
        if n == 0 {
            Some(ToneMapperType::Linear)
        } else if n == 1 {
            Some(ToneMapperType::Reinhard)
        } else if n == 2 {
            Some(ToneMapperType::Filmic)
        } else if n == 3 {
            Some(ToneMapperType::Aces)
        } else if n == 4 {
            Some(ToneMapperType::Agx)
        } else if n == 5 {
            Some(ToneMapperType::Gt)
        } else if n == 6 {
            Some(ToneMapperType::Lottes)
        } else {
            None
        }
    }
}

impl GlowMode {
    /// The position of the mode in the list of modes.
    pub open spec fn ordinal(self) -> int {
        match self {
            GlowMode::Add => 0,
            GlowMode::Replace => 1,
            GlowMode::Mix => 2,
        }
    }

    /// The position of the mode in the list of modes.
    pub fn ord(&self) -> (n: usize)
        ensures
            n == self.ordinal(),
            n <= 2,
    {
        match self {
            GlowMode::Add => 0,
            GlowMode::Replace => 1,
            GlowMode::Mix => 2,
        }
    }

    /// The mode at the given position, if there is one.
    pub fn from_ord(n: i64) -> (found: Option<GlowMode>)
        ensures
            found is Some <==> 0 <= n <= 2,
            found matches Some(m) ==> m.ordinal() == n,
    {
        if n == 0 {
            Some(GlowMode::Add)
        } else if n == 1 {
            Some(GlowMode::Replace)
        } else if n == 2 {
            Some(GlowMode::Mix)
        } else {
            None
        }
    }
}

/// What one tone-mapping draw is told. `glow_pixel_size` holds the
/// reciprocals of the extents of the glow texture.
#[derive(Clone, Copy, PartialEq, Eq, Structural, Debug)]
pub struct ToneMapSettings {
    pub glow_pixel_size: PixelSize,
    pub glow_tex: Handle,
    pub use_glow_map: bool,
    pub glow_map_tex: Handle,
    pub glow_intensity: Scalar,
    pub glow_map_strength: Scalar,
    pub exposure: Scalar,
    pub white: Scalar,
    pub use_fxaa: bool,
    pub tonemap_type: ToneMapperType,
    pub glow_mode: GlowMode,
}

/// The twelve specialization constants of a tone-mapping draw: whether a
/// glow map is used, whether FXAA runs, one constant per operator of which
/// only that of the chosen operator is set, and one per blend mode of which
/// only that of the chosen mode is set.
pub open spec fn tonemap_constants(
    use_glow_map: bool,
    use_fxaa: bool,
    tonemap_type: ToneMapperType,
    glow_mode: GlowMode,
) -> Seq<bool> {
    Seq::new(
        12,
        |i: int|
            (i == 0 && use_glow_map) || (i == 1 && use_fxaa) || i == SC_TONEMAP_TYPE_INDEX
                + tonemap_type.ordinal() || i == SC_GLOW_MODE_INDEX + glow_mode.ordinal(),
    )
}

/// The texture that the glow-map binding reads: the glow map where there is
/// one, and the white placeholder else.
pub open spec fn glow_map_or_white(glow_map_tex: Handle, white: Handle) -> Handle {
    if glow_map_tex.valid() {
        glow_map_tex
    } else {
        white
    }
}

/// The block of a tone-mapping draw.
pub open spec fn tonemap_block(
    dest_pixel_size: PixelSize,
    settings: ToneMapSettings,
) -> ToneMapperPushConstants {
    ToneMapperPushConstants {
        dest_pixel_size_x: dest_pixel_size.x,
        dest_pixel_size_y: dest_pixel_size.y,
        glow_pixel_size_x: settings.glow_pixel_size.x,
        glow_pixel_size_y: settings.glow_pixel_size.y,
        glow_intensity: settings.glow_intensity,
        glow_map_strength: settings.glow_map_strength,
        exposure: settings.exposure,
        white: settings.white,
    }
}

/// The three textures of a tone-mapping draw: the scene alone in the first
/// uniform set, the glow and the glow map in the second.
pub open spec fn tonemap_uniforms(
    sampler: Handle,
    sampler_mipmaps: Handle,
    source: Handle,
    glow: Handle,
    glow_map: Handle,
) -> Seq<UniformBinding> {
    seq![
        UniformBinding { set: 0, binding: 0, sampler: sampler, texture: source },
        UniformBinding { set: 1, binding: 0, sampler: sampler_mipmaps, texture: glow },
        UniformBinding { set: 1, binding: 1, sampler: sampler_mipmaps, texture: glow_map },
    ]
}

/// The tone-mapping stage.
#[derive(Debug)]
pub struct ToneMapper {
    pub renderer: Renderer,
    pub scs: Vec<bool>,
    pub ubo: ToneMapperPushConstants,
    pub sampler: Handle,
    pub sampler_mipmaps: Handle,
    pub default_tex_white: Handle,
}

/// Twelve cleared specialization constants.
fn cleared_constants() -> (scs: Vec<bool>)
    ensures
        scs@ == Seq::new(12, |i: int| false),
{
    let mut scs: Vec<bool> = Vec::new();
    let mut i: u8 = 0;
    while i <= SC_MAX
        invariant
            i <= SC_MAX + 1,
            scs@.len() == i,
            forall|k: int| 0 <= k < i ==> !scs@[k],
        decreases SC_MAX + 1 - i,
    {
        scs.push(false);
        i = i + 1;
    }
    assert(scs@ =~= Seq::new(12, |i: int| false));
    scs
}

impl ToneMapper {
    /// The stage for the compiled shader, with its constants cleared and its
    /// block zeroed.
    pub fn init(shader: Handle, rids: &GlobalRidsSingleton) -> (made: Result<
        ToneMapper,
        SetupError,
    >)
        ensures
            shader.valid() ==> made is Ok,
            !shader.valid() ==> made is Err && made->Err_0 == SetupError::ShaderMissing,
            made matches Ok(stage) ==> {
                &&& stage.renderer@ == fresh_renderer(shader)
                &&& stage.scs@ == Seq::new(12, |i: int| false)
                &&& stage.ubo.words() == Seq::new(8, |i: int| 0u32)
                &&& stage.sampler == rids.default_sampler
                &&& stage.sampler_mipmaps == rids.default_sampler_mipmaps
                &&& stage.default_tex_white == rids.default_texture_white
            },
    {
        match Renderer::from_shader_file(shader) {
            Ok(renderer) => Ok(
                ToneMapper {
                    renderer,
                    scs: cleared_constants(),
                    ubo: ToneMapperPushConstants::zeroed(),
                    sampler: rids.default_sampler,
                    sampler_mipmaps: rids.default_sampler_mipmaps,
                    default_tex_white: rids.default_texture_white,
                },
            ),
            Err(e) => Err(e),
        }
    }

    /// The specialization constants for the settings: every constant is
    /// cleared, then the two flags and the constants of the chosen operator
    /// and of the chosen mode are set.
    pub fn specialization_constants(settings: &ToneMapSettings) -> (scs: Vec<bool>)
        ensures
            scs@ == tonemap_constants(
                settings.use_glow_map,
                settings.use_fxaa,
                settings.tonemap_type,
                settings.glow_mode,
            ),
    {
        let mut scs = cleared_constants();
        scs.set(0, settings.use_glow_map);
        scs.set(1, settings.use_fxaa);
        let operator: usize = settings.tonemap_type.ord() + SC_TONEMAP_TYPE_INDEX as usize;
        scs.set(operator, true);
        let mode: usize = settings.glow_mode.ord() + SC_GLOW_MODE_INDEX as usize;
        scs.set(mode, true);
        assert(scs@ =~= tonemap_constants(
            settings.use_glow_map,
            settings.use_fxaa,
            settings.tonemap_type,
            settings.glow_mode,
        ));
        scs
    }

    /// One tone-mapping draw of `source_rd_texture` into the target, which is
    /// the output framebuffer and stays the caller's. `dest_pixel_size` holds
    /// the reciprocals of the extents of the output.
    pub fn exec(
        &mut self,
        source_rd_texture: Handle,
        target: Target,
        dest_pixel_size: PixelSize,
        settings: ToneMapSettings,
    ) -> (call: DrawCall)
        ensures
            ({
                let constants = tonemap_constants(
                    settings.use_glow_map,
                    settings.use_fxaa,
                    settings.tonemap_type,
                    settings.glow_mode,
                );
                &&& final(self).scs@ == constants
                &&& call.constants@ == constants
                &&& call.step == setup_step(old(self).renderer@, target, constants)
                &&& final(self).renderer@ == after_setup(
                    old(self).renderer@,
                    target,
                    constants,
                    false,
                )
            }),
            final(self).ubo == tonemap_block(dest_pixel_size, settings),
            final(self).sampler == old(self).sampler,
            final(self).sampler_mipmaps == old(self).sampler_mipmaps,
            final(self).default_tex_white == old(self).default_tex_white,
            call.shader == old(self).renderer.shader,
            call.framebuffer == target.framebuffer,
            call.framebuffer_format == target.format,
            is_memory_layout(call.push_constants@, final(self).ubo.words()),
            call.push_constants@.len() == 32,
            call.uniforms@ == tonemap_uniforms(
                old(self).sampler,
                old(self).sampler_mipmaps,
                source_rd_texture,
                settings.glow_tex,
                glow_map_or_white(settings.glow_map_tex, old(self).default_tex_white),
            ),
            call.set_count == 2,
            call.vertex_count == 3,
            call.instance_count == 1,
    {
        self.scs = ToneMapper::specialization_constants(&settings);
        let step = self.renderer.setup_pipeline_framebuffer(target, &self.scs);
        self.ubo.dest_pixel_size_x = dest_pixel_size.x;
        self.ubo.dest_pixel_size_y = dest_pixel_size.y;
        self.ubo.glow_pixel_size_x = settings.glow_pixel_size.x;
        self.ubo.glow_pixel_size_y = settings.glow_pixel_size.y;
        self.ubo.glow_intensity = settings.glow_intensity;
        self.ubo.glow_map_strength = settings.glow_map_strength;
        self.ubo.exposure = settings.exposure;
        self.ubo.white = settings.white;
        let glow_map = if settings.glow_map_tex.is_valid() {
            settings.glow_map_tex
        } else {
            self.default_tex_white
        };
        let mut uniforms: Vec<UniformBinding> = Vec::new();
        uniforms.push(
            UniformBinding { set: 0, binding: 0, sampler: self.sampler, texture: source_rd_texture },
        );
        uniforms.push(
            UniformBinding {
                set: 1,
                binding: 0,
                sampler: self.sampler_mipmaps,
                texture: settings.glow_tex,
            },
        );
        uniforms.push(
            UniformBinding { set: 1, binding: 1, sampler: self.sampler_mipmaps, texture: glow_map },
        );
        assert(uniforms@ =~= tonemap_uniforms(
            old(self).sampler,
            old(self).sampler_mipmaps,
            source_rd_texture,
            settings.glow_tex,
            glow_map_or_white(settings.glow_map_tex, old(self).default_tex_white),
        ));
        DrawCall {
            step,
            shader: self.renderer.shader,
            framebuffer: self.renderer.framebuffer,
            framebuffer_format: self.renderer.framebuffer_format,
            constants: copy_constants(&self.scs),
            push_constants: self.ubo.serialize(),
            uniforms,
            set_count: 2,
            vertex_count: FULL_SCREEN_VERTEX_COUNT,
            instance_count: 1,
        }
    }
}

/// Of the seven operator constants exactly one is set: that of the chosen
/// operator. The six others are clear.
pub proof fn lemma_one_operator_constant(
    use_glow_map: bool,
    use_fxaa: bool,
    tonemap_type: ToneMapperType,
    glow_mode: GlowMode,
)
    ensures
        2 <= 2 + tonemap_type.ordinal() <= 8,
        forall|i: int|
            2 <= i <= 8 ==> (#[trigger] tonemap_constants(
                use_glow_map,
                use_fxaa,
                tonemap_type,
                glow_mode,
            )[i] <==> i == 2 + tonemap_type.ordinal()),
{
}

/// Of the three blend-mode constants exactly one is set: that of the chosen
/// mode. The two others are clear.
pub proof fn lemma_one_mode_constant(
    use_glow_map: bool,
    use_fxaa: bool,
    tonemap_type: ToneMapperType,
    glow_mode: GlowMode,
)
    ensures
        9 <= 9 + glow_mode.ordinal() <= 11,
        forall|i: int|
            9 <= i <= 11 ==> (#[trigger] tonemap_constants(
                use_glow_map,
                use_fxaa,
                tonemap_type,
                glow_mode,
            )[i] <==> i == 9 + glow_mode.ordinal()),
{
}

/// Choosing another operator sets the constant of the new operator, clears
/// that of the old one, and changes no other constant.
pub proof fn lemma_operator_change(
    use_glow_map: bool,
    use_fxaa: bool,
    before: ToneMapperType,
    after: ToneMapperType,
    glow_mode: GlowMode,
)
    requires
        before != after,
    ensures
        ({
            let old_constants = tonemap_constants(use_glow_map, use_fxaa, before, glow_mode);
            let new_constants = tonemap_constants(use_glow_map, use_fxaa, after, glow_mode);
            &&& !old_constants[2 + after.ordinal()]
            &&& new_constants[2 + after.ordinal()]
            &&& old_constants[2 + before.ordinal()]
            &&& !new_constants[2 + before.ordinal()]
            &&& forall|i: int|
                0 <= i < 12 && i != 2 + before.ordinal() && i != 2 + after.ordinal()
                    ==> #[trigger] old_constants[i] == new_constants[i]
        }),
{
}

/// Choosing another blend mode sets the constant of the new mode, clears
/// that of the old one, and changes no other constant.
pub proof fn lemma_mode_change(
    use_glow_map: bool,
    use_fxaa: bool,
    tonemap_type: ToneMapperType,
    before: GlowMode,
    after: GlowMode,
)
    requires
        before != after,
    ensures
        ({
            let old_constants = tonemap_constants(use_glow_map, use_fxaa, tonemap_type, before);
            let new_constants = tonemap_constants(use_glow_map, use_fxaa, tonemap_type, after);
            &&& !old_constants[9 + after.ordinal()]
            &&& new_constants[9 + after.ordinal()]
            &&& old_constants[9 + before.ordinal()]
            &&& !new_constants[9 + before.ordinal()]
            &&& forall|i: int|
                0 <= i < 12 && i != 9 + before.ordinal() && i != 9 + after.ordinal()
                    ==> #[trigger] old_constants[i] == new_constants[i]
        }),
{
}

/// The glow-map binding never reads an invalid handle as long as the white
/// placeholder is valid: without a glow map it reads the placeholder.
pub proof fn lemma_glow_map_binding_is_valid(glow_map_tex: Handle, white: Handle)
    requires
        white.valid(),
    ensures
        glow_map_or_white(glow_map_tex, white).valid(),
        !glow_map_tex.valid() ==> glow_map_or_white(glow_map_tex, white) == white,
        glow_map_tex.valid() ==> glow_map_or_white(glow_map_tex, white) == glow_map_tex,
{
}

} // verus!
