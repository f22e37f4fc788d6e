//! The samplers and placeholder textures that every stage shares: what they
//! are, and the one place that holds them from first use to shutdown.

use vstd::prelude::*;
use crate::draw::SetupError;
use crate::handle::Handle;
use crate::scalar::Scalar;

verus! {

/// The name under which the shared resources are registered with the host.
pub const SINGLETON_NAME: &'static str = "GlobalRidsSingleton";

/// The edge length of a placeholder texture, in texels.
pub const PLACEHOLDER_EXTENT: u32 = 1;

/// How a sampler filters between texels or between mip levels.
#[derive(Clone, Copy, PartialEq, Eq, Debug)]
pub enum SamplerFilter {
    Nearest,
    Linear,
}

/// What a sampler returns outside the unit square.
#[derive(Clone, Copy, PartialEq, Eq, Debug)]
pub enum SamplerRepeatMode {
    ClampToEdge,
    ClampToBorder,
}

/// The border colour of a sampler that clamps to its border.
#[derive(Clone, Copy, PartialEq, Eq, Debug)]
pub enum SamplerBorderColor {
    FloatTransparentBlack,
}

/// The settings of a sampler. A field that is `None` is left as the device
/// has it by default.
#[derive(Clone, Copy, PartialEq, Eq, Debug)]
pub struct SamplerRequest {
    pub mag_filter: SamplerFilter,
    pub min_filter: SamplerFilter,
    pub mip_filter: Option<SamplerFilter>,
    pub repeat_u: SamplerRepeatMode,
    pub repeat_v: SamplerRepeatMode,
    pub border_color: Option<SamplerBorderColor>,
    pub max_lod: Option<Scalar>,
}

/// The colour that fills a placeholder texture.
#[derive(Clone, Copy, PartialEq, Eq, Debug)]
pub enum PlaceholderColor {
    White,
    Black,
}

/// A texel of four 8-bit channels: red, green, blue and alpha.
#[derive(Clone, Copy, PartialEq, Eq, Structural, Debug)]
pub struct Rgba8 {
    pub r: u8,
    pub g: u8,
    pub b: u8,
    pub a: u8,
}

/// An RGBA8 image of one texel, without mipmaps.
#[derive(Clone, Copy, PartialEq, Eq, Debug)]
pub struct PlaceholderRequest {
    pub width: u32,
    pub height: u32,
    pub mipmaps: bool,
    pub color: PlaceholderColor,
    pub texel: Rgba8,
}

/// The texel of a placeholder: opaque white, or opaque black.
pub open spec fn placeholder_texel(color: PlaceholderColor) -> Rgba8 {
    match color {
        PlaceholderColor::White => Rgba8 { r: 255, g: 255, b: 255, a: 255 },
        PlaceholderColor::Black => Rgba8 { r: 0, g: 0, b: 0, a: 255 },
    }
}

/// The sampler of the downsampling stage: linear, and transparent black
/// beyond the border of the image.
pub open spec fn glow_downsample_sampler_request() -> SamplerRequest {
    SamplerRequest {
        mag_filter: SamplerFilter::Linear,
        min_filter: SamplerFilter::Linear,
        mip_filter: None,
        repeat_u: SamplerRepeatMode::ClampToBorder,
        repeat_v: SamplerRepeatMode::ClampToBorder,
        border_color: Some(SamplerBorderColor::FloatTransparentBlack),
        max_lod: None,
    }
}

/// The sampler of the other stages: linear, clamped to the edge, and reading
/// the finest mip level only.
pub open spec fn default_sampler_request() -> SamplerRequest {
    SamplerRequest {
        mag_filter: SamplerFilter::Linear,
        min_filter: SamplerFilter::Linear,
        mip_filter: None,
        repeat_u: SamplerRepeatMode::ClampToEdge,
        repeat_v: SamplerRepeatMode::ClampToEdge,
        border_color: None,
        max_lod: Some(Scalar { bits: 0 }),
    }
}

/// The sampler that also filters linearly between mip levels.
pub open spec fn default_sampler_mipmaps_request() -> SamplerRequest {
    SamplerRequest {
        mag_filter: SamplerFilter::Linear,
        min_filter: SamplerFilter::Linear,
        mip_filter: Some(SamplerFilter::Linear),
        repeat_u: SamplerRepeatMode::ClampToEdge,
        repeat_v: SamplerRepeatMode::ClampToEdge,
        border_color: None,
        max_lod: None,
    }
}

/// The placeholder texture of the given colour: one texel of that colour.
pub open spec fn placeholder_request(color: PlaceholderColor) -> PlaceholderRequest {
    PlaceholderRequest {
        width: 1,
        height: 1,
        mipmaps: false,
        color: color,
        texel: placeholder_texel(color),
    }
}

/// The handles that are freed when the shared resources go: the two textures
/// on the rendering server, the three samplers on the device.
pub struct ReleasePlan {
    pub server: Vec<Handle>,
    pub device: Vec<Handle>,
}

/// The shared resources. The two device textures are views of the two server
/// textures and go with them.
#[derive(Clone, Copy, PartialEq, Eq, Structural, Debug)]
pub struct GlobalRidsSingleton {
    pub glow_downsample_sampler: Handle,
    pub default_sampler: Handle,
    pub default_sampler_mipmaps: Handle,
    pub default_texture_white: Handle,
    pub default_texture_black: Handle,
    pub default_texture_white_rs: Handle,
    pub default_texture_black_rs: Handle,
}

impl GlobalRidsSingleton {
    /// Whether the device created every one of the resources.
    pub open spec fn complete(self) -> bool {
        &&& self.glow_downsample_sampler.valid()
        &&& self.default_sampler.valid()
        &&& self.default_sampler_mipmaps.valid()
        &&& self.default_texture_white.valid()
        &&& self.default_texture_black.valid()
        &&& self.default_texture_white_rs.valid()
        &&& self.default_texture_black_rs.valid()
    }

    /// The handles to free on the rendering server.
    pub open spec fn server_handles(self) -> Seq<Handle> {
        seq![self.default_texture_white_rs, self.default_texture_black_rs]
    }

    /// The handles to free on the device.
    pub open spec fn device_handles(self) -> Seq<Handle> {
        seq![self.glow_downsample_sampler, self.default_sampler, self.default_sampler_mipmaps]
    }

    /// The settings of the sampler of the downsampling stage.
    pub fn glow_downsample_sampler_state() -> (request: SamplerRequest)
        ensures
            request == glow_downsample_sampler_request(),
    {
        SamplerRequest {
            mag_filter: SamplerFilter::Linear,
            min_filter: SamplerFilter::Linear,
            mip_filter: None,
            repeat_u: SamplerRepeatMode::ClampToBorder,
            repeat_v: SamplerRepeatMode::ClampToBorder,
            border_color: Some(SamplerBorderColor::FloatTransparentBlack),
            max_lod: None,
        }
    }

    /// The settings of the sampler that reads the finest mip level.
    pub fn default_sampler_state() -> (request: SamplerRequest)
        ensures
            request == default_sampler_request(),
    {
        SamplerRequest {
            mag_filter: SamplerFilter::Linear,
            min_filter: SamplerFilter::Linear,
            mip_filter: None,
            repeat_u: SamplerRepeatMode::ClampToEdge,
            repeat_v: SamplerRepeatMode::ClampToEdge,
            border_color: None,
            max_lod: Some(Scalar::zero()),
        }
    }

    /// The settings of the sampler that filters between mip levels.
    pub fn default_sampler_mipmaps_state() -> (request: SamplerRequest)
        ensures
            request == default_sampler_mipmaps_request(),
    {
        SamplerRequest {
            mag_filter: SamplerFilter::Linear,
            min_filter: SamplerFilter::Linear,
            mip_filter: Some(SamplerFilter::Linear),
            repeat_u: SamplerRepeatMode::ClampToEdge,
            repeat_v: SamplerRepeatMode::ClampToEdge,
            border_color: None,
            max_lod: None,
        }
    }

    /// The image of a placeholder texture.
    pub fn placeholder_image(color: PlaceholderColor) -> (request: PlaceholderRequest)
        ensures
            request == placeholder_request(color),
    {
        let texel = match color {
            PlaceholderColor::White => Rgba8 { r: 255, g: 255, b: 255, a: 255 },
            PlaceholderColor::Black => Rgba8 { r: 0, g: 0, b: 0, a: 255 },
        };
        PlaceholderRequest {
            width: PLACEHOLDER_EXTENT,
            height: PLACEHOLDER_EXTENT,
            mipmaps: false,
            color,
            texel,
        }
    }

    /// Gathers the resources once the device has created them. There is no
    /// set of resources with one missing.
    pub fn init(
        glow_downsample_sampler: Handle,
        default_sampler: Handle,
        default_sampler_mipmaps: Handle,
        default_texture_white_rs: Handle,
        default_texture_white: Handle,
        default_texture_black_rs: Handle,
        default_texture_black: Handle,
    ) -> (made: Result<GlobalRidsSingleton, SetupError>)
        ensures
            ({
                let all = GlobalRidsSingleton {
                    glow_downsample_sampler,
                    default_sampler,
                    default_sampler_mipmaps,
                    default_texture_white,
                    default_texture_black,
                    default_texture_white_rs,
                    default_texture_black_rs,
                };
                made == if all.complete() {
                    Ok::<GlobalRidsSingleton, SetupError>(all)
                } else {
                    Err::<GlobalRidsSingleton, SetupError>(SetupError::ResourceCreationFailed)
                }
            }),
    {
        if glow_downsample_sampler.is_valid() && default_sampler.is_valid()
            && default_sampler_mipmaps.is_valid() && default_texture_white.is_valid()
            && default_texture_black.is_valid() && default_texture_white_rs.is_valid()
            && default_texture_black_rs.is_valid() {
            Ok(
                GlobalRidsSingleton {
                    glow_downsample_sampler,
                    default_sampler,
                    default_sampler_mipmaps,
                    default_texture_white,
                    default_texture_black,
                    default_texture_white_rs,
                    default_texture_black_rs,
                },
            )
        } else {
            Err(SetupError::ResourceCreationFailed)
        }
    }

    /// The handles to free when the resources go, each of them once.
    pub fn release(&self) -> (plan: ReleasePlan)
        ensures
            plan.server@ == self.server_handles(),
            plan.device@ == self.device_handles(),
    {
        let mut server: Vec<Handle> = Vec::new();
        server.push(self.default_texture_white_rs);
        server.push(self.default_texture_black_rs);
        let mut device: Vec<Handle> = Vec::new();
        device.push(self.glow_downsample_sampler);
        device.push(self.default_sampler);
        device.push(self.default_sampler_mipmaps);
        assert(server@ =~= self.server_handles());
        assert(device@ =~= self.device_handles());
        ReleasePlan { server, device }
    }
}

/// A stage of the host's start-up and shutdown.
#[derive(Clone, Copy, PartialEq, Eq, Structural, Debug)]
pub enum InitLevel {
    Core,
    Servers,
    Scene,
    Editor,
}

/// The place that holds the shared resources: empty until they are first
/// registered, and empty again after shutdown.
#[derive(Clone, Copy, Debug)]
pub struct Registry {
    pub instance: Option<GlobalRidsSingleton>,
}

/// The registry after `fresh` was offered to it: it keeps what it had, and
/// takes `fresh` only where it had nothing.
pub open spec fn registered(
    held: Option<GlobalRidsSingleton>,
    fresh: GlobalRidsSingleton,
) -> GlobalRidsSingleton {
    match held {
        Some(existing) => existing,
        None => fresh,
    }
}

/// The handles that shutdown frees on the rendering server.
pub open spec fn shutdown_server_handles(held: Option<GlobalRidsSingleton>) -> Seq<Handle> {
    match held {
        Some(existing) => existing.server_handles(),
        None => Seq::<Handle>::empty(),
    }
}

/// The handles that shutdown frees on the device.
pub open spec fn shutdown_device_handles(held: Option<GlobalRidsSingleton>) -> Seq<Handle> {
    match held {
        Some(existing) => existing.device_handles(),
        None => Seq::<Handle>::empty(),
    }
}

impl Registry {
    /// A registry that holds nothing.
    pub fn new() -> (registry: Registry)
        ensures
            registry.instance is None,
    {
        Registry { instance: None }
    }

    /// The resources, if they are registered.
    pub fn existing(&self) -> (held: Option<GlobalRidsSingleton>)
        ensures
            held == self.instance,
    {
        self.instance
    }

    /// Registers `fresh` unless resources are registered already, and hands
    /// back the registered ones.
    pub fn register(&mut self, fresh: GlobalRidsSingleton) -> (held: GlobalRidsSingleton)
        ensures
            held == registered(old(self).instance, fresh),
            final(self).instance == Some(held),
    {
        match self.instance {
            Some(existing) => existing,
            None => {
                self.instance = Some(fresh);
                fresh
            },
        }
    }

    /// Empties the registry and says which handles have to be freed.
    pub fn release(&mut self) -> (plan: ReleasePlan)
        ensures
            plan.server@ == shutdown_server_handles(old(self).instance),
            plan.device@ == shutdown_device_handles(old(self).instance),
            final(self).instance is None,
    {
        let plan = match self.instance {
            Some(existing) => existing.release(),
            None => ReleasePlan { server: Vec::new(), device: Vec::new() },
        };
        self.instance = None;
        plan
    }

    /// Shutdown of one stage of the host: the resources go with the scene
    /// stage, and nothing happens at any other.
    pub fn on_level_deinit(&mut self, level: InitLevel) -> (plan: ReleasePlan)
        ensures
            level == InitLevel::Scene ==> {
                &&& plan.server@ == shutdown_server_handles(old(self).instance)
                &&& plan.device@ == shutdown_device_handles(old(self).instance)
                &&& final(self).instance is None
            },
            level != InitLevel::Scene ==> {
                &&& plan.server@.len() == 0
                &&& plan.device@.len() == 0
                &&& final(self).instance == old(self).instance
            },
    {
        match level {
            InitLevel::Scene => self.release(),
            _ => ReleasePlan { server: Vec::new(), device: Vec::new() },
        }
    }
}

/// Whoever asks first decides what is registered: a second registration hands
/// back the resources of the first, handle for handle, and changes nothing.
pub proof fn lemma_acquire_is_idempotent(
    held: Option<GlobalRidsSingleton>,
    first: GlobalRidsSingleton,
    second: GlobalRidsSingleton,
)
    ensures
        registered(Some(registered(held, first)), second) == registered(held, first),
        held is None ==> registered(Some(registered(held, first)), second) == first,
{
}

/// Shutdown frees each of the five owned handles once, and a second shutdown
/// frees nothing.
pub proof fn lemma_release_frees_once(resources: GlobalRidsSingleton)
    ensures
        shutdown_server_handles(Some(resources)).len() + shutdown_device_handles(
            Some(resources),
        ).len() == 5,
        shutdown_server_handles(Some(resources)) == seq![
            resources.default_texture_white_rs,
            resources.default_texture_black_rs,
        ],
        shutdown_device_handles(Some(resources)) == seq![
            resources.glow_downsample_sampler,
            resources.default_sampler,
            resources.default_sampler_mipmaps,
        ],
        shutdown_server_handles(None::<GlobalRidsSingleton>).len() == 0,
        shutdown_device_handles(None::<GlobalRidsSingleton>).len() == 0,
{
}

} // verus!
