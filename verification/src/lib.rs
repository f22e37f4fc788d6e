//! Multi-level glow and tone mapping for a rendered frame: the sizing of the
//! scratch mip chains, the choice of active glow levels, the sequence of draws
//! of one frame, and the per-draw state of each stage.

pub mod blur_downsample;
pub mod blur_upsample;
pub mod draw;
pub mod effect;
pub mod handle;
pub mod mipmap;
pub mod push_constants;
pub mod registry;
pub mod renderer;
pub mod scalar;
pub mod tex_copy;
pub mod tone_mapper;
