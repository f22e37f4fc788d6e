use glow_post_effect::draw::SetupError;
use glow_post_effect::handle::Handle;
use glow_post_effect::registry::GlobalRidsSingleton;
use glow_post_effect::registry::InitLevel;
use glow_post_effect::registry::PlaceholderColor;
use glow_post_effect::registry::Registry;
use glow_post_effect::registry::Rgba8;
use glow_post_effect::registry::PLACEHOLDER_EXTENT;
use glow_post_effect::registry::SamplerBorderColor;
use glow_post_effect::registry::SamplerFilter;
use glow_post_effect::registry::SamplerRepeatMode;
use glow_post_effect::registry::SINGLETON_NAME;
use glow_post_effect::scalar::Scalar;

fn resources_from(base: u64) -> GlobalRidsSingleton {
    GlobalRidsSingleton::init(
        Handle::new(base + 1),
        Handle::new(base + 2),
        Handle::new(base + 3),
        Handle::new(base + 4),
        Handle::new(base + 5),
        Handle::new(base + 6),
        Handle::new(base + 7),
    )
    .unwrap()
}

#[test]
fn the_resources_keep_each_handle_in_its_place() {
    let resources = resources_from(100);
    assert_eq!(resources.glow_downsample_sampler, Handle::new(101));
    assert_eq!(resources.default_sampler, Handle::new(102));
    assert_eq!(resources.default_sampler_mipmaps, Handle::new(103));
    assert_eq!(resources.default_texture_white_rs, Handle::new(104));
    assert_eq!(resources.default_texture_white, Handle::new(105));
    assert_eq!(resources.default_texture_black_rs, Handle::new(106));
    assert_eq!(resources.default_texture_black, Handle::new(107));
    assert_eq!(SINGLETON_NAME, "GlobalRidsSingleton");
}

#[test]
fn one_missing_resource_fails_the_set() {
    for missing in 0..7 {
        let handle = |slot: u64| if slot == missing { Handle::invalid() } else { Handle::new(slot + 1) };
        let made = GlobalRidsSingleton::init(
            handle(0),
            handle(1),
            handle(2),
            handle(3),
            handle(4),
            handle(5),
            handle(6),
        );
        assert_eq!(made.unwrap_err(), SetupError::ResourceCreationFailed);
    }
}

#[test]
fn the_glow_sampler_is_linear_and_transparent_beyond_the_border() {
    let request = GlobalRidsSingleton::glow_downsample_sampler_state();
    assert_eq!(request.mag_filter, SamplerFilter::Linear);
    assert_eq!(request.min_filter, SamplerFilter::Linear);
    assert_eq!(request.mip_filter, None);
    assert_eq!(request.repeat_u, SamplerRepeatMode::ClampToBorder);
    assert_eq!(request.repeat_v, SamplerRepeatMode::ClampToBorder);
    assert_eq!(request.border_color, Some(SamplerBorderColor::FloatTransparentBlack));
    assert_eq!(request.max_lod, None);
}

#[test]
fn the_default_sampler_reads_the_finest_level() {
    let request = GlobalRidsSingleton::default_sampler_state();
    assert_eq!(request.mag_filter, SamplerFilter::Linear);
    assert_eq!(request.min_filter, SamplerFilter::Linear);
    assert_eq!(request.mip_filter, None);
    assert_eq!(request.repeat_u, SamplerRepeatMode::ClampToEdge);
    assert_eq!(request.repeat_v, SamplerRepeatMode::ClampToEdge);
    assert_eq!(request.border_color, None);
    assert_eq!(request.max_lod, Some(Scalar::from_bits(0.0f32.to_bits())));
}

#[test]
fn the_mipmap_sampler_filters_between_levels() {
    let request = GlobalRidsSingleton::default_sampler_mipmaps_state();
    assert_eq!(request.mag_filter, SamplerFilter::Linear);
    assert_eq!(request.min_filter, SamplerFilter::Linear);
    assert_eq!(request.mip_filter, Some(SamplerFilter::Linear));
    assert_eq!(request.repeat_u, SamplerRepeatMode::ClampToEdge);
    assert_eq!(request.repeat_v, SamplerRepeatMode::ClampToEdge);
    assert_eq!(request.border_color, None);
    assert_eq!(request.max_lod, None);
}

#[test]
fn a_placeholder_is_one_texel() {
    for color in [PlaceholderColor::White, PlaceholderColor::Black] {
        let request = GlobalRidsSingleton::placeholder_image(color);
        assert_eq!(request.width, 1);
        assert_eq!(request.height, 1);
        assert!(!request.mipmaps);
        assert_eq!(request.color, color);
    }
    assert_eq!(PLACEHOLDER_EXTENT, 1);
}

#[test]
fn the_placeholders_are_opaque_white_and_opaque_black() {
    let white = GlobalRidsSingleton::placeholder_image(PlaceholderColor::White);
    assert_eq!(white.texel, Rgba8 { r: 255, g: 255, b: 255, a: 255 });
    let black = GlobalRidsSingleton::placeholder_image(PlaceholderColor::Black);
    assert_eq!(black.texel, Rgba8 { r: 0, g: 0, b: 0, a: 255 });
}

#[test]
fn the_texels_are_the_colours_of_the_host() {
    for color in [PlaceholderColor::White, PlaceholderColor::Black] {
        let texel = GlobalRidsSingleton::placeholder_image(color).texel;
        let named = match color {
            PlaceholderColor::White => godot::builtin::Color::WHITE,
            PlaceholderColor::Black => godot::builtin::Color::BLACK,
        };
        assert_eq!(godot::builtin::Color::from_rgba8(texel.r, texel.g, texel.b, texel.a), named);
    }
}

#[test]
fn acquiring_twice_gives_the_same_resources() {
    let mut registry = Registry::new();
    assert_eq!(registry.existing(), None);
    let first = registry.register(resources_from(100));
    assert_eq!(first, resources_from(100));
    let second = registry.register(resources_from(200));
    assert_eq!(second, first);
    assert_eq!(second.default_sampler, Handle::new(102));
    assert_eq!(second.default_texture_white, Handle::new(105));
    assert_eq!(registry.existing(), Some(first));
}

#[test]
fn release_frees_each_owned_handle_once() {
    let mut registry = Registry::new();
    registry.register(resources_from(100));
    let plan = registry.release();
    assert_eq!(plan.server, vec![Handle::new(104), Handle::new(106)]);
    assert_eq!(plan.device, vec![Handle::new(101), Handle::new(102), Handle::new(103)]);
    assert_eq!(registry.existing(), None);
    let again = registry.release();
    assert!(again.server.is_empty());
    assert!(again.device.is_empty());
}

#[test]
fn the_resources_go_with_the_scene_level_only() {
    let mut registry = Registry::new();
    registry.register(resources_from(100));
    for level in [InitLevel::Core, InitLevel::Servers, InitLevel::Editor] {
        let plan = registry.on_level_deinit(level);
        assert!(plan.server.is_empty());
        assert!(plan.device.is_empty());
        assert_eq!(registry.existing(), Some(resources_from(100)));
    }
    let plan = registry.on_level_deinit(InitLevel::Scene);
    assert_eq!(plan.server, vec![Handle::new(104), Handle::new(106)]);
    assert_eq!(plan.device, vec![Handle::new(101), Handle::new(102), Handle::new(103)]);
    assert_eq!(registry.existing(), None);
    let plan = registry.on_level_deinit(InitLevel::Scene);
    assert!(plan.server.is_empty() && plan.device.is_empty());
}

#[test]
fn a_registry_can_be_filled_again_after_release() {
    let mut registry = Registry::new();
    registry.register(resources_from(100));
    registry.release();
    let held = registry.register(resources_from(200));
    assert_eq!(held, resources_from(200));
}
