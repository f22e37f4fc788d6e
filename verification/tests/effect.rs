use glow_post_effect::effect::ChainRequest;
use glow_post_effect::effect::GlowShaping;
use glow_post_effect::effect::Pass;
use glow_post_effect::effect::PostEffectToneMap;
use glow_post_effect::effect::SizeRef;
use glow_post_effect::effect::StageShaders;
use glow_post_effect::effect::TextureRef;
use glow_post_effect::effect::ToneMapPass;
use glow_post_effect::effect::RB_SCOPE_BUFFERS;
use glow_post_effect::effect::RB_TEX_BLUR_0;
use glow_post_effect::effect::RB_TEX_BLUR_1;
use glow_post_effect::draw::SetupError;
use glow_post_effect::handle::Handle;
use glow_post_effect::registry::GlobalRidsSingleton;
use glow_post_effect::scalar::PixelSize;
use glow_post_effect::scalar::Scalar;
use glow_post_effect::tone_mapper::GlowMode;
use glow_post_effect::tone_mapper::ToneMapperType;

fn f(value: f32) -> Scalar {
    Scalar::from_bits(value.to_bits())
}

fn default_effect() -> PostEffectToneMap {
    let rids = GlobalRidsSingleton {
        glow_downsample_sampler: Handle::new(1),
        default_sampler: Handle::new(2),
        default_sampler_mipmaps: Handle::new(3),
        default_texture_white: Handle::new(4),
        default_texture_black: Handle::new(5),
        default_texture_white_rs: Handle::new(6),
        default_texture_black_rs: Handle::new(7),
    };
    let shaders = StageShaders {
        copy: Handle::new(50),
        downsample: Handle::new(51),
        upsample: Handle::new(52),
        tonemapper: Handle::new(53),
    };
    PostEffectToneMap::init(rids, shaders).unwrap()
}

fn effect_with_levels(levels: &[f32]) -> PostEffectToneMap {
    let mut effect = default_effect();
    effect.glow_levels = levels.iter().map(|level| f(*level)).collect();
    effect
}

fn default_shaping() -> GlowShaping {
    GlowShaping {
        luminance_multiplier: f(2.0),
        strength: f(1.0),
        luminance_cap: f(12.0),
        exposure: f(1.0),
        bloom: f(0.0),
        hdr_bleed_threshold: f(0.2),
        hdr_bleed_scale: f(2.0),
    }
}

fn first_downsample() -> Pass {
    Pass::Downsample {
        source: TextureRef::Color,
        dest: TextureRef::Coarse(1),
        size: SizeRef::Frame,
        first_pass: true,
        shaping: default_shaping(),
    }
}

fn later_downsample(level: u32) -> Pass {
    Pass::Downsample {
        source: TextureRef::Coarse(level),
        dest: TextureRef::Coarse(level + 1),
        size: SizeRef::Coarse(level),
        first_pass: false,
        shaping: default_shaping(),
    }
}

fn idle_upsample(level: f32) -> Pass {
    Pass::Upsample {
        source: TextureRef::Black,
        dest: TextureRef::Fine(2),
        blend: TextureRef::Coarse(1),
        source_size: SizeRef::Fine(2),
        dest_size: SizeRef::Fine(2),
        level: f(level),
        base_strength: f(0.0),
    }
}

fn seed_copy() -> Pass {
    Pass::Copy { source: TextureRef::Color, dest: TextureRef::Fine(0) }
}

fn default_tone_map() -> Pass {
    Pass::ToneMap {
        pass: ToneMapPass {
            source: TextureRef::Fine(0),
            dest: TextureRef::Color,
            size: SizeRef::Frame,
            glow: TextureRef::Fine(2),
            glow_size: SizeRef::Fine(2),
            use_glow_map: false,
            glow_map_tex: Handle::invalid(),
            glow_intensity: f(0.8),
            glow_map_strength: f(0.8),
            exposure: f(1.0),
            white: f(2.0),
            use_fxaa: false,
            tonemap_type: ToneMapperType::Reinhard,
            glow_mode: GlowMode::Add,
        },
    }
}

fn count_downsamples(passes: &[Pass]) -> usize {
    passes.iter().filter(|pass| matches!(pass, Pass::Downsample { .. })).count()
}

fn count_upsamples(passes: &[Pass]) -> usize {
    passes.iter().filter(|pass| matches!(pass, Pass::Upsample { .. })).count()
}

#[test]
fn the_tunables_start_at_their_defaults() {
    let effect = default_effect();
    assert!(!effect.use_fxaa);
    assert_eq!(effect.glow_levels, vec![f(1.0), f(1.0), f(1.0)]);
    assert_eq!(effect.glow_intensity, f(0.8));
    assert_eq!(effect.glow_strength, f(1.0));
    assert_eq!(effect.glow_mix, f(0.05));
    assert_eq!(effect.glow_bloom, f(0.0));
    assert_eq!(effect.glow_blend_mode, GlowMode::Add);
    assert_eq!(effect.glow_hdr_bleed_threshold, f(0.2));
    assert_eq!(effect.glow_hdr_bleed_scale, f(2.0));
    assert_eq!(effect.glow_hdr_luminance_cap, f(12.0));
    assert_eq!(effect.glow_map_strength, f(0.8));
    assert_eq!(effect.glow_map, None);
    assert_eq!(effect.exposure, f(1.0));
    assert_eq!(effect.white, f(2.0));
    assert_eq!(effect.tonemap_type, ToneMapperType::Reinhard);
    assert_eq!(effect.copy.renderer.shader, Handle::new(50));
    assert_eq!(effect.downsample.renderer.shader, Handle::new(51));
    assert_eq!(effect.upsample.renderer.shader, Handle::new(52));
    assert_eq!(effect.tonemapper.renderer.shader, Handle::new(53));
    assert_eq!(effect.downsample.sampler, Handle::new(1));
    assert_eq!(effect.tonemapper.default_tex_white, Handle::new(4));
    assert_eq!(effect.global_rids_singleton.default_texture_black, Handle::new(5));
    assert_eq!(RB_SCOPE_BUFFERS, "my_render_buffers");
    assert_eq!(RB_TEX_BLUR_0, "blur_0");
    assert_eq!(RB_TEX_BLUR_1, "blur_1");
}

#[test]
fn the_effect_needs_all_four_shaders() {
    let rids = default_effect().global_rids_singleton;
    for missing in 0..4 {
        let shader = |slot: u64| if slot == missing { Handle::invalid() } else { Handle::new(50 + slot) };
        let shaders = StageShaders {
            copy: shader(0),
            downsample: shader(1),
            upsample: shader(2),
            tonemapper: shader(3),
        };
        assert_eq!(PostEffectToneMap::init(rids, shaders).unwrap_err(), SetupError::ShaderMissing);
    }
}

#[test]
fn the_effect_acts_after_the_transparent_pass_only() {
    let effect = default_effect();
    for callback in [-1, 0, 1, 2, 3, 5, 6, i32::MAX, i32::MIN] {
        assert!(effect.render_callback(callback, 1, 64, 64, Handle::invalid()).is_none());
    }
    assert!(effect.render_callback(4, 1, 64, 64, Handle::invalid()).is_some());
}

#[test]
fn the_callback_number_is_that_of_the_host() {
    let post_transparent = godot::obj::EngineEnum::ord(
        godot::classes::compositor_effect::EffectCallbackType::POST_TRANSPARENT,
    );
    let post_opaque = godot::obj::EngineEnum::ord(
        godot::classes::compositor_effect::EffectCallbackType::POST_OPAQUE,
    );
    let effect = default_effect();
    assert!(effect.render_callback(post_transparent, 1, 64, 64, Handle::invalid()).is_some());
    assert!(effect.render_callback(post_opaque, 1, 64, 64, Handle::invalid()).is_none());
}

#[test]
fn the_effect_skips_a_frame_with_more_or_fewer_views() {
    let effect = default_effect();
    for views in [0, 2, 3, u32::MAX] {
        assert!(effect.render_callback(4, views, 64, 64, Handle::invalid()).is_none());
    }
}

#[test]
fn the_scratch_chains_are_sized_from_the_frame() {
    let effect = default_effect();
    let plan = effect.render_callback(4, 1, 1920, 1080, Handle::invalid()).unwrap();
    assert_eq!(
        plan.fine_chain,
        ChainRequest {
            width: 1920,
            height: 1080,
            layers: 1,
            mipmaps: 11,
            usage_bits: 3,
            unique: true,
            discardable: false,
        }
    );
    assert_eq!(
        plan.coarse_chain,
        ChainRequest {
            width: 960,
            height: 540,
            layers: 1,
            mipmaps: 10,
            usage_bits: 3,
            unique: true,
            discardable: false,
        }
    );
    let odd = effect.render_callback(4, 1, 17, 1, Handle::invalid()).unwrap();
    assert_eq!((odd.fine_chain.width, odd.fine_chain.height, odd.fine_chain.mipmaps), (17, 1, 5));
    assert_eq!((odd.coarse_chain.width, odd.coarse_chain.height, odd.coarse_chain.mipmaps), (8, 0, 4));
}

#[test]
fn the_usage_bits_are_those_of_the_host() {
    let sampling = godot::obj::EngineBitfield::ord(
        godot::classes::rendering_device::TextureUsageBits::SAMPLING_BIT,
    );
    let attachment = godot::obj::EngineBitfield::ord(
        godot::classes::rendering_device::TextureUsageBits::COLOR_ATTACHMENT_BIT,
    );
    let plan = default_effect().render_callback(4, 1, 64, 64, Handle::invalid()).unwrap();
    assert_eq!(u64::from(plan.fine_chain.usage_bits), sampling | attachment);
    assert_eq!(u64::from(plan.coarse_chain.usage_bits), sampling | attachment);
}

#[test]
fn no_active_level_gives_one_draw_down_and_one_up() {
    let effect = effect_with_levels(&[0.0, 0.0, 0.0]);
    let plan = effect.render_callback(4, 1, 64, 64, Handle::invalid()).unwrap();
    assert_eq!(plan.max_glow_index, -1);
    assert_eq!(plan.min_glow_level, 3);
    assert_eq!(count_downsamples(&plan.passes), 1);
    assert_eq!(count_upsamples(&plan.passes), 1);
    assert_eq!(
        plan.passes,
        vec![first_downsample(), idle_upsample(0.0), seed_copy(), default_tone_map()]
    );
}

#[test]
fn three_active_levels_give_three_draws_down_and_two_up() {
    let effect = effect_with_levels(&[1.0, 1.0, 1.0]);
    let plan = effect.render_callback(4, 1, 64, 64, Handle::invalid()).unwrap();
    assert_eq!(plan.max_glow_index, 2);
    assert_eq!(plan.min_glow_level, 0);
    assert_eq!(count_downsamples(&plan.passes), 3);
    assert_eq!(count_upsamples(&plan.passes), 2);
    assert_eq!(
        plan.passes,
        vec![
            first_downsample(),
            later_downsample(1),
            later_downsample(2),
            Pass::Upsample {
                source: TextureRef::Coarse(3),
                dest: TextureRef::Fine(3),
                blend: TextureRef::Coarse(2),
                source_size: SizeRef::Fine(4),
                dest_size: SizeRef::Fine(3),
                level: f(1.0),
                base_strength: f(1.0),
            },
            Pass::Upsample {
                source: TextureRef::Fine(3),
                dest: TextureRef::Fine(2),
                blend: TextureRef::Coarse(1),
                source_size: SizeRef::Fine(3),
                dest_size: SizeRef::Fine(2),
                level: f(1.0),
                base_strength: f(1.0),
            },
            seed_copy(),
            default_tone_map(),
        ]
    );
}

#[test]
fn the_first_draw_up_takes_the_strength_of_the_level_above() {
    let effect = effect_with_levels(&[0.3, 0.5, 0.7]);
    let plan = effect.render_callback(4, 1, 64, 64, Handle::invalid()).unwrap();
    assert_eq!(plan.max_glow_index, 2);
    assert_eq!(
        plan.passes[3],
        Pass::Upsample {
            source: TextureRef::Coarse(3),
            dest: TextureRef::Fine(3),
            blend: TextureRef::Coarse(2),
            source_size: SizeRef::Fine(4),
            dest_size: SizeRef::Fine(3),
            level: f(0.5),
            base_strength: f(0.7),
        }
    );
    assert_eq!(
        plan.passes[4],
        Pass::Upsample {
            source: TextureRef::Fine(3),
            dest: TextureRef::Fine(2),
            blend: TextureRef::Coarse(1),
            source_size: SizeRef::Fine(3),
            dest_size: SizeRef::Fine(2),
            level: f(0.3),
            base_strength: f(1.0),
        }
    );
}

#[test]
fn only_the_first_level_active_takes_the_idle_branch() {
    let effect = effect_with_levels(&[1.0, 0.0, 0.0]);
    let plan = effect.render_callback(4, 1, 64, 64, Handle::invalid()).unwrap();
    assert_eq!(plan.max_glow_index, 0);
    assert_eq!(plan.min_glow_level, 0);
    assert_eq!(
        plan.passes,
        vec![first_downsample(), idle_upsample(1.0), seed_copy(), default_tone_map()]
    );
}

#[test]
fn a_gap_below_the_last_active_level_is_still_drawn() {
    let effect = effect_with_levels(&[0.0, 1.0, 0.0]);
    let plan = effect.render_callback(4, 1, 64, 64, Handle::invalid()).unwrap();
    assert_eq!(plan.max_glow_index, 1);
    assert_eq!(plan.min_glow_level, 1);
    assert_eq!(
        plan.passes,
        vec![
            first_downsample(),
            later_downsample(1),
            Pass::Upsample {
                source: TextureRef::Coarse(2),
                dest: TextureRef::Fine(2),
                blend: TextureRef::Coarse(1),
                source_size: SizeRef::Fine(3),
                dest_size: SizeRef::Fine(2),
                level: f(0.0),
                base_strength: f(1.0),
            },
            seed_copy(),
            default_tone_map(),
        ]
    );
    let top = effect_with_levels(&[0.0, 0.0, 1.0]);
    let plan = top.render_callback(4, 1, 64, 64, Handle::invalid()).unwrap();
    assert_eq!((plan.min_glow_level, plan.max_glow_index), (2, 2));
    assert_eq!(count_downsamples(&plan.passes), 3);
    assert_eq!(count_upsamples(&plan.passes), 2);
}

#[test]
fn a_level_at_the_threshold_is_not_active() {
    let effect = effect_with_levels(&[0.01, 0.0100001, 0.01]);
    let plan = effect.render_callback(4, 1, 64, 64, Handle::invalid()).unwrap();
    assert_eq!((plan.min_glow_level, plan.max_glow_index), (1, 1));
    let none = effect_with_levels(&[0.01, -5.0, f32::NAN]);
    let plan = none.render_callback(4, 1, 64, 64, Handle::invalid()).unwrap();
    assert_eq!((plan.min_glow_level, plan.max_glow_index), (3, -1));
    assert_eq!(none.active_glow_range(), (3, -1));
}

#[test]
fn more_or_fewer_levels_than_three_are_planned_alike() {
    let one = effect_with_levels(&[1.0]);
    let plan = one.render_callback(4, 1, 64, 64, Handle::invalid()).unwrap();
    assert_eq!((plan.min_glow_level, plan.max_glow_index), (0, 0));
    assert_eq!(plan.passes.len(), 4);
    let five = effect_with_levels(&[0.0, 1.0, 1.0, 1.0, 1.0]);
    let plan = five.render_callback(4, 1, 64, 64, Handle::invalid()).unwrap();
    assert_eq!((plan.min_glow_level, plan.max_glow_index), (1, 4));
    assert_eq!(count_downsamples(&plan.passes), 5);
    assert_eq!(count_upsamples(&plan.passes), 4);
    assert_eq!(plan.passes.len(), 11);
    assert_eq!(plan.passes[4], later_downsample(4));
    assert_eq!(
        plan.passes[5],
        Pass::Upsample {
            source: TextureRef::Coarse(5),
            dest: TextureRef::Fine(5),
            blend: TextureRef::Coarse(4),
            source_size: SizeRef::Fine(6),
            dest_size: SizeRef::Fine(5),
            level: f(1.0),
            base_strength: f(1.0),
        }
    );
    assert_eq!(
        plan.passes[8],
        Pass::Upsample {
            source: TextureRef::Fine(3),
            dest: TextureRef::Fine(2),
            blend: TextureRef::Coarse(1),
            source_size: SizeRef::Fine(3),
            dest_size: SizeRef::Fine(2),
            level: f(0.0),
            base_strength: f(1.0),
        }
    );
}

#[test]
fn the_mixing_mode_takes_the_mix_factor_as_intensity() {
    let mut effect = default_effect();
    effect.glow_blend_mode = GlowMode::Mix;
    effect.glow_mix = f(0.05);
    effect.glow_intensity = f(0.8);
    let plan = effect.render_callback(4, 1, 64, 64, Handle::invalid()).unwrap();
    match plan.passes[plan.passes.len() - 1] {
        Pass::ToneMap { pass } => {
            assert_eq!(pass.glow_intensity, f(0.05));
            assert_eq!(pass.glow_mode, GlowMode::Mix);
        }
        _ => panic!("the last draw is the tone mapping"),
    }
    effect.glow_blend_mode = GlowMode::Replace;
    let plan = effect.render_callback(4, 1, 64, 64, Handle::invalid()).unwrap();
    match plan.passes[plan.passes.len() - 1] {
        Pass::ToneMap { pass } => assert_eq!(pass.glow_intensity, f(0.8)),
        _ => panic!("the last draw is the tone mapping"),
    }
}

#[test]
fn the_tunables_reach_the_draws() {
    let mut effect = default_effect();
    effect.glow_strength = f(1.25);
    effect.glow_hdr_luminance_cap = f(10.0);
    effect.exposure = f(1.5);
    effect.glow_bloom = f(0.1);
    effect.glow_hdr_bleed_threshold = f(0.3);
    effect.glow_hdr_bleed_scale = f(3.0);
    effect.white = f(4.0);
    effect.glow_map_strength = f(0.4);
    effect.use_fxaa = true;
    effect.tonemap_type = ToneMapperType::Agx;
    let plan = effect.render_callback(4, 1, 64, 64, Handle::new(99)).unwrap();
    let shaping = GlowShaping {
        luminance_multiplier: f(2.0),
        strength: f(1.25),
        luminance_cap: f(10.0),
        exposure: f(1.5),
        bloom: f(0.1),
        hdr_bleed_threshold: f(0.3),
        hdr_bleed_scale: f(3.0),
    };
    for pass in &plan.passes[0..3] {
        match pass {
            Pass::Downsample { shaping: used, .. } => assert_eq!(*used, shaping),
            _ => panic!("the first three draws go down"),
        }
    }
    assert_eq!(
        plan.passes[6],
        Pass::ToneMap {
            pass: ToneMapPass {
                source: TextureRef::Fine(0),
                dest: TextureRef::Color,
                size: SizeRef::Frame,
                glow: TextureRef::Fine(2),
                glow_size: SizeRef::Fine(2),
                use_glow_map: true,
                glow_map_tex: Handle::new(99),
                glow_intensity: f(0.8),
                glow_map_strength: f(0.4),
                exposure: f(1.5),
                white: f(4.0),
                use_fxaa: true,
                tonemap_type: ToneMapperType::Agx,
                glow_mode: GlowMode::Add,
            },
        }
    );
}

#[test]
fn the_glow_map_is_looked_up_only_where_its_handle_is_valid() {
    let mut effect = default_effect();
    assert_eq!(effect.glow_map_lookup(), None);
    effect.glow_map = Some(Handle::invalid());
    assert_eq!(effect.glow_map_lookup(), None);
    effect.glow_map = Some(Handle::new(33));
    assert_eq!(effect.glow_map_lookup(), Some(Handle::new(33)));
}

#[test]
fn a_tone_map_pass_becomes_settings_once_the_glow_is_known() {
    let plan = default_effect().render_callback(4, 1, 64, 64, Handle::new(99)).unwrap();
    let pass = match plan.passes[plan.passes.len() - 1] {
        Pass::ToneMap { pass } => pass,
        _ => panic!("the last draw is the tone mapping"),
    };
    let size = PixelSize { x: f(1.0 / 16.0), y: f(1.0 / 16.0) };
    let settings = pass.settings(Handle::new(70), size);
    assert_eq!(settings.glow_tex, Handle::new(70));
    assert_eq!(settings.glow_pixel_size, size);
    assert!(settings.use_glow_map);
    assert_eq!(settings.glow_map_tex, Handle::new(99));
    assert_eq!(settings.glow_intensity, f(0.8));
    assert_eq!(settings.glow_map_strength, f(0.8));
    assert_eq!(settings.exposure, f(1.0));
    assert_eq!(settings.white, f(2.0));
    assert!(!settings.use_fxaa);
    assert_eq!(settings.tonemap_type, ToneMapperType::Reinhard);
    assert_eq!(settings.glow_mode, GlowMode::Add);
}

#[test]
fn the_two_gates_of_a_frame_can_be_asked_alone() {
    for callback in [-1, 0, 1, 2, 3, 5] {
        assert!(!PostEffectToneMap::handles_callback(callback));
    }
    assert!(PostEffectToneMap::handles_callback(4));
    assert!(PostEffectToneMap::handles_view_count(1));
    for views in [0, 2, 3, u32::MAX] {
        assert!(!PostEffectToneMap::handles_view_count(views));
    }
}

#[test]
fn the_tone_mapping_writes_the_colour_buffer() {
    for levels in [[0.0f32, 0.0, 0.0], [1.0, 1.0, 1.0], [0.0, 1.0, 0.0]] {
        let plan = effect_with_levels(&levels).render_callback(4, 1, 64, 64, Handle::invalid()).unwrap();
        match plan.passes[plan.passes.len() - 1] {
            Pass::ToneMap { pass } => {
                assert_eq!(pass.dest, TextureRef::Color);
                assert_eq!(pass.size, SizeRef::Frame);
                assert_eq!(pass.source, TextureRef::Fine(0));
            }
            _ => panic!("the last draw is the tone mapping"),
        }
    }
}
