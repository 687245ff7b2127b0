use egui_kittest::{
    EnvOverride, FloatBits, HarnessBuilder, OperatingSystem, Renderer, Theme, TimeSpan, Vec2,
};

fn bits(x: f32) -> FloatBits {
    FloatBits::from_bits(x.to_bits())
}

fn value(x: FloatBits) -> f32 {
    f32::from_bits(x.to_bits())
}

fn size(width: f32, height: f32) -> Vec2 {
    Vec2 { x: bits(width), y: bits(height) }
}

#[test]
fn defaults() {
    let builder: HarnessBuilder = HarnessBuilder::default();
    assert_eq!(value(builder.screen_size.x), 800.0);
    assert_eq!(value(builder.screen_size.y), 600.0);
    assert_eq!(value(builder.pixels_per_point), 1.0);
    assert_eq!(builder.theme, Theme::Dark);
    assert_eq!(builder.os, OperatingSystem::Nix);
    assert_eq!(builder.max_steps, 4);
    assert_eq!(value(builder.step_dt), 1.0 / 4.0);
    assert!(matches!(builder.renderer, Renderer::Lazy));
    assert!(builder.wait_for_pending_images);
    assert_eq!(builder.headful_pause, TimeSpan::zero());
    // The default run covers one second of simulation.
    assert_eq!(builder.max_steps as f32 * value(builder.step_dt), 1.0);
}

#[test]
fn setters_set_one_setting_each() {
    let builder: HarnessBuilder = HarnessBuilder::default()
        .with_size(size(300.0, 200.0))
        .with_pixels_per_point(bits(2.0))
        .with_theme(Theme::Light)
        .with_os(OperatingSystem::Mac)
        .with_max_steps(10)
        .with_step_dt(bits(0.5))
        .with_wait_for_pending_images(false)
        .with_headful_pause(TimeSpan::from_millis(1500));
    assert_eq!(builder.screen_size, size(300.0, 200.0));
    assert_eq!(value(builder.pixels_per_point), 2.0);
    assert_eq!(builder.theme, Theme::Light);
    assert_eq!(builder.os, OperatingSystem::Mac);
    assert_eq!(builder.max_steps, 10);
    assert_eq!(value(builder.step_dt), 0.5);
    assert!(!builder.wait_for_pending_images);
    assert_eq!(builder.headful_pause.as_secs(), 1);
    assert_eq!(builder.headful_pause.subsec_nanos(), 500_000_000);
    assert!(matches!(builder.renderer, Renderer::Lazy));
}

#[test]
fn last_setting_wins() {
    let builder: HarnessBuilder =
        HarnessBuilder::default().with_max_steps(10).with_theme(Theme::Light).with_max_steps(3);
    assert_eq!(builder.max_steps, 3);
    assert_eq!(builder.theme, Theme::Light);
}

#[test]
fn renderers() {
    let builder: HarnessBuilder = HarnessBuilder::default().wgpu();
    assert!(matches!(builder.renderer, Renderer::Wgpu(None)));
    assert!(builder.renderer.native_pixels_per_point().is_none());
    let builder = builder.wgpu_setup(egui_wgpu::WgpuSetup::default());
    assert!(matches!(builder.renderer, Renderer::Wgpu(Some(_))));
    let builder = builder.renderer(Renderer::Custom { reported_pixels_per_point: Some(bits(3.0)) });
    assert_eq!(builder.renderer.native_pixels_per_point(), Some(bits(3.0)));
}

#[test]
fn headful_mode() {
    let builder: HarnessBuilder = HarnessBuilder::default().with_max_steps(7);
    let builder = builder.headful(bits(2.0));
    assert_eq!(value(builder.pixels_per_point), 2.0);
    assert_eq!(value(builder.step_dt), 1.0 / 30.0);
    assert_eq!(builder.step_dt.to_bits(), (1.0f32 / 30.0).to_bits());
    assert_eq!(builder.max_steps, 1000);
    assert_eq!(builder.headful_pause.as_secs(), 0);
    assert_eq!(builder.headful_pause.subsec_nanos(), 200_000_000);
    assert_eq!(builder.renderer.native_pixels_per_point(), Some(bits(2.0)));
    assert_eq!(value(builder.screen_size.x), 800.0);
}

#[test]
fn env_override() {
    let builder: HarnessBuilder = HarnessBuilder::default();
    assert_eq!(builder.env_override(false), EnvOverride::Keep);
    assert_eq!(builder.env_override(true), EnvOverride::OpenWindow { width: 800, height: 600 });
    let builder = builder.with_size(size(300.7, 200.2));
    assert_eq!(builder.env_override(true), EnvOverride::OpenWindow { width: 300, height: 200 });
    let headful = builder.headful(bits(1.5));
    assert_eq!(headful.env_override(true), EnvOverride::Keep);
    let custom: HarnessBuilder = HarnessBuilder::default()
        .renderer(Renderer::Custom { reported_pixels_per_point: Some(bits(1.0)) });
    assert_eq!(custom.env_override(true), EnvOverride::Keep);
    let custom: HarnessBuilder = HarnessBuilder::default()
        .renderer(Renderer::Custom { reported_pixels_per_point: None });
    assert_eq!(custom.env_override(true), EnvOverride::OpenWindow { width: 800, height: 600 });
}

#[test]
fn window_size_truncates_like_as() {
    let samples: [f32; 18] = [
        0.0,
        -0.0,
        0.5,
        0.999_999_94,
        1.0,
        300.7,
        1024.0,
        -5.5,
        f32::NAN,
        -f32::NAN,
        f32::INFINITY,
        f32::NEG_INFINITY,
        f32::MIN_POSITIVE,
        1.0e-42,
        16_777_217.0,
        4_294_967_040.0,
        4_294_967_296.0,
        f32::MAX,
    ];
    for &w in &samples {
        for &h in &samples {
            let builder: HarnessBuilder = HarnessBuilder::default().with_size(size(w, h));
            assert_eq!(builder.headful_window_size(), (w as u32, h as u32), "{w} x {h}");
        }
    }
    for exp in 0u32..256 {
        for frac in [0u32, 1, 0x40_0000, 0x7f_ffff, 0x12_3456] {
            for sign in [0u32, 1] {
                let x = f32::from_bits((sign << 31) | (exp << 23) | frac);
                assert_eq!(bits(x).as_u32(), x as u32, "{x}");
            }
        }
    }
}

#[test]
fn time_spans() {
    assert_eq!(TimeSpan::zero().as_secs(), 0);
    assert_eq!(TimeSpan::zero().subsec_nanos(), 0);
    let span = TimeSpan::from_millis(100);
    assert_eq!((span.as_secs(), span.subsec_nanos()), (0, 100_000_000));
    let span = TimeSpan::from_millis(u64::MAX);
    let std_span = std::time::Duration::from_millis(u64::MAX);
    assert_eq!((span.as_secs(), span.subsec_nanos()), (std_span.as_secs(), std_span.subsec_nanos()));
    let span = TimeSpan::new(3, 999_999_999);
    assert_eq!((span.as_secs(), span.subsec_nanos()), (3, 999_999_999));
    assert_eq!(TimeSpan::from_millis(2000), TimeSpan::new(2, 0));
}
