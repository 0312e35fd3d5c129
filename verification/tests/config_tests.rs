use quad_render::surface::{choose_format, AlphaMode, PresentMode, SurfaceConfig, SurfaceFormat};

fn formats(flags: &[bool]) -> Vec<SurfaceFormat> {
    flags
        .iter()
        .enumerate()
        .map(|(i, &srgb)| SurfaceFormat { code: i as u32, srgb })
        .collect()
}

#[test]
fn construction_with_800_600_stores_dimensions() {
    let fmts = formats(&[false, true, true]);
    let alphas = vec![AlphaMode::Opaque, AlphaMode::Auto];
    let c = SurfaceConfig::new(800, 600, &fmts, &alphas);
    assert_eq!(c.width, 800);
    assert_eq!(c.height, 600);
    assert_eq!(c.present_mode, PresentMode::Fifo);
    assert_eq!(c.alpha_mode, AlphaMode::Opaque);
    assert_eq!(c.frame_latency, 2);
}

#[test]
fn format_prefers_first_perceptual() {
    let fmts = formats(&[false, true, true]);
    let f = choose_format(&fmts);
    assert_eq!(f, SurfaceFormat { code: 1, srgb: true });
}

#[test]
fn format_falls_back_to_first_when_none_perceptual() {
    let fmts = formats(&[false, false, false]);
    let f = choose_format(&fmts);
    assert_eq!(f, SurfaceFormat { code: 0, srgb: false });
}

#[test]
fn format_single_entry() {
    let fmts = formats(&[false]);
    assert_eq!(choose_format(&fmts), SurfaceFormat { code: 0, srgb: false });
    let fmts = formats(&[true]);
    assert_eq!(choose_format(&fmts), SurfaceFormat { code: 0, srgb: true });
}

#[test]
fn resize_updates_stored_dimensions() {
    let fmts = formats(&[true]);
    let alphas = vec![AlphaMode::Auto];
    let mut c = SurfaceConfig::new(800, 600, &fmts, &alphas);
    let reconfigure = c.resize(1024, 768);
    assert!(reconfigure);
    assert_eq!(c.width, 1024);
    assert_eq!(c.height, 768);
}

#[test]
fn resize_zero_width_ignored() {
    let fmts = formats(&[true]);
    let alphas = vec![AlphaMode::Auto];
    let mut c = SurfaceConfig::new(800, 600, &fmts, &alphas);
    let before = c;
    let reconfigure = c.resize(0, 768);
    assert!(!reconfigure);
    assert_eq!(c, before);
}

#[test]
fn resize_zero_height_ignored() {
    let fmts = formats(&[true]);
    let alphas = vec![AlphaMode::Auto];
    let mut c = SurfaceConfig::new(800, 600, &fmts, &alphas);
    let before = c;
    let reconfigure = c.resize(1024, 0);
    assert!(!reconfigure);
    assert_eq!(c, before);
}

#[test]
fn resize_sequence_keeps_last_applicable_report() {
    let fmts = formats(&[false, true]);
    let alphas = vec![AlphaMode::PostMultiplied];
    let mut c = SurfaceConfig::new(800, 600, &fmts, &alphas);
    c.resize(300, 200);
    c.resize(1024, 768);
    c.resize(0, 999);
    c.resize(999, 0);
    assert_eq!(c.width, 1024);
    assert_eq!(c.height, 768);
    assert_eq!(c.format, SurfaceFormat { code: 1, srgb: true });
    assert_eq!(c.present_mode, PresentMode::Fifo);
    assert_eq!(c.alpha_mode, AlphaMode::PostMultiplied);
    assert_eq!(c.frame_latency, 2);
}

#[test]
fn resize_is_idempotent() {
    let fmts = formats(&[true]);
    let alphas = vec![AlphaMode::Auto];
    let mut c = SurfaceConfig::new(800, 600, &fmts, &alphas);
    c.resize(640, 480);
    let once = c;
    c.resize(640, 480);
    assert_eq!(c, once);
}
