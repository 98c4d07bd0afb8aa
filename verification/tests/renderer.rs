use glow_bloom::passes::{BloomTargets, GlResource, RenderTarget, ShaderPrograms};
use glow_bloom::renderer::{BloomRenderer, FrameSetup, FrameStart};

fn programs() -> ShaderPrograms {
    ShaderPrograms { copy: 1, sharp: 2, blur_h: 3, blur_v: 4 }
}

fn targets(base: u32) -> BloomTargets {
    BloomTargets { fbo_a: base, tex_a: base + 1, fbo_b: base + 2, tex_b: base + 3 }
}

fn renderer() -> BloomRenderer {
    BloomRenderer::new(programs(), 9, epaint_default_fonts::HACK_REGULAR.to_vec())
}

fn setup(start: FrameStart) -> FrameSetup {
    match start {
        FrameStart::Draw(setup) => setup,
        FrameStart::Skip => panic!("frame skipped"),
        FrameStart::InvalidFont { .. } => panic!("font rejected"),
    }
}

/// One whole frame: begin, install the text texture, keep or replace the targets.
/// Returns everything released, in order.
fn draw_frame(r: &mut BloomRenderer, w: u32, h: u32, text_tex: u32, target_base: u32) -> Vec<GlResource> {
    let s = setup(r.render_text(w, h));
    let mut released = s.release;
    r.install_text_texture(text_tex);
    if let Some(old) = r.ensure_fbos(s.bloom_w, s.bloom_h) {
        released.extend(old);
        r.install_targets(targets(target_base), s.bloom_w, s.bloom_h);
    }
    assert_eq!(r.frame_passes().len(), 5);
    released
}

#[test]
fn new_renderer_keeps_font() {
    let r = BloomRenderer::new(programs(), 9, vec![1, 2, 3]);
    assert_eq!(r.font_data(), &vec![1u8, 2, 3]);
    assert_eq!(r.shader_programs(), programs());
    assert_eq!(r.vertex_array_name(), 9);
}

#[test]
fn zero_sized_window_draws_nothing() {
    let mut r = renderer();
    assert!(matches!(r.render_text(0, 100), FrameStart::Skip));
    assert!(matches!(r.render_text(100, 0), FrameStart::Skip));
    assert!(matches!(r.render_text(0, 0), FrameStart::Skip));
}

#[test]
fn zero_sized_window_skips_even_with_bad_font() {
    let mut r = BloomRenderer::new(programs(), 9, Vec::new());
    assert!(matches!(r.render_text(0, 10), FrameStart::Skip));
}

#[test]
fn first_frame_releases_nothing_and_sizes_targets() {
    let mut r = renderer();
    let s = setup(r.render_text(800, 600));
    assert!(s.release.is_empty());
    assert_eq!((s.bloom_w, s.bloom_h), (200, 150));
}

#[test]
fn bad_font_ends_frame_keeping_targets() {
    let mut r = BloomRenderer::new(programs(), 9, vec![0, 1, 2]);
    r.install_text_texture(100);
    r.install_targets(targets(10), 200, 150);
    match r.render_text(400, 600) {
        FrameStart::InvalidFont { release } => assert_eq!(release, vec![GlResource::Texture(100)]),
        _ => panic!("the font must be rejected"),
    }
    assert!(!r.holds_text_texture());
    assert!(r.holds_targets());
    // the targets are still those of the earlier size
    assert_eq!(r.ensure_fbos(200, 150), None);
}

#[test]
fn frame_gives_up_only_the_text_texture() {
    let mut r = renderer();
    draw_frame(&mut r, 800, 600, 100, 10);
    let s = setup(r.render_text(400, 600));
    assert_eq!(s.release, vec![GlResource::Texture(100)]);
    assert!(r.holds_targets());
}

#[test]
fn same_size_frames_keep_targets_and_replace_text() {
    let mut r = renderer();
    assert!(draw_frame(&mut r, 800, 600, 100, 10).is_empty());
    let released = draw_frame(&mut r, 800, 600, 101, 20);
    assert_eq!(released, vec![GlResource::Texture(100)]);
    let passes = r.frame_passes();
    assert_eq!(passes[0].target, RenderTarget::Offscreen(10));
    assert_eq!(passes[0].texture, 101);
}

#[test]
fn same_quarter_size_keeps_targets() {
    let mut r = renderer();
    draw_frame(&mut r, 800, 600, 100, 10);
    // 803 / 4 == 800 / 4
    let released = draw_frame(&mut r, 803, 601, 101, 20);
    assert_eq!(released, vec![GlResource::Texture(100)]);
    assert_eq!(r.frame_passes()[0].target, RenderTarget::Offscreen(10));
}

#[test]
fn resize_releases_old_targets_after_text() {
    let mut r = renderer();
    draw_frame(&mut r, 800, 600, 100, 10);
    let released = draw_frame(&mut r, 400, 600, 101, 20);
    assert_eq!(
        released,
        vec![
            GlResource::Texture(100),
            GlResource::Framebuffer(10),
            GlResource::Texture(11),
            GlResource::Framebuffer(12),
            GlResource::Texture(13),
        ]
    );
    assert_eq!(r.frame_passes()[0].target, RenderTarget::Offscreen(20));
}

#[test]
fn ensure_fbos_keeps_matching_targets() {
    let mut r = renderer();
    assert_eq!(r.ensure_fbos(5, 5), Some(Vec::new()));
    r.install_targets(targets(10), 5, 5);
    assert_eq!(r.ensure_fbos(5, 5), None);
    assert_eq!(
        r.ensure_fbos(6, 5),
        Some(vec![
            GlResource::Framebuffer(10),
            GlResource::Texture(11),
            GlResource::Framebuffer(12),
            GlResource::Texture(13),
        ])
    );
}

#[test]
fn destroy_releases_everything_once() {
    let mut r = renderer();
    draw_frame(&mut r, 800, 600, 100, 10);
    let released = r.destroy();
    assert_eq!(
        released,
        vec![
            GlResource::Program(1),
            GlResource::Program(2),
            GlResource::Program(3),
            GlResource::Program(4),
            GlResource::Texture(100),
            GlResource::Texture(11),
            GlResource::Texture(13),
            GlResource::Framebuffer(10),
            GlResource::Framebuffer(12),
            GlResource::VertexArray(9),
        ]
    );
    let again = r.destroy();
    assert_eq!(
        again,
        vec![
            GlResource::Program(1),
            GlResource::Program(2),
            GlResource::Program(3),
            GlResource::Program(4),
            GlResource::VertexArray(9),
        ]
    );
}

#[test]
fn destroy_before_any_frame() {
    let mut r = renderer();
    assert_eq!(r.destroy().len(), 5);
}

#[test]
fn frame_after_destroy_creates_targets_anew() {
    let mut r = renderer();
    draw_frame(&mut r, 800, 600, 100, 10);
    r.destroy();
    let s = setup(r.render_text(800, 600));
    assert!(s.release.is_empty());
    r.install_text_texture(200);
    assert_eq!(r.ensure_fbos(s.bloom_w, s.bloom_h), Some(Vec::new()));
}

#[test]
fn holdings_follow_the_frame() {
    let mut r = renderer();
    assert!(!r.holds_text_texture() && !r.holds_targets());
    let s = setup(r.render_text(16, 16));
    assert_eq!((s.bloom_w, s.bloom_h), (4, 4));
    r.install_text_texture(50);
    assert!(r.holds_text_texture() && !r.holds_targets());
    r.install_targets(targets(60), 4, 4);
    assert!(r.holds_targets());
    setup(r.render_text(16, 16));
    assert!(!r.holds_text_texture() && r.holds_targets());
}
