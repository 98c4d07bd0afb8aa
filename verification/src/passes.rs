//! The draw passes of one bloom frame: the text is copied into a reduced-size
//! target, blurred horizontally into a second target and vertically back into the
//! first, and the result is added onto the screen before the sharp text is laid over it.
use vstd::prelude::*;

verus! {

/// GPU object names, as the graphics driver hands them out.
#[derive(Clone, Copy, Debug, PartialEq, Eq)]
pub enum GlResource {
    Texture(u32),
    Framebuffer(u32),
    Program(u32),
    VertexArray(u32),
}

/// The four shader programs the effect draws with.
#[derive(Clone, Copy, Debug, PartialEq, Eq)]
pub struct ShaderPrograms {
    /// Samples the red channel and writes it, scaled by an intensity, as an opaque grey.
    pub copy: u32,
    /// Samples the red channel and writes it as premultiplied grey with that alpha.
    pub sharp: u32,
    /// Gaussian blur along rows.
    pub blur_h: u32,
    /// Gaussian blur along columns.
    pub blur_v: u32,
}

/// The two reduced-size render targets, each a framebuffer with a texture attached.
#[derive(Clone, Copy, Debug, PartialEq, Eq)]
pub struct BloomTargets {
    pub fbo_a: u32,
    pub tex_a: u32,
    pub fbo_b: u32,
    pub tex_b: u32,
}

/// Where a pass draws.
#[derive(Clone, Copy, Debug, PartialEq, Eq)]
pub enum RenderTarget {
    /// The framebuffer with this name.
    Offscreen(u32),
    /// The default framebuffer, the window.
    Screen,
}

/// The viewport a pass draws with.
#[derive(Clone, Copy, Debug, PartialEq, Eq)]
pub enum Viewport {
    /// From the origin, `width` by `height` pixels.
    Sized { width: u32, height: u32 },
    /// The viewport that was in effect when the frame began.
    Restored,
}

/// The colour a pass clears its target to before drawing.
#[derive(Clone, Copy, Debug, PartialEq, Eq)]
pub enum ClearColor {
    /// All channels zero.
    Transparent,
    /// Black with full alpha.
    OpaqueBlack,
}

/// How a pass's output is combined with what its target holds.
#[derive(Clone, Copy, Debug, PartialEq, Eq)]
pub enum Blend {
    /// The output replaces the target.
    Off,
    /// Source and destination are added, both with factor one.
    Additive,
    /// Premultiplied "over": source plus destination times one minus source alpha.
    Over,
}

/// The intensity a copy pass scales its samples by.
#[derive(Clone, Copy, Debug, PartialEq, Eq)]
pub enum Intensity {
    /// Exactly one: the samples are copied as they are.
    Unit,
    /// The frame's bloom intensity, chosen by the caller.
    Bloom,
}

/// The uniforms a pass sets besides its texture unit.
#[derive(Clone, Copy, Debug, PartialEq, Eq)]
pub enum PassUniforms {
    /// No further uniform.
    Plain,
    /// `u_intensity`.
    Scaled(Intensity),
    /// `u_texel`: the size of one texel of a `width` by `height` texture,
    /// that is one over each side.
    Texel { width: u32, height: u32 },
}

/// One full-screen triangle drawn with `program`, sampling `texture` on unit zero.
#[derive(Clone, Copy, Debug, PartialEq, Eq)]
pub struct DrawPass {
    pub target: RenderTarget,
    pub viewport: Viewport,
    pub clear: Option<ClearColor>,
    pub blend: Blend,
    pub program: u32,
    pub texture: u32,
    pub uniforms: PassUniforms,
}

/// The passes of one frame, in order, for a text texture `text`, bloom targets `t` of
/// `width` by `height` pixels and programs `p`.
pub open spec fn bloom_passes_spec(text: u32, t: BloomTargets, p: ShaderPrograms, width: u32, height: u32) -> Seq<DrawPass> {
    let bloom_viewport = Viewport::Sized { width, height };
    let texel = PassUniforms::Texel { width, height };
    seq![
        DrawPass {
            target: RenderTarget::Offscreen(t.fbo_a),
            viewport: bloom_viewport,
            clear: Some(ClearColor::Transparent),
            blend: Blend::Off,
            program: p.copy,
            texture: text,
            uniforms: PassUniforms::Scaled(Intensity::Unit),
        },
        DrawPass {
            target: RenderTarget::Offscreen(t.fbo_b),
            viewport: bloom_viewport,
            clear: Some(ClearColor::Transparent),
            blend: Blend::Off,
            program: p.blur_h,
            texture: t.tex_a,
            uniforms: texel,
        },
        DrawPass {
            target: RenderTarget::Offscreen(t.fbo_a),
            viewport: bloom_viewport,
            clear: Some(ClearColor::Transparent),
            blend: Blend::Off,
            program: p.blur_v,
            texture: t.tex_b,
            uniforms: texel,
        },
        DrawPass {
            target: RenderTarget::Screen,
            viewport: Viewport::Restored,
            clear: Some(ClearColor::OpaqueBlack),
            blend: Blend::Additive,
            program: p.copy,
            texture: t.tex_a,
            uniforms: PassUniforms::Scaled(Intensity::Bloom),
        },
        DrawPass {
            target: RenderTarget::Screen,
            viewport: Viewport::Restored,
            clear: None,
            blend: Blend::Over,
            program: p.sharp,
            texture: text,
            uniforms: PassUniforms::Plain,
        },
    ]
}

/// Lists the passes of one frame: copy the text into target A, blur A along rows into
/// B, blur B along columns back into A, then on the restored viewport clear the screen
/// to opaque black, add A scaled by the bloom intensity, and lay the text over it.
pub fn bloom_passes(text: u32, t: BloomTargets, p: ShaderPrograms, width: u32, height: u32) -> (r: Vec<DrawPass>)
    ensures
        r@ == bloom_passes_spec(text, t, p, width, height),
{
    let bloom_viewport = Viewport::Sized { width, height };
    let texel = PassUniforms::Texel { width, height };
    let mut r: Vec<DrawPass> = Vec::new();
    r.push(DrawPass {
        target: RenderTarget::Offscreen(t.fbo_a),
        viewport: bloom_viewport,
        clear: Some(ClearColor::Transparent),
        blend: Blend::Off,
        program: p.copy,
        texture: text,
        uniforms: PassUniforms::Scaled(Intensity::Unit),
    });
    r.push(DrawPass {
        target: RenderTarget::Offscreen(t.fbo_b),
        viewport: bloom_viewport,
        clear: Some(ClearColor::Transparent),
        blend: Blend::Off,
        program: p.blur_h,
        texture: t.tex_a,
        uniforms: texel,
    });
    r.push(DrawPass {
        target: RenderTarget::Offscreen(t.fbo_a),
        viewport: bloom_viewport,
        clear: Some(ClearColor::Transparent),
        blend: Blend::Off,
        program: p.blur_v,
        texture: t.tex_b,
        uniforms: texel,
    });
    r.push(DrawPass {
        target: RenderTarget::Screen,
        viewport: Viewport::Restored,
        clear: Some(ClearColor::OpaqueBlack),
        blend: Blend::Additive,
        program: p.copy,
        texture: t.tex_a,
        uniforms: PassUniforms::Scaled(Intensity::Bloom),
    });
    r.push(DrawPass {
        target: RenderTarget::Screen,
        viewport: Viewport::Restored,
        clear: None,
        blend: Blend::Over,
        program: p.sharp,
        texture: text,
        uniforms: PassUniforms::Plain,
    });
    assert(r@ =~= bloom_passes_spec(text, t, p, width, height));
    r
}

/// The texture that is attached to framebuffer `fbo` among the bloom targets, if any.
pub open spec fn attached_texture(t: BloomTargets, fbo: u32) -> Option<u32> {
    if fbo == t.fbo_a {
        Some(t.tex_a)
    } else if fbo == t.fbo_b {
        Some(t.tex_b)
    } else {
        None
    }
}

/// The framebuffer that texture `tex` is attached to among the bloom targets, if any.
pub open spec fn framebuffer_of(t: BloomTargets, tex: u32) -> Option<u32> {
    if tex == t.tex_a {
        Some(t.fbo_a)
    } else if tex == t.tex_b {
        Some(t.fbo_b)
    } else {
        None
    }
}

/// Whether `pass` samples the texture attached to the framebuffer it draws into.
pub open spec fn reads_own_target(t: BloomTargets, pass: DrawPass) -> bool {
    match pass.target {
        RenderTarget::Offscreen(f) => attached_texture(t, f) == Some(pass.texture),
        RenderTarget::Screen => false,
    }
}

/// The names of one frame's objects are those of distinct objects.
pub open spec fn distinct_names(text: u32, t: BloomTargets) -> bool {
    &&& t.fbo_a != t.fbo_b
    &&& t.tex_a != t.tex_b
    &&& text != t.tex_a
    &&& text != t.tex_b
}

/// No pass of a frame samples the texture attached to the framebuffer it draws into,
/// so no pass reads what it is writing.
pub proof fn lemma_no_pass_reads_its_target(text: u32, t: BloomTargets, p: ShaderPrograms, width: u32, height: u32)
    requires
        distinct_names(text, t),
    ensures
        forall|i: int|
            0 <= i < bloom_passes_spec(text, t, p, width, height).len()
                ==> !reads_own_target(t, #[trigger] bloom_passes_spec(text, t, p, width, height)[i]),
{
}

/// Every bloom texture that a pass samples was drawn into by an earlier pass of the
/// same frame, so nothing left over from an earlier frame is read.
pub proof fn lemma_bloom_textures_drawn_before_read(text: u32, t: BloomTargets, p: ShaderPrograms, width: u32, height: u32)
    requires
        distinct_names(text, t),
    ensures
        forall|i: int|
            0 <= i < bloom_passes_spec(text, t, p, width, height).len()
                ==> (framebuffer_of(t, #[trigger] bloom_passes_spec(text, t, p, width, height)[i].texture) matches Some(f)
                ==> exists|j: int| 0 <= j < i && bloom_passes_spec(text, t, p, width, height)[j].target == RenderTarget::Offscreen(f)),
{
    let s = bloom_passes_spec(text, t, p, width, height);
    assert(s[0].target == RenderTarget::Offscreen(t.fbo_a));
    assert(s[1].target == RenderTarget::Offscreen(t.fbo_b));
}

/// The screen is cleared once, by the first pass that draws to it; the blurred glow is
/// added onto it before the sharp text is laid over it, and the glow that is added is
/// the output of the last blur.
pub proof fn lemma_screen_composition(text: u32, t: BloomTargets, p: ShaderPrograms, width: u32, height: u32)
    ensures
        ({
            let s = bloom_passes_spec(text, t, p, width, height);
            &&& s.len() == 5
            &&& forall|i: int| 0 <= i < 3 ==> #[trigger] s[i].target != RenderTarget::Screen
            &&& s[3].target == RenderTarget::Screen && s[3].clear == Some(ClearColor::OpaqueBlack)
            &&& s[4].target == RenderTarget::Screen && s[4].clear is None
            &&& s[3].blend == Blend::Additive && s[3].texture == t.tex_a
            &&& s[4].blend == Blend::Over && s[4].texture == text
            &&& s[2].target == RenderTarget::Offscreen(t.fbo_a) && s[2].program == p.blur_v
        }),
{
}

/// How every frame's passes are wired, whatever the bloom size: three passes into the
/// bloom targets (A, B, A) then two onto the screen; each offscreen pass draws on the
/// bloom-sized viewport after clearing to transparent, with blending off, and each
/// blur reads what the pass before it wrote; the screen passes use the restored
/// viewport. The first pass copies the text at unit intensity, the blurs are told the
/// bloom size as their texel size, the glow is added onto the screen scaled by the
/// caller's bloom intensity, and the sharp text is laid over it with no uniform but
/// its texture.
pub proof fn lemma_pass_wiring(text: u32, t: BloomTargets, p: ShaderPrograms, width: u32, height: u32)
    ensures
        ({
            let s = bloom_passes_spec(text, t, p, width, height);
            &&& s.len() == 5
            &&& forall|i: int| 0 <= i < 3 ==> {
                &&& (#[trigger] s[i]).viewport == Viewport::Sized { width, height }
                &&& s[i].clear == Some(ClearColor::Transparent)
                &&& s[i].blend == Blend::Off
            }
            &&& forall|i: int| 3 <= i < 5 ==> {
                &&& (#[trigger] s[i]).viewport == Viewport::Restored
                &&& s[i].target == RenderTarget::Screen
            }
            &&& s[0].target == RenderTarget::Offscreen(t.fbo_a)
            &&& s[1].target == RenderTarget::Offscreen(t.fbo_b)
            &&& s[2].target == RenderTarget::Offscreen(t.fbo_a)
            &&& s[0].texture == text && s[0].program == p.copy
            &&& s[1].texture == t.tex_a && s[1].program == p.blur_h
            &&& s[2].texture == t.tex_b && s[2].program == p.blur_v
            &&& s[3].texture == t.tex_a && s[3].program == p.copy
            &&& s[4].texture == text && s[4].program == p.sharp
            &&& s[0].uniforms == PassUniforms::Scaled(Intensity::Unit)
            &&& s[1].uniforms == PassUniforms::Texel { width, height }
            &&& s[2].uniforms == PassUniforms::Texel { width, height }
            &&& s[3].uniforms == PassUniforms::Scaled(Intensity::Bloom)
            &&& s[4].uniforms == PassUniforms::Plain
        }),
{
}

} // verus!
