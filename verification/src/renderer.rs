//! The renderer's bookkeeping of its GPU objects: which textures and framebuffers it
//! owns, when the bloom targets must be made anew, what a frame releases, and what
//! tearing it down releases. The graphics calls themselves are made by the caller.
use vstd::prelude::*;
use crate::font::{font_parses, load_font};
use crate::geometry::{bloom_extent, bloom_extent_spec};
use crate::passes::{
    bloom_passes, bloom_passes_spec, BloomTargets, DrawPass, GlResource, ShaderPrograms,
};

verus! {

/// Text rendered with a glow: the renderer's GPU objects, by name, and the font.
pub struct BloomRenderer {
    text_tex: Option<u32>,
    bloom_targets: Option<BloomTargets>,
    prog_copy: u32,
    prog_sharp: u32,
    prog_blur_h: u32,
    prog_blur_v: u32,
    vao: u32,
    half_w: u32,
    half_h: u32,
    font_data: Vec<u8>,
}

/// How a frame begins.
pub enum FrameStart {
    /// The window has no area: nothing is drawn and nothing changes.
    Skip,
    /// The font does not parse, so no text can be drawn. The old text texture has
    /// been given up and is to be deleted; the bloom targets are still held.
    InvalidFont { release: Vec<GlResource> },
    /// The text can be drawn.
    Draw(FrameSetup),
}

/// What a frame hands the caller to make its text texture with.
pub struct FrameSetup {
    /// The old text texture, if there was one, to be deleted.
    pub release: Vec<GlResource>,
    /// The parsed font.
    pub font: ab_glyph::FontArc,
    /// Width of the bloom targets this frame draws into.
    pub bloom_w: u32,
    /// Height of the bloom targets this frame draws into.
    pub bloom_h: u32,
}

/// The four bloom-target objects, in the order they are released when replaced:
/// framebuffer A, texture A, framebuffer B, texture B.
pub open spec fn target_resources(t: BloomTargets) -> Seq<GlResource> {
    seq![
        GlResource::Framebuffer(t.fbo_a),
        GlResource::Texture(t.tex_a),
        GlResource::Framebuffer(t.fbo_b),
        GlResource::Texture(t.tex_b),
    ]
}

/// The resource for an optional texture name.
pub open spec fn optional_texture(tex: Option<u32>) -> Seq<GlResource> {
    match tex {
        Some(t) => seq![GlResource::Texture(t)],
        None => Seq::empty(),
    }
}

/// The bloom-target objects in the order a teardown releases them: texture A,
/// texture B, framebuffer A, framebuffer B; nothing when no targets are held.
pub open spec fn teardown_order(t: Option<BloomTargets>) -> Seq<GlResource> {
    match t {
        Some(t) => seq![
            GlResource::Texture(t.tex_a),
            GlResource::Texture(t.tex_b),
            GlResource::Framebuffer(t.fbo_a),
            GlResource::Framebuffer(t.fbo_b),
        ],
        None => Seq::empty(),
    }
}

impl BloomRenderer {
    /// The texture holding the rendered text, if one is held.
    pub closed spec fn text_texture(&self) -> Option<u32> {
        self.text_tex
    }

    /// The bloom targets, if they are held.
    pub closed spec fn targets(&self) -> Option<BloomTargets> {
        self.bloom_targets
    }

    /// The size the bloom targets were made for.
    pub closed spec fn target_size(&self) -> (u32, u32) {
        (self.half_w, self.half_h)
    }

    /// The shader programs.
    pub closed spec fn programs(&self) -> ShaderPrograms {
        ShaderPrograms {
            copy: self.prog_copy,
            sharp: self.prog_sharp,
            blur_h: self.prog_blur_h,
            blur_v: self.prog_blur_v,
        }
    }

    /// The vertex array the passes draw with.
    pub closed spec fn vertex_array(&self) -> u32 {
        self.vao
    }

    /// The font file the text is laid out with.
    pub closed spec fn font(&self) -> Seq<u8> {
        self.font_data@
    }

    /// The textures and framebuffers the renderer owns and must release one day:
    /// the text texture, then the bloom targets.
    pub open spec fn owned(&self) -> Seq<GlResource> {
        optional_texture(self.text_texture()) + match self.targets() {
            Some(t) => target_resources(t),
            None => Seq::empty(),
        }
    }

    /// What a teardown releases, in order: the four programs (copy, sharp, horizontal
    /// blur, vertical blur), the text texture, the bloom textures and framebuffers,
    /// the vertex array.
    pub open spec fn teardown_release(&self) -> Seq<GlResource> {
        seq![
            GlResource::Program(self.programs().copy),
            GlResource::Program(self.programs().sharp),
            GlResource::Program(self.programs().blur_h),
            GlResource::Program(self.programs().blur_v),
        ] + optional_texture(self.text_texture()) + teardown_order(self.targets())
            + seq![GlResource::VertexArray(self.vertex_array())]
    }

    /// Whether a frame whose bloom targets are `half_w` by `half_h` must make them anew:
    /// unless targets are held that were made for exactly that size.
    pub open spec fn needs_targets(&self, half_w: u32, half_h: u32) -> bool {
        !(self.targets() is Some && self.target_size() == (half_w, half_h))
    }

    /// A renderer that draws with the given programs and vertex array and lays text out
    /// with `font_data`; it holds no texture or target yet.
    pub fn new(programs: ShaderPrograms, vao: u32, font_data: Vec<u8>) -> (r: Self)
        ensures
            r.text_texture() is None,
            r.targets() is None,
            r.target_size() == (0u32, 0u32),
            r.programs() == programs,
            r.vertex_array() == vao,
            r.font() == font_data@,
            r.owned() == Seq::<GlResource>::empty(),
    {
        let r = BloomRenderer {
            text_tex: None,
            bloom_targets: None,
            prog_copy: programs.copy,
            prog_sharp: programs.sharp,
            prog_blur_h: programs.blur_h,
            prog_blur_v: programs.blur_v,
            vao,
            half_w: 0,
            half_h: 0,
            font_data,
        };
        assert(r.owned() =~= Seq::<GlResource>::empty());
        r
    }

    /// The font file the text is laid out with.
    pub fn font_data(&self) -> (r: &Vec<u8>)
        ensures
            r@ == self.font(),
    {
        &self.font_data
    }

    /// Whether the renderer holds a text texture.
    pub fn holds_text_texture(&self) -> (r: bool)
        ensures
            r == self.text_texture() is Some,
    {
        self.text_tex.is_some()
    }

    /// Whether the renderer holds bloom targets.
    pub fn holds_targets(&self) -> (r: bool)
        ensures
            r == self.targets() is Some,
    {
        self.bloom_targets.is_some()
    }

    /// The shader programs.
    pub fn shader_programs(&self) -> (r: ShaderPrograms)
        ensures
            r == self.programs(),
    {
        ShaderPrograms {
            copy: self.prog_copy,
            sharp: self.prog_sharp,
            blur_h: self.prog_blur_h,
            blur_v: self.prog_blur_v,
        }
    }

    /// The vertex array the passes draw with.
    pub fn vertex_array_name(&self) -> (r: u32)
        ensures
            r == self.vertex_array(),
    {
        self.vao
    }

    /// Keeps the bloom targets if they were made for `half_w` by `half_h`; otherwise
    /// gives up the ones held, returning them for release (framebuffer A, texture A,
    /// framebuffer B, texture B), after which new ones must be installed.
    /// Returns `None` when the targets are kept.
    pub fn ensure_fbos(&mut self, half_w: u32, half_h: u32) -> (r: Option<Vec<GlResource>>)
        ensures
            r is None <==> !old(self).needs_targets(half_w, half_h),
            r is None ==> *final(self) == *old(self),
            r matches Some(release) ==> {
                &&& release@ == match old(self).targets() {
                    Some(t) => target_resources(t),
                    None => Seq::empty(),
                }
                &&& final(self).targets() is None
                &&& final(self).text_texture() == old(self).text_texture()
                &&& final(self).target_size() == old(self).target_size()
                &&& final(self).programs() == old(self).programs()
                &&& final(self).vertex_array() == old(self).vertex_array()
                &&& final(self).font() == old(self).font()
            },
    {
        if self.half_w == half_w && self.half_h == half_h && self.bloom_targets.is_some() {
            return None;
        }
        let mut release: Vec<GlResource> = Vec::new();
        if let Some(t) = self.bloom_targets {
            release.push(GlResource::Framebuffer(t.fbo_a));
            release.push(GlResource::Texture(t.tex_a));
            release.push(GlResource::Framebuffer(t.fbo_b));
            release.push(GlResource::Texture(t.tex_b));
        }
        self.bloom_targets = None;
        Some(release)
    }

    /// Begins drawing text into a `win_w` by `win_h` window. A window with no area
    /// draws nothing, and nothing changes. Otherwise the held text texture is given up
    /// for release and the font is parsed: when it does not parse the frame ends there;
    /// when it does, the font and the bloom target size (a quarter of each window side,
    /// at least one pixel) are handed over. The bloom targets are left as they are: once
    /// the new text texture is installed, `ensure_fbos` decides on them.
    pub fn render_text(&mut self, win_w: u32, win_h: u32) -> (r: FrameStart)
        ensures
            (win_w == 0 || win_h == 0) <==> r is Skip,
            r is Skip ==> *final(self) == *old(self),
            !(r is Skip) ==> {
                &&& final(self).text_texture() is None
                &&& final(self).targets() == old(self).targets()
                &&& final(self).target_size() == old(self).target_size()
                &&& final(self).programs() == old(self).programs()
                &&& final(self).vertex_array() == old(self).vertex_array()
                &&& final(self).font() == old(self).font()
                &&& final(self).owned() == match old(self).targets() {
                    Some(t) => target_resources(t),
                    None => Seq::empty(),
                }
            },
            r matches FrameStart::InvalidFont { release } ==> {
                &&& !font_parses(old(self).font())
                &&& release@ == optional_texture(old(self).text_texture())
                &&& release@ + final(self).owned() == old(self).owned()
            },
            r matches FrameStart::Draw(setup) ==> {
                &&& font_parses(old(self).font())
                &&& setup.release@ == optional_texture(old(self).text_texture())
                &&& setup.release@ + final(self).owned() == old(self).owned()
                &&& setup.bloom_w == bloom_extent_spec(win_w)
                &&& setup.bloom_h == bloom_extent_spec(win_h)
            },
    {
        if win_w == 0 || win_h == 0 {
            return FrameStart::Skip;
        }
        let mut release: Vec<GlResource> = Vec::new();
        if let Some(tex) = self.text_tex {
            release.push(GlResource::Texture(tex));
        }
        self.text_tex = None;
        let data = self.font_data.clone();
        assert(data@ =~= self.font_data@);
        match load_font(data) {
            Ok(font) => {
                let bloom_w = bloom_extent(win_w);
                let bloom_h = bloom_extent(win_h);
                proof {
                    assert(release@ =~= optional_texture(old(self).text_texture()));
                }
                FrameStart::Draw(FrameSetup { release, font, bloom_w, bloom_h })
            },
            Err(_) => {
                assert(release@ =~= optional_texture(old(self).text_texture()));
                FrameStart::InvalidFont { release }
            },
        }
    }

    /// Takes ownership of the texture holding this frame's text.
    pub fn install_text_texture(&mut self, tex: u32)
        requires
            old(self).text_texture() is None,
        ensures
            final(self).text_texture() == Some(tex),
            final(self).targets() == old(self).targets(),
            final(self).target_size() == old(self).target_size(),
            final(self).programs() == old(self).programs(),
            final(self).vertex_array() == old(self).vertex_array(),
            final(self).font() == old(self).font(),
            final(self).owned() == seq![GlResource::Texture(tex)] + old(self).owned(),
    {
        self.text_tex = Some(tex);
        assert(self.owned() =~= seq![GlResource::Texture(tex)] + old(self).owned());
    }

    /// Takes ownership of new bloom targets made for `half_w` by `half_h`.
    pub fn install_targets(&mut self, targets: BloomTargets, half_w: u32, half_h: u32)
        requires
            old(self).targets() is None,
        ensures
            final(self).targets() == Some(targets),
            final(self).target_size() == (half_w, half_h),
            !final(self).needs_targets(half_w, half_h),
            final(self).text_texture() == old(self).text_texture(),
            final(self).programs() == old(self).programs(),
            final(self).vertex_array() == old(self).vertex_array(),
            final(self).font() == old(self).font(),
            final(self).owned() == optional_texture(old(self).text_texture()) + target_resources(targets),
    {
        self.bloom_targets = Some(targets);
        self.half_w = half_w;
        self.half_h = half_h;
    }

    /// The passes that draw this frame, once its text texture and bloom targets are held.
    pub fn frame_passes(&self) -> (r: Vec<DrawPass>)
        requires
            self.text_texture() is Some,
            self.targets() is Some,
        ensures
            r@ == bloom_passes_spec(
                self.text_texture().unwrap(),
                self.targets().unwrap(),
                self.programs(),
                self.target_size().0,
                self.target_size().1,
            ),
    {
        let text = match self.text_tex {
            Some(t) => t,
            None => 0,
        };
        let targets = match self.bloom_targets {
            Some(t) => t,
            None => BloomTargets { fbo_a: 0, tex_a: 0, fbo_b: 0, tex_b: 0 },
        };
        bloom_passes(text, targets, self.shader_programs(), self.half_w, self.half_h)
    }

    /// Gives up every GPU object, returning them for release in this order: the four
    /// programs (copy, sharp, horizontal blur, vertical blur), the text texture, the
    /// two bloom textures, the two bloom framebuffers, the vertex array. Afterwards the
    /// renderer holds no texture or framebuffer.
    pub fn destroy(&mut self) -> (r: Vec<GlResource>)
        ensures
            r@ == old(self).teardown_release(),
            final(self).text_texture() is None,
            final(self).targets() is None,
            final(self).owned() == Seq::<GlResource>::empty(),
            final(self).target_size() == old(self).target_size(),
            final(self).programs() == old(self).programs(),
            final(self).vertex_array() == old(self).vertex_array(),
            final(self).font() == old(self).font(),
    {
        let mut r: Vec<GlResource> = Vec::new();
        r.push(GlResource::Program(self.prog_copy));
        r.push(GlResource::Program(self.prog_sharp));
        r.push(GlResource::Program(self.prog_blur_h));
        r.push(GlResource::Program(self.prog_blur_v));
        if let Some(tex) = self.text_tex {
            r.push(GlResource::Texture(tex));
        }
        self.text_tex = None;
        if let Some(t) = self.bloom_targets {
            r.push(GlResource::Texture(t.tex_a));
            r.push(GlResource::Texture(t.tex_b));
            r.push(GlResource::Framebuffer(t.fbo_a));
            r.push(GlResource::Framebuffer(t.fbo_b));
        }
        self.bloom_targets = None;
        r.push(GlResource::VertexArray(self.vao));
        proof {
            assert(r@ =~= old(self).teardown_release());
            assert(self.owned() =~= Seq::<GlResource>::empty());
        }
        r
    }
}

/// Whether a resource is one the renderer owns and gives back: a texture or a framebuffer.
pub open spec fn is_owned_kind(x: GlResource) -> bool {
    x is Texture || x is Framebuffer
}

/// A teardown releases every texture and framebuffer the renderer owns, and no other
/// texture or framebuffer: nothing is leaked and nothing foreign is deleted.
pub proof fn lemma_teardown_releases_exactly_owned(r: BloomRenderer)
    ensures
        forall|x: GlResource|
            r.owned().contains(x) <==> (r.teardown_release().contains(x) && is_owned_kind(x)),
{
    let owned = r.owned();
    let rel = r.teardown_release();
    assert forall|x: GlResource| #[trigger] owned.contains(x) implies (rel.contains(x) && is_owned_kind(x)) by {
        let i = choose|i: int| 0 <= i < owned.len() && owned[i] == x;
        let tl: int = optional_texture(r.text_texture()).len() as int;
        if i < tl {
            assert(rel[4] == x);
        } else {
            let t = r.targets().unwrap();
            let k = i - tl;
            if k == 0 { assert(rel[4 + tl + 2] == x); }
            else if k == 1 { assert(rel[4 + tl] == x); }
            else if k == 2 { assert(rel[4 + tl + 3] == x); }
            else { assert(rel[4 + tl + 1] == x); }
        }
    }
    assert forall|x: GlResource| #[trigger] rel.contains(x) && is_owned_kind(x) implies owned.contains(x) by {
        let i = choose|i: int| 0 <= i < rel.len() && rel[i] == x;
        let tl: int = optional_texture(r.text_texture()).len() as int;
        if i < 4 + tl {
            assert(owned[0] == x);
        } else if i < rel.len() - 1 {
            let k = i - 4 - tl;
            if k == 0 { assert(owned[tl + 1] == x); }
            else if k == 1 { assert(owned[tl + 3] == x); }
            else if k == 2 { assert(owned[tl + 0] == x); }
            else { assert(owned[tl + 2] == x); }
        }
    }
    assert forall|x: GlResource| #[trigger] owned.contains(x) <==> (rel.contains(x) && is_owned_kind(x)) by {
        if owned.contains(x) {
            assert(rel.contains(x) && is_owned_kind(x));
        }
        if rel.contains(x) && is_owned_kind(x) {
            assert(owned.contains(x));
        }
    }
}

/// A frame at the same window size as the frame before keeps the bloom targets that
/// frame installed: targets made for a window's bloom size are not made again.
pub proof fn lemma_same_window_keeps_targets(r: BloomRenderer, win_w: u32, win_h: u32)
    requires
        r.targets() is Some,
        r.target_size() == (bloom_extent_spec(win_w), bloom_extent_spec(win_h)),
    ensures
        !r.needs_targets(bloom_extent_spec(win_w), bloom_extent_spec(win_h)),
{
}

/// After a teardown, tearing down again releases no texture and no framebuffer: none
/// is deleted twice.
pub proof fn lemma_teardown_twice_releases_no_texture_again(r: BloomRenderer)
    requires
        r.owned() == Seq::<GlResource>::empty(),
    ensures
        forall|i: int| 0 <= i < r.teardown_release().len() ==> !is_owned_kind(#[trigger] r.teardown_release()[i]),
{
    assert(r.text_texture() is None) by {
        if r.text_texture() is Some {
            assert(r.owned()[0] == GlResource::Texture(r.text_texture().unwrap()));
        }
    }
    assert(r.targets() is None) by {
        if r.targets() is Some {
            assert(r.owned().len() >= 4);
        }
    }
}

/// Bloom targets are kept for exactly the size they were made for: a frame needs new
/// ones when none are held, when the held ones are of another width, or when they are
/// of another height; and it needs none when both sides match.
pub proof fn lemma_targets_kept_only_at_their_size(r: BloomRenderer, half_w: u32, half_h: u32)
    ensures
        r.targets() is None ==> r.needs_targets(half_w, half_h),
        r.target_size().0 != half_w ==> r.needs_targets(half_w, half_h),
        r.target_size().1 != half_h ==> r.needs_targets(half_w, half_h),
        (r.targets() is Some && r.target_size().0 == half_w && r.target_size().1 == half_h)
            ==> !r.needs_targets(half_w, half_h),
{
}

} // verus!
