//! Drawing polygons into the frame: the per-fragment tests and writes of
//! opaque and translucent polygons, line by line.
use vstd::prelude::*;
use crate::video::memory::mapping::Engine3DVRAM;
use crate::video::video3d::drawing::{
    blend_frag_tex_colour, blend_fragment_colour, spec_blend_fragment, spec_blend_tex, ColourAlpha, PolygonMode,
};
use crate::video::video3d::palette::{Colour, TexPaletteCache, TEX_PALETTE_COLOURS};
use crate::video::video3d::raster::{
    find_intersect_points, interp_factor, interpolate_attrs, lerp_attrs, lerp_fx, scan_defined, spec_intersect,
    spec_test_depth, test_depth, weighted_defined, weighted_factor, ScreenVertex,
};
use crate::video::video3d::types::{Polygon, PolygonAttrs, PolygonOrder, PolygonRAM, TextureAttrs};

verus! {

/// Width and height of the frame in pixels.
pub const FRAME_WIDTH: usize = 256;
pub const FRAME_HEIGHT: usize = 192;
pub const FRAME_PIXELS: usize = 0xC000;

/// Per-pixel attributes kept beside the frame.
#[derive(Clone, Copy, PartialEq, Eq, Structural, Debug)]
pub struct Attributes {
    pub opaque_id: u8,
    /// The id of the last translucent polygon drawn here, if any.
    pub trans_id: Option<u8>,
    pub fog: bool,
    pub edge: bool,
}

/// Display control: blend translucent fragments with the frame.
pub const CONTROL_BLENDING: u16 = 0x0008;
/// Display control: drop fragments below the alpha test value.
pub const CONTROL_ALPHA_TEST: u16 = 0x0004;
/// Display control: toon polygons are highlight-shaded.
pub const CONTROL_HIGHLIGHT: u16 = 0x0002;

/// The settings of the rendering engine that drawing reads.
pub struct RenderSettings {
    pub control: u16,
    pub alpha_test: u8,
    pub toon_table: [Colour; 32],
    pub edge_colour: [Colour; 8],
    pub clear_colour: Colour,
    pub clear_alpha: u8,
    pub clear_poly_id: u8,
    pub clear_depth: i32,
    pub clear_image_x: u8,
    pub clear_image_y: u8,
    pub fog_enabled: bool,
    pub fog_colour: Colour,
    pub fog_alpha: u8,
    pub fog_offset: u16,
    pub fog_table: [u8; 32],
}

/// Display control: mark the edges of opaque polygons.
pub const CONTROL_EDGE_MARKING: u16 = 0x0020;
/// Display control: blend fog into the frame.
pub const CONTROL_FOG: u16 = 0x0080;

/// Display control: fog changes only the alpha.
pub const CONTROL_FOG_ALPHA_ONLY: u16 = 0x0040;

/// Display control: clear from the clear images in texture slots 2 and 3.
pub const CONTROL_CLEAR_IMAGE: u16 = 0x4000;

/// A polygon's attributes as drawing reads them.
#[derive(Clone, Copy)]
pub struct PolygonDraw {
    pub attrs: PolygonAttrs,
    pub tex: TextureAttrs,
    pub palette: u16,
}

/// Polygon attributes: fog blending, depth test on equal depth, and the
/// depth of translucent fragments is kept.
pub const POLY_FOG: u32 = 0x8000;
pub const POLY_RENDER_EQ: u32 = 0x4000;
pub const POLY_ALPHA_DEPTH: u32 = 0x0800;

pub open spec fn poly_mode(attrs: PolygonAttrs) -> PolygonMode {
    let m = (attrs.bits / 0x10) % 4;
    if m == 0 {
        PolygonMode::Modulation
    } else if m == 1 {
        PolygonMode::Decal
    } else if m == 2 {
        PolygonMode::ToonHighlight
    } else {
        PolygonMode::Shadow
    }
}

pub open spec fn poly_id(attrs: PolygonAttrs) -> u8 {
    ((attrs.bits / 0x100_0000) % 0x40) as u8
}

pub open spec fn poly_alpha(attrs: PolygonAttrs) -> u8 {
    ((attrs.bits / 0x1_0000) % 0x20) as u8
}

pub open spec fn has_flag(attrs: PolygonAttrs, flag: u32) -> bool {
    attrs.bits & flag != 0
}

fn mode_of(attrs: PolygonAttrs) -> (r: PolygonMode)
    ensures
        r == poly_mode(attrs),
{
    let m = attrs.mode();
    if m == 0 {
        PolygonMode::Modulation
    } else if m == 1 {
        PolygonMode::Decal
    } else if m == 2 {
        PolygonMode::ToonHighlight
    } else {
        PolygonMode::Shadow
    }
}

/// The buffers a frame is drawn into.
pub struct FrameBuffers {
    pub target: Seq<ColourAlpha>,
    pub depth: Seq<i32>,
    pub attrs: Seq<Attributes>,
    pub stencil: Seq<bool>,
}

/// The point of the span from `left` to `right` at column `x`.
pub open spec fn span_point(left: ScreenVertex, right: ScreenVertex, x: i16) -> ScreenVertex {
    let factor = weighted_factor(left.x, right.x, x, left.depth, right.depth);
    let attrs = lerp_attrs(left, right, factor);
    ScreenVertex {
        x,
        y: left.y,
        depth: lerp_fx(left.depth, right.depth, factor),
        colour: attrs.0,
        tex: attrs.1,
    }
}

/// The point of the span from `left` to `right` at column `x`: depth,
/// colour and texture coordinates interpolated perspective-correct.
pub fn interpolate_span(left: &ScreenVertex, right: &ScreenVertex, x: i16) -> (r: ScreenVertex)
    requires
        weighted_defined(left.x, right.x, x, left.depth, right.depth),
    ensures
        r == span_point(*left, *right, x),
{
    let factor = interp_factor(left.x, right.x, x, left.depth, right.depth);
    let attrs = interpolate_attrs(left, right, factor);
    ScreenVertex { x, y: left.y, depth: lerp_fx_exec(left.depth, right.depth, factor), colour: attrs.0, tex: attrs.1 }
}

fn lerp_fx_exec(a: i32, b: i32, factor: i32) -> (r: i32)
    ensures
        r == lerp_fx(a, b, factor),
{
    a.wrapping_add(crate::video::video3d::raster::mul_fx(b.wrapping_sub(a), factor))
}

/// A fragment's colour: its vertex colour blended with its texel where
/// the polygon is textured.
pub open spec fn fragment_colour(
    cache: TexPaletteCache,
    vram: Engine3DVRAM,
    s: RenderSettings,
    poly: PolygonDraw,
    tex: crate::video::video3d::drawing::TexCoords,
    vtx: ColourAlpha,
) -> ColourAlpha {
    let highlight = s.control & CONTROL_HIGHLIGHT != 0;
    match cache.spec_lookup(vram, tex, poly.tex, poly.palette) {
        Some(t) => spec_blend_tex(s.toon_table@, highlight, poly_mode(poly.attrs), vtx, t),
        None => spec_blend_fragment(s.toon_table@, highlight, poly_mode(poly.attrs), vtx),
    }
}

/// Blends a translucent fragment over the frame's colour: an opaque
/// fragment, or one over a transparent pixel, replaces the colour; else
/// the two mix by the fragment's alpha. Shadow fragments keep the frame's
/// alpha, others the greater.
pub open spec fn spec_blend_buffer(frag: ColourAlpha, buffer: ColourAlpha, shadow: bool) -> ColourAlpha {
    if frag.alpha == 0 {
        buffer
    } else if frag.alpha == 0x1F || buffer.alpha == 0 {
        ColourAlpha { col: frag.col, alpha: if shadow { buffer.alpha } else { frag.alpha } }
    } else {
        let fa = frag.alpha + 1;
        let ba = 0x1F - frag.alpha;
        ColourAlpha {
            col: Colour {
                r: ((frag.col.r * fa + buffer.col.r * ba) / 32) as u8,
                g: ((frag.col.g * fa + buffer.col.g * ba) / 32) as u8,
                b: ((frag.col.b * fa + buffer.col.b * ba) / 32) as u8,
            },
            alpha: if shadow { buffer.alpha } else if frag.alpha > buffer.alpha { frag.alpha } else { buffer.alpha },
        }
    }
}

/// Blending a translucent fragment over the frame: a fragment of alpha 0
/// leaves the pixel as it was; one of alpha 31, or any over a transparent
/// pixel, puts its own colour there; in between each channel lands between
/// the fragment's and the pixel's, and the nearer the fragment is to opaque
/// the closer to its colour. The pixel's alpha becomes the greater of the
/// two, except under shadow polygons, which keep it.
pub proof fn lemma_buffer_blend(frag: ColourAlpha, buffer: ColourAlpha, shadow: bool)
    requires
        frag.alpha <= 0x1F,
        buffer.alpha <= 0x1F,
    ensures
        ({
            let out = spec_blend_buffer(frag, buffer, shadow);
            &&& frag.alpha == 0 ==> out == buffer
            &&& frag.alpha != 0 && (frag.alpha == 0x1F || buffer.alpha == 0) ==> out.col == frag.col
            &&& frag.alpha != 0 ==> out.alpha == (if shadow {
                buffer.alpha
            } else if frag.alpha > buffer.alpha {
                frag.alpha
            } else {
                buffer.alpha
            })
            &&& channel_between(out.col.r, frag.col.r, buffer.col.r)
            &&& channel_between(out.col.g, frag.col.g, buffer.col.g)
            &&& channel_between(out.col.b, frag.col.b, buffer.col.b)
            &&& 0 < frag.alpha < 0x1F && buffer.alpha != 0 ==> {
                &&& out.col.r as int * 32 <= frag.col.r * (frag.alpha + 1) + buffer.col.r * (0x1F - frag.alpha)
                &&& frag.col.r * (frag.alpha + 1) + buffer.col.r * (0x1F - frag.alpha) < (out.col.r + 1) * 32
            }
        }),
{
    if 0 < frag.alpha < 0x1F && buffer.alpha != 0 {
        let fa = frag.alpha + 1;
        let ba = 0x1F - frag.alpha;
        lemma_weighted_between(frag.col.r, buffer.col.r, fa, ba);
        lemma_weighted_between(frag.col.g, buffer.col.g, fa, ba);
        lemma_weighted_between(frag.col.b, buffer.col.b, fa, ba);
    }
}

/// `x` lies between `a` and `b`.
pub open spec fn channel_between(x: u8, a: u8, b: u8) -> bool {
    (a <= x <= b) || (b <= x <= a)
}

proof fn lemma_weighted_between(f: u8, b: u8, fa: int, ba: int)
    requires
        0 <= fa <= 32,
        fa + ba == 32,
    ensures
        channel_between(((f * fa + b * ba) / 32) as u8, f, b),
        0 <= (f * fa + b * ba) / 32 <= 255,
        ((f * fa + b * ba) / 32) * 32 <= f * fa + b * ba < ((f * fa + b * ba) / 32 + 1) * 32,
{
    let s = f * fa + b * ba;
    if f <= b {
        assert(f * 32 <= s <= b * 32) by (nonlinear_arith)
            requires s == f * fa + b * ba, fa + ba == 32, f <= b, 0 <= fa <= 32, 0 <= f;
    } else {
        assert(b * 32 <= s <= f * 32) by (nonlinear_arith)
            requires s == f * fa + b * ba, fa + ba == 32, b < f, 0 <= fa <= 32, 0 <= b;
    }
}

/// Fog: a pixel without the fog flag keeps its colour; at no density a
/// fogged channel keeps its value, at full density (127) the pixel takes
/// the fog's colour and alpha (or only its alpha, where the control says),
/// and in between each channel lies between its own value and the fog's.
pub proof fn lemma_fog(t: ColourAlpha, depth: i32, s: RenderSettings, c: u8, fog: u8, density: int)
    requires
        0 <= density <= 128,
    ensures
        fog_pixel(t, false, depth, s) == t,
        fog_mix(c, fog, 0) == c,
        channel_between(fog_mix(c, fog, density), c, fog),
        fog_density(s, (depth / 512) % 0x8000) == 127 && s.control & CONTROL_FOG_ALPHA_ONLY == 0 ==> fog_pixel(t, true, depth, s)
            == (ColourAlpha { col: s.fog_colour, alpha: s.fog_alpha }),
        fog_density(s, (depth / 512) % 0x8000) == 127 && s.control & CONTROL_FOG_ALPHA_ONLY != 0 ==> fog_pixel(t, true, depth, s)
            == (ColourAlpha { col: t.col, alpha: s.fog_alpha }),
{
    let x = c * (128 - density) + fog * density;
    if c <= fog {
        assert(c * 128 <= x <= fog * 128) by (nonlinear_arith)
            requires x == c * (128 - density) + fog * density, c <= fog, 0 <= density <= 128, 0 <= c;
    } else {
        assert(fog * 128 <= x <= c * 128) by (nonlinear_arith)
            requires x == c * (128 - density) + fog * density, fog < c, 0 <= density <= 128, 0 <= fog;
    }
}

fn blend_channel(f: u8, b: u8, fa: u16, ba: u16) -> (r: u8)
    requires
        fa + ba == 32,
    ensures
        r == ((f * fa + b * ba) / 32) as u8,
{
    assert(f * fa <= 255 * 32 && b * ba <= 255 * 32) by (nonlinear_arith)
        requires
            f <= 255,
            b <= 255,
            fa + ba == 32,
            fa >= 0,
            ba >= 0;
    (((f as u16) * fa + (b as u16) * ba) / 32) as u8
}

pub fn blend_buffer_colour(frag: ColourAlpha, buffer: ColourAlpha, shadow: bool) -> (r: ColourAlpha)
    requires
        frag.alpha <= 0x1F,
    ensures
        r == spec_blend_buffer(frag, buffer, shadow),
{
    if frag.alpha == 0 {
        buffer
    } else if frag.alpha == 0x1F || buffer.alpha == 0 {
        ColourAlpha { col: frag.col, alpha: if shadow { buffer.alpha } else { frag.alpha } }
    } else {
        let fa = (frag.alpha + 1) as u16;
        let ba = (0x1F - frag.alpha) as u16;
        ColourAlpha {
            col: Colour {
                r: blend_channel(frag.col.r, buffer.col.r, fa, ba),
                g: blend_channel(frag.col.g, buffer.col.g, fa, ba),
                b: blend_channel(frag.col.b, buffer.col.b, fa, ba),
            },
            alpha: if shadow { buffer.alpha } else if frag.alpha > buffer.alpha { frag.alpha } else { buffer.alpha },
        }
    }
}

/// A pixel is drawn where an edge's neighbour differs in polygon id and
/// lies deeper.
pub open spec fn spec_check_edge(this: (u8, i32), left: (u8, i32), right: (u8, i32), top: (u8, i32), bottom: (u8, i32)) -> bool {
    let deeper = |o: (u8, i32)| this.0 != o.0 && this.1 < o.1;
    deeper(left) || deeper(right) || deeper(top) || deeper(bottom)
}

pub fn check_edge(this: (u8, i32), left: (u8, i32), right: (u8, i32), top: (u8, i32), bottom: (u8, i32)) -> (r: bool)
    ensures
        r == spec_check_edge(this, left, right, top, bottom),
{
    (this.0 != left.0 && this.1 < left.1) || (this.0 != right.0 && this.1 < right.1) || (this.0 != top.0
        && this.1 < top.1) || (this.0 != bottom.0 && this.1 < bottom.1)
}

/// One line of a polygon being drawn: its span from `left` to `right` on
/// line `y`, the columns it covers, the columns the line before covered,
/// and whether it is the polygon's last line.
#[derive(Clone, Copy)]
pub struct SpanLine {
    pub left: ScreenVertex,
    pub right: ScreenVertex,
    pub y: u8,
    pub x_min: i16,
    pub x_max: i16,
    pub prev_min: i16,
    pub prev_max: i16,
    pub last_line: bool,
}

/// A pixel of the span can be drawn: its factor divides by no zero and
/// the colours of its texel are in the palette cache.
pub open spec fn pixel_ok(cache: TexPaletteCache, vram: Engine3DVRAM, poly: PolygonDraw, line: SpanLine, x: i16) -> bool {
    &&& weighted_defined(line.left.x, line.right.x, x, line.left.depth, line.right.depth)
    &&& cache.lookup_fits(vram, span_point(line.left, line.right, x).tex, poly.tex, poly.palette)
}

/// A span lies inside the frame and each of its pixels can be drawn.
pub open spec fn span_ok(cache: TexPaletteCache, vram: Engine3DVRAM, poly: PolygonDraw, line: SpanLine) -> bool {
    &&& line.y < FRAME_HEIGHT
    &&& line.x_min < line.x_max ==> 0 <= line.x_min && line.x_max <= 256
    &&& forall|x: i16| line.x_min <= x < line.x_max ==> #[trigger] pixel_ok(cache, vram, poly, line, x)
}

/// The frame after drawing the pixel at column `x` of an opaque polygon's
/// span: a fragment that passes the depth test (and, for a wireframe
/// polygon, lies on an edge) and is not transparent is written with its
/// depth, the polygon's id, fog flag and whether it is an edge.
pub open spec fn opaque_pixel(
    f: FrameBuffers,
    cache: TexPaletteCache,
    vram: Engine3DVRAM,
    s: RenderSettings,
    poly: PolygonDraw,
    line: SpanLine,
    x: i16,
) -> FrameBuffers {
    let idx = line.y * FRAME_WIDTH + x;
    let p = span_point(line.left, line.right, x);
    let edge = x < line.prev_min || x > line.prev_max || line.last_line || x == line.x_min || x == line.x_max - 1;
    let frag = fragment_colour(cache, vram, s, poly, p.tex, ColourAlpha { col: p.colour, alpha: 0x1F });
    if !spec_test_depth(has_flag(poly.attrs, POLY_RENDER_EQ), f.depth[idx], p.depth) {
        f
    } else if !edge && poly_alpha(poly.attrs) == 0 {
        f
    } else if frag.alpha > 0 {
        FrameBuffers {
            target: f.target.update(idx, frag),
            depth: f.depth.update(idx, p.depth),
            attrs: f.attrs.update(
                idx,
                Attributes {
                    opaque_id: poly_id(poly.attrs),
                    trans_id: f.attrs[idx].trans_id,
                    fog: has_flag(poly.attrs, POLY_FOG),
                    edge,
                },
            ),
            stencil: f.stencil,
        }
    } else {
        f
    }
}

/// The frame after drawing the columns of an opaque span from its first
/// up to `x_end`.
pub open spec fn opaque_span(
    f: FrameBuffers,
    cache: TexPaletteCache,
    vram: Engine3DVRAM,
    s: RenderSettings,
    poly: PolygonDraw,
    line: SpanLine,
    x_end: int,
) -> FrameBuffers
    decreases x_end - line.x_min,
{
    if x_end <= line.x_min {
        f
    } else {
        opaque_pixel(opaque_span(f, cache, vram, s, poly, line, x_end - 1), cache, vram, s, poly, line, (x_end - 1) as i16)
    }
}

/// A fragment's alpha stays within five bits.
proof fn lemma_fragment_alpha(s: RenderSettings, mode: PolygonMode, v: ColourAlpha, t: ColourAlpha)
    requires
        v.alpha <= 0x1F,
        t.alpha <= 0x1F,
    ensures
        spec_blend_tex(s.toon_table@, s.control & CONTROL_HIGHLIGHT != 0, mode, v, t).alpha <= 0x1F,
        spec_blend_fragment(s.toon_table@, s.control & CONTROL_HIGHLIGHT != 0, mode, v).alpha <= 0x1F,
{
    assert(1 <= (v.alpha + 1) * (t.alpha + 1) <= 32 * 32) by (nonlinear_arith)
        requires
            v.alpha <= 0x1F,
            t.alpha <= 0x1F;
    assert(v.alpha * t.alpha <= 31 * 31) by (nonlinear_arith)
        requires
            v.alpha <= 0x1F,
            t.alpha <= 0x1F;
    let m = (v.alpha + 1) * (t.alpha + 1) - 1;
    assert(0 <= m / 32 <= 31) by (nonlinear_arith)
        requires
            0 <= m < 32 * 32;
    let n = v.alpha * t.alpha;
    assert(0 <= n / 32 <= 31) by (nonlinear_arith)
        requires
            0 <= n <= 31 * 31;
}

/// The span of line `y` from `l` to `r`, after a line that covered
/// `prev`.
pub open spec fn span_line(l: ScreenVertex, r: ScreenVertex, y: int, prev: (i16, i16), y_max: int) -> SpanLine {
    SpanLine {
        left: l,
        right: r,
        y: y as u8,
        x_min: l.x,
        x_max: r.x,
        prev_min: prev.0,
        prev_max: prev.1,
        last_line: y == y_max - 1,
    }
}

/// Line `y` of the polygon can be drawn: its crossing points can be
/// found, and a span between two distinct columns lies in the frame with
/// each pixel drawable.
pub open spec fn line_drawable(
    cache: TexPaletteCache,
    vram: Engine3DVRAM,
    poly: PolygonDraw,
    vs: Seq<ScreenVertex>,
    idx: Seq<usize>,
    y: int,
) -> bool {
    &&& scan_defined(vs, idx, y as i16, 0, None, None)
    &&& match spec_intersect(vs, idx, y as i16) {
        Some(pr) => pr.0.x != pr.1.x ==> span_ok(cache, vram, poly, span_line(pr.0, pr.1, y, (0, 0), 0)),
        None => true,
    }
}

/// Every line of the polygon from `y_min` to `y_max` can be drawn, and its
/// vertex indices are in range.
pub open spec fn polygon_drawable(
    cache: TexPaletteCache,
    vram: Engine3DVRAM,
    poly: PolygonDraw,
    vs: Seq<ScreenVertex>,
    idx: Seq<usize>,
    y_min: int,
    y_max: int,
) -> bool {
    &&& forall|i: int| 0 <= i < idx.len() ==> #[trigger] idx[i] < vs.len()
    &&& forall|y: int| y_min <= y < y_max ==> #[trigger] line_drawable(cache, vram, poly, vs, idx, y)
}

/// The frame after drawing the lines of an opaque polygon from `y_min` up
/// to `y_end`, and the columns the last drawn line covered. Lines the
/// polygon does not cross, or crosses at a single column, are passed over.
pub open spec fn opaque_lines(
    f: FrameBuffers,
    cache: TexPaletteCache,
    vram: Engine3DVRAM,
    s: RenderSettings,
    poly: PolygonDraw,
    vs: Seq<ScreenVertex>,
    idx: Seq<usize>,
    y_min: int,
    y_end: int,
    y_max: int,
) -> (FrameBuffers, (i16, i16))
    decreases y_end - y_min,
{
    if y_end <= y_min {
        (f, (256, 0))
    } else {
        let (g, prev) = opaque_lines(f, cache, vram, s, poly, vs, idx, y_min, y_end - 1, y_max);
        let y = y_end - 1;
        match spec_intersect(vs, idx, y as i16) {
            Some(pr) => if pr.0.x == pr.1.x {
                (g, prev)
            } else {
                let line = span_line(pr.0, pr.1, y, prev, y_max);
                (opaque_span(g, cache, vram, s, poly, line, line.x_max as int), (pr.0.x, pr.1.x))
            },
            None => (g, prev),
        }
    }
}

/// The frame after drawing the pixel at column `x` of a translucent
/// polygon's span. A shadow polygon with id 0 only marks the stencil where
/// it fails the depth test; other shadow polygons draw only where the
/// stencil was marked (clearing it) and the opaque id differs. A fragment
/// is dropped where transparent, below the alpha test, or translucent over
/// the same polygon's translucent fragment; else it is written, blended
/// where blending is on. A translucent fragment keeps the opaque id and
/// depth (the depth only where the polygon asks), an opaque one replaces
/// them.
pub open spec fn trans_pixel(
    f: FrameBuffers,
    cache: TexPaletteCache,
    vram: Engine3DVRAM,
    s: RenderSettings,
    poly: PolygonDraw,
    line: SpanLine,
    x: i16,
) -> FrameBuffers {
    let idx = line.y * FRAME_WIDTH + x;
    let shadow = poly_mode(poly.attrs) == PolygonMode::Shadow;
    let id = poly_id(poly.attrs);
    let mask = shadow && id != 0 && f.stencil[idx];
    let f1 = if shadow && id != 0 { FrameBuffers { stencil: f.stencil.update(idx, false), ..f } } else { f };
    let p = span_point(line.left, line.right, x);
    let frag = fragment_colour(cache, vram, s, poly, p.tex, ColourAlpha { col: p.colour, alpha: poly_alpha(poly.attrs) });
    let a = f1.attrs[idx];
    if !spec_test_depth(has_flag(poly.attrs, POLY_RENDER_EQ), f1.depth[idx], p.depth) {
        if shadow && id == 0 { FrameBuffers { stencil: f1.stencil.update(idx, true), ..f1 } } else { f1 }
    } else if shadow && (id == 0 || !mask || a.opaque_id == id) {
        f1
    } else if frag.alpha == 0 {
        f1
    } else if s.control & CONTROL_ALPHA_TEST != 0 && frag.alpha < s.alpha_test {
        f1
    } else if frag.alpha != 0x1F && a.trans_id == Some(id) {
        f1
    } else {
        let colour = if s.control & CONTROL_BLENDING != 0 { spec_blend_buffer(frag, f1.target[idx], shadow) } else { frag };
        if frag.alpha != 0x1F {
            FrameBuffers {
                target: f1.target.update(idx, colour),
                depth: if has_flag(poly.attrs, POLY_ALPHA_DEPTH) { f1.depth.update(idx, p.depth) } else { f1.depth },
                attrs: f1.attrs.update(idx, Attributes { trans_id: Some(id), fog: a.fog && has_flag(poly.attrs, POLY_FOG), ..a }),
                stencil: f1.stencil,
            }
        } else {
            FrameBuffers {
                target: f1.target.update(idx, colour),
                depth: f1.depth.update(idx, p.depth),
                attrs: f1.attrs.update(idx, Attributes { opaque_id: id, fog: has_flag(poly.attrs, POLY_FOG), ..a }),
                stencil: f1.stencil,
            }
        }
    }
}

/// The frame after drawing the columns of a translucent span from its
/// first up to `x_end`.
pub open spec fn trans_span(
    f: FrameBuffers,
    cache: TexPaletteCache,
    vram: Engine3DVRAM,
    s: RenderSettings,
    poly: PolygonDraw,
    line: SpanLine,
    x_end: int,
) -> FrameBuffers
    decreases x_end - line.x_min,
{
    if x_end <= line.x_min {
        f
    } else {
        trans_pixel(trans_span(f, cache, vram, s, poly, line, x_end - 1), cache, vram, s, poly, line, (x_end - 1) as i16)
    }
}

/// The frame after drawing the lines of a translucent polygon from
/// `y_min` up to `y_end`.
pub open spec fn trans_lines(
    f: FrameBuffers,
    cache: TexPaletteCache,
    vram: Engine3DVRAM,
    s: RenderSettings,
    poly: PolygonDraw,
    vs: Seq<ScreenVertex>,
    idx: Seq<usize>,
    y_min: int,
    y_end: int,
) -> FrameBuffers
    decreases y_end - y_min,
{
    if y_end <= y_min {
        f
    } else {
        let g = trans_lines(f, cache, vram, s, poly, vs, idx, y_min, y_end - 1);
        let y = y_end - 1;
        match spec_intersect(vs, idx, y as i16) {
            Some(pr) => if pr.0.x == pr.1.x {
                g
            } else {
                let line = span_line(pr.0, pr.1, y, (0, 0), 0);
                trans_span(g, cache, vram, s, poly, line, line.x_max as int)
            },
            None => g,
        }
    }
}

/// The screen line of a 20.12 fixed-point value: its whole part, rounded
/// down, in eight bits.
pub open spec fn order_line(n: i32) -> u8 {
    (n / 4096) as u8
}

pub open spec fn draw_of(p: Polygon) -> PolygonDraw {
    PolygonDraw { attrs: p.attrs, tex: p.tex, palette: p.palette }
}

/// Every polygon the orders name is in the list and can be drawn.
pub open spec fn orders_drawable(
    cache: TexPaletteCache,
    vram: Engine3DVRAM,
    orders: Seq<PolygonOrder>,
    polys: Seq<Polygon>,
    vs: Seq<ScreenVertex>,
) -> bool {
    forall|k: int|
        0 <= k < orders.len() ==> {
            let o = #[trigger] orders[k];
            &&& o.polygon_index < polys.len()
            &&& polygon_drawable(
                cache,
                vram,
                draw_of(polys[o.polygon_index as int]),
                vs,
                polys[o.polygon_index as int].vertex_indices@,
                order_line(o.y_min) as int,
                order_line(o.y_max) as int,
            )
        }
}

/// The frame after drawing the first `n` polygons of the orders as opaque
/// (`opaque`) or translucent polygons.
pub open spec fn polygons_drawn(
    f: FrameBuffers,
    cache: TexPaletteCache,
    vram: Engine3DVRAM,
    s: RenderSettings,
    orders: Seq<PolygonOrder>,
    polys: Seq<Polygon>,
    vs: Seq<ScreenVertex>,
    n: int,
    opaque: bool,
) -> FrameBuffers
    decreases n,
{
    if n <= 0 {
        f
    } else {
        let g = polygons_drawn(f, cache, vram, s, orders, polys, vs, n - 1, opaque);
        let o = orders[n - 1];
        let p = polys[o.polygon_index as int];
        let (lo, hi) = (order_line(o.y_min) as int, order_line(o.y_max) as int);
        if opaque {
            opaque_lines(g, cache, vram, s, draw_of(p), vs, p.vertex_indices@, lo, hi, hi).0
        } else {
            trans_lines(g, cache, vram, s, draw_of(p), vs, p.vertex_indices@, lo, hi)
        }
    }
}

/// The id and depth the edge test compares with: a neighbour's inside the
/// frame, the clear values beyond its border.
pub open spec fn neighbour(f: FrameBuffers, s: RenderSettings, inside: bool, j: int) -> (u8, i32) {
    if inside { (f.attrs[j].opaque_id, f.depth[j]) } else { (s.clear_poly_id, s.clear_depth) }
}

/// A pixel after edge marking: an edge pixel with a neighbour of another
/// polygon lying deeper takes the edge colour of its polygon id's group.
pub open spec fn edge_marked(f: FrameBuffers, s: RenderSettings, i: int) -> ColourAlpha {
    let x = i % 256;
    let y = i / 256;
    let this = (f.attrs[i].opaque_id, f.depth[i]);
    if f.attrs[i].edge && spec_check_edge(
        this,
        neighbour(f, s, x > 0, i - 1),
        neighbour(f, s, x < 255, i + 1),
        neighbour(f, s, y > 0, i - 256),
        neighbour(f, s, y < 191, i + 256),
    ) {
        ColourAlpha { col: s.edge_colour@[(this.0 / 8) as int], alpha: f.target[i].alpha }
    } else {
        f.target[i]
    }
}

/// The attributes a cleared pixel takes.
pub open spec fn clear_attrs(s: RenderSettings, fog: bool) -> Attributes {
    Attributes { opaque_id: s.clear_poly_id, trans_id: None, fog, edge: false }
}

/// Where the clear images are read for pixel `i`: its position moved by
/// the image offsets, wrapping round the 256x256 image, two bytes a pixel.
pub open spec fn clear_image_addr(s: RenderSettings, i: int) -> int {
    let x = (i % 256 + s.clear_image_x) % 256;
    let y = (i / 256 + s.clear_image_y) % 256;
    y * 512 + x * 2
}

/// The frame cleared: from the clear images where the control asks
/// (colour, opacity by bit 15; depth from 15 bits, fog by bit 15), else to
/// the clear colour, depth and fog flag; the stencil cleared everywhere.
pub open spec fn cleared(f: FrameBuffers, s: RenderSettings, vram: Engine3DVRAM) -> FrameBuffers {
    let n = FRAME_PIXELS as nat;
    if s.control & CONTROL_CLEAR_IMAGE != 0 {
        let colour = |i: int| crate::ram::spec_le16(vram.tex_2.unwrap()@, clear_image_addr(s, i));
        let depth = |i: int| crate::ram::spec_le16(vram.tex_3.unwrap()@, clear_image_addr(s, i));
        FrameBuffers {
            target: Seq::new(
                n,
                |i: int|
                    ColourAlpha {
                        col: Colour::spec_from_555(colour(i)),
                        alpha: if colour(i) / 0x8000 == 1 { 0x1F } else { 0 },
                    },
            ),
            depth: Seq::new(n, |i: int| ((depth(i) % 0x8000) * 512) as i32),
            attrs: Seq::new(n, |i: int| clear_attrs(s, depth(i) / 0x8000 == 1)),
            stencil: Seq::new(n, |i: int| false),
        }
    } else {
        FrameBuffers {
            target: Seq::new(n, |i: int| ColourAlpha { col: s.clear_colour, alpha: s.clear_alpha }),
            depth: Seq::new(n, |i: int| s.clear_depth),
            attrs: Seq::new(n, |i: int| clear_attrs(s, s.fog_enabled)),
            stencil: Seq::new(n, |i: int| false),
        }
    }
}

/// The clear images can be read where the control asks for them.
pub open spec fn clear_ready(s: RenderSettings, vram: Engine3DVRAM) -> bool {
    s.control & CONTROL_CLEAR_IMAGE != 0 ==> {
        &&& vram.tex_2 is Some && vram.tex_2.unwrap()@.len() >= 0x2_0000
        &&& vram.tex_3 is Some && vram.tex_3.unwrap()@.len() >= 0x2_0000
    }
}

/// The fog density at a depth (its upper 15 bits): the first entry of the
/// table up to one step past the fog offset, the last from 32 steps on,
/// and between them interpolated between the two nearest entries. A step
/// is 0x400 shifted down by the control's fog shift.
pub open spec fn fog_density(s: RenderSettings, depth: int) -> int {
    let shift = (s.control / 0x100) % 16;
    let interval = (0x400u16 >> shift as u16) as int;
    let fog_min = ((s.fog_offset + interval) % 0x1_0000) as int;
    let fog_max = ((s.fog_offset + interval * 32) % 0x1_0000) as int;
    if depth < fog_min {
        s.fog_table@[0] as int
    } else if depth >= fog_max {
        s.fog_table@[31] as int
    } else {
        let q = (depth - fog_min) * 512 / interval;
        let lo = q / 512;
        let frac = q % 512;
        let hi = if frac == 0 { lo } else { lo + 1 };
        (s.fog_table@[lo] * (512 - frac) + s.fog_table@[hi] * frac) / 512
    }
}

/// One channel moved toward the fog's by the density, out of 128.
pub open spec fn fog_mix(c: u8, fog: u8, density: int) -> u8 {
    ((c * (128 - density) + fog * density) / 128) as u8
}

/// A pixel after fog: pixels with the fog flag move toward the fog colour
/// and alpha (only the alpha where the control asks) by the density at
/// their depth; at full density they take the fog's values.
pub open spec fn fogged(f: FrameBuffers, s: RenderSettings, i: int) -> ColourAlpha {
    fog_pixel(f.target[i], f.attrs[i].fog, f.depth[i], s)
}

/// A pixel of colour `t` and depth `depth` after fog.
pub open spec fn fog_pixel(t: ColourAlpha, fog: bool, depth: i32, s: RenderSettings) -> ColourAlpha {
    let density = fog_density(s, (depth / 512) % 0x8000);
    if !fog {
        t
    } else if s.control & CONTROL_FOG_ALPHA_ONLY != 0 {
        ColourAlpha { col: t.col, alpha: if density == 127 { s.fog_alpha } else { fog_mix(t.alpha, s.fog_alpha, density) } }
    } else if density == 127 {
        ColourAlpha { col: s.fog_colour, alpha: s.fog_alpha }
    } else {
        ColourAlpha {
            col: Colour {
                r: fog_mix(t.col.r, s.fog_colour.r, density),
                g: fog_mix(t.col.g, s.fog_colour.g, density),
                b: fog_mix(t.col.b, s.fog_colour.b, density),
            },
            alpha: fog_mix(t.alpha, s.fog_alpha, density),
        }
    }
}

/// Every edge pixel holds a polygon id of six bits.
pub open spec fn edge_ids_ok(f: FrameBuffers) -> bool {
    forall|i: int| 0 <= i < f.attrs.len() ==> #[trigger] f.attrs[i].edge ==> f.attrs[i].opaque_id < 64
}

/// Drawing a pixel writes only six-bit polygon ids, and keeps the
/// buffers' lengths.
proof fn lemma_pixel_ids(f: FrameBuffers, cache: TexPaletteCache, vram: Engine3DVRAM, s: RenderSettings, poly: PolygonDraw, line: SpanLine, x: i16)
    requires
        edge_ids_ok(f),
        0 <= line.y * FRAME_WIDTH + x < f.attrs.len(),
    ensures
        edge_ids_ok(opaque_pixel(f, cache, vram, s, poly, line, x)),
        opaque_pixel(f, cache, vram, s, poly, line, x).attrs.len() == f.attrs.len(),
        edge_ids_ok(trans_pixel(f, cache, vram, s, poly, line, x)),
        trans_pixel(f, cache, vram, s, poly, line, x).attrs.len() == f.attrs.len(),
{
    assert(poly_id(poly.attrs) < 64);
    let g = opaque_pixel(f, cache, vram, s, poly, line, x);
    assert forall|i: int| 0 <= i < g.attrs.len() implies #[trigger] g.attrs[i].edge ==> g.attrs[i].opaque_id < 64 by {
        assert(f.attrs[i].edge ==> f.attrs[i].opaque_id < 64);
    }
    let h = trans_pixel(f, cache, vram, s, poly, line, x);
    assert forall|i: int| 0 <= i < h.attrs.len() implies #[trigger] h.attrs[i].edge ==> h.attrs[i].opaque_id < 64 by {
        assert(f.attrs[i].edge ==> f.attrs[i].opaque_id < 64);
    }
}

proof fn lemma_opaque_span_ids(f: FrameBuffers, cache: TexPaletteCache, vram: Engine3DVRAM, s: RenderSettings, poly: PolygonDraw, line: SpanLine, x_end: int)
    requires
        edge_ids_ok(f),
        f.attrs.len() == FRAME_PIXELS,
        line.y < FRAME_HEIGHT,
        line.x_min < x_end ==> 0 <= line.x_min && x_end <= 256,
    ensures
        edge_ids_ok(opaque_span(f, cache, vram, s, poly, line, x_end)),
        opaque_span(f, cache, vram, s, poly, line, x_end).attrs.len() == f.attrs.len(),
    decreases x_end - line.x_min,
{
    if x_end > line.x_min {
        lemma_opaque_span_ids(f, cache, vram, s, poly, line, x_end - 1);
        lemma_pixel_ids(opaque_span(f, cache, vram, s, poly, line, x_end - 1), cache, vram, s, poly, line, (x_end - 1) as i16);
    }
}

proof fn lemma_trans_span_ids(f: FrameBuffers, cache: TexPaletteCache, vram: Engine3DVRAM, s: RenderSettings, poly: PolygonDraw, line: SpanLine, x_end: int)
    requires
        edge_ids_ok(f),
        f.attrs.len() == FRAME_PIXELS,
        line.y < FRAME_HEIGHT,
        line.x_min < x_end ==> 0 <= line.x_min && x_end <= 256,
    ensures
        edge_ids_ok(trans_span(f, cache, vram, s, poly, line, x_end)),
        trans_span(f, cache, vram, s, poly, line, x_end).attrs.len() == f.attrs.len(),
    decreases x_end - line.x_min,
{
    if x_end > line.x_min {
        lemma_trans_span_ids(f, cache, vram, s, poly, line, x_end - 1);
        lemma_pixel_ids(trans_span(f, cache, vram, s, poly, line, x_end - 1), cache, vram, s, poly, line, (x_end - 1) as i16);
    }
}

proof fn lemma_lines_ids(
    f: FrameBuffers,
    cache: TexPaletteCache,
    vram: Engine3DVRAM,
    s: RenderSettings,
    poly: PolygonDraw,
    vs: Seq<ScreenVertex>,
    idx: Seq<usize>,
    y_min: int,
    y_end: int,
    y_max: int,
)
    requires
        edge_ids_ok(f),
        f.attrs.len() == FRAME_PIXELS,
        forall|y: int| y_min <= y < y_end ==> #[trigger] line_drawable(cache, vram, poly, vs, idx, y),
    ensures
        edge_ids_ok(opaque_lines(f, cache, vram, s, poly, vs, idx, y_min, y_end, y_max).0),
        opaque_lines(f, cache, vram, s, poly, vs, idx, y_min, y_end, y_max).0.attrs.len() == f.attrs.len(),
        edge_ids_ok(trans_lines(f, cache, vram, s, poly, vs, idx, y_min, y_end)),
        trans_lines(f, cache, vram, s, poly, vs, idx, y_min, y_end).attrs.len() == f.attrs.len(),
    decreases y_end - y_min,
{
    if y_end > y_min {
        lemma_lines_ids(f, cache, vram, s, poly, vs, idx, y_min, y_end - 1, y_max);
        let (g, prev) = opaque_lines(f, cache, vram, s, poly, vs, idx, y_min, y_end - 1, y_max);
        let h = trans_lines(f, cache, vram, s, poly, vs, idx, y_min, y_end - 1);
        let y = y_end - 1;
        assert(line_drawable(cache, vram, poly, vs, idx, y));
        match spec_intersect(vs, idx, y as i16) {
            Some(pr) => if pr.0.x != pr.1.x {
                lemma_opaque_span_ids(g, cache, vram, s, poly, span_line(pr.0, pr.1, y, prev, y_max), pr.1.x as int);
                lemma_trans_span_ids(h, cache, vram, s, poly, span_line(pr.0, pr.1, y, (0, 0), 0), pr.1.x as int);
            },
            None => {},
        }
    }
}

proof fn lemma_polygons_ids(
    f: FrameBuffers,
    cache: TexPaletteCache,
    vram: Engine3DVRAM,
    s: RenderSettings,
    orders: Seq<PolygonOrder>,
    polys: Seq<Polygon>,
    vs: Seq<ScreenVertex>,
    n: int,
    opaque: bool,
)
    requires
        edge_ids_ok(f),
        f.attrs.len() == FRAME_PIXELS,
        orders_drawable(cache, vram, orders, polys, vs),
        n <= orders.len(),
    ensures
        edge_ids_ok(polygons_drawn(f, cache, vram, s, orders, polys, vs, n, opaque)),
        polygons_drawn(f, cache, vram, s, orders, polys, vs, n, opaque).attrs.len() == f.attrs.len(),
    decreases n,
{
    if n > 0 {
        lemma_polygons_ids(f, cache, vram, s, orders, polys, vs, n - 1, opaque);
        let g = polygons_drawn(f, cache, vram, s, orders, polys, vs, n - 1, opaque);
        let o = orders[n - 1];
        let p = polys[o.polygon_index as int];
        let (lo, hi) = (order_line(o.y_min) as int, order_line(o.y_max) as int);
        assert(o == orders[n - 1]);
        lemma_lines_ids(g, cache, vram, s, draw_of(p), vs, p.vertex_indices@, lo, hi, hi);
    }
}

/// The translucent polygons in drawing order: as given by hand in manual
/// mode, else sorted.
pub open spec fn trans_orders(ram: PolygonRAM) -> Seq<PolygonOrder> {
    if ram.use_manual_mode { ram.trans_polygon_manual@ } else { ram.trans_polygon_auto@ }
}

/// The frame after drawing: cleared, the opaque polygons drawn, then the
/// translucent ones, then edges marked and fog blended where the control
/// asks.
pub open spec fn frame_drawn(
    f: FrameBuffers,
    cache: TexPaletteCache,
    vram: Engine3DVRAM,
    s: RenderSettings,
    ram: PolygonRAM,
    vs: Seq<ScreenVertex>,
) -> FrameBuffers {
    let f1 = cleared(f, s, vram);
    let f2 = polygons_drawn(f1, cache, vram, s, ram.opaque_polygons@, ram.polygons@, vs, ram.opaque_polygons@.len() as int, true);
    let f3 = polygons_drawn(f2, cache, vram, s, trans_orders(ram), ram.polygons@, vs, trans_orders(ram).len() as int, false);
    let t4 = if s.control & CONTROL_EDGE_MARKING != 0 {
        Seq::new(FRAME_PIXELS as nat, |i: int| edge_marked(f3, s, i))
    } else {
        f3.target
    };
    let f4 = FrameBuffers { target: t4, ..f3 };
    let t5 = if s.control & CONTROL_FOG != 0 { Seq::new(FRAME_PIXELS as nat, |i: int| fogged(f4, s, i)) } else { t4 };
    FrameBuffers { target: t5, ..f3 }
}

/// The drawing buffers beside the frame, and the texture palette cache.
pub struct Software3DRenderer {
    pub palette_cache: TexPaletteCache,
    pub stencil_buffer: Vec<bool>,
    pub attr_buffer: Vec<Attributes>,
    pub depth_buffer: Vec<i32>,
}

impl Software3DRenderer {
    pub open spec fn wf(&self) -> bool {
        &&& self.stencil_buffer@.len() == FRAME_PIXELS
        &&& self.attr_buffer@.len() == FRAME_PIXELS
        &&& self.depth_buffer@.len() == FRAME_PIXELS
    }

    /// The frame `target` with these buffers.
    pub open spec fn frame(&self, target: Seq<ColourAlpha>) -> FrameBuffers {
        FrameBuffers { target, depth: self.depth_buffer@, attrs: self.attr_buffer@, stencil: self.stencil_buffer@ }
    }

    /// A renderer with an empty palette cache, no stencil, depth zero and
    /// blank attributes everywhere.
    pub fn new() -> (r: Self)
        ensures
            r.wf(),
            r.palette_cache.tex_palette@ == Seq::new(TEX_PALETTE_COLOURS as nat, |i: int| Colour { r: 0, g: 0, b: 0 }),
            forall|i: int| 0 <= i < FRAME_PIXELS ==> !#[trigger] r.stencil_buffer@[i],
            forall|i: int| 0 <= i < FRAME_PIXELS ==> #[trigger] r.depth_buffer@[i] == 0,
            forall|i: int|
                0 <= i < FRAME_PIXELS ==> #[trigger] r.attr_buffer@[i] == (Attributes {
                    opaque_id: 0,
                    trans_id: None,
                    fog: false,
                    edge: false,
                }),
    {
        let blank = Attributes { opaque_id: 0, trans_id: None, fog: false, edge: false };
        Software3DRenderer {
            palette_cache: TexPaletteCache::new(),
            stencil_buffer: vec![false; FRAME_PIXELS],
            attr_buffer: vec![blank; FRAME_PIXELS],
            depth_buffer: vec![0i32; FRAME_PIXELS],
        }
    }

    /// A fragment's colour from its vertex colour and texel.
    fn fragment(&self, vram: &Engine3DVRAM, s: &RenderSettings, poly: PolygonDraw, tex: crate::video::video3d::drawing::TexCoords, vtx: ColourAlpha) -> (r: ColourAlpha)
        requires
            self.palette_cache.lookup_fits(*vram, tex, poly.tex, poly.palette),
            vtx.alpha <= 0x1F,
        ensures
            r == fragment_colour(self.palette_cache, *vram, *s, poly, tex, vtx),
            r.alpha <= 0x1F,
    {
        let highlight = s.control & CONTROL_HIGHLIGHT != 0;
        let mode = mode_of(poly.attrs);
        match self.palette_cache.lookup_tex_colour(tex, poly.tex, poly.palette, vram) {
            Some(t) => {
                proof {
                    lemma_fragment_alpha(*s, mode, vtx, t);
                }
                blend_frag_tex_colour(&s.toon_table, highlight, mode, vtx, t)
            },
            None => {
                proof {
                    lemma_fragment_alpha(*s, mode, vtx, vtx);
                }
                blend_fragment_colour(&s.toon_table, highlight, mode, vtx)
            },
        }
    }

    fn draw_opaque_pixel(&mut self, target: &mut Vec<ColourAlpha>, vram: &Engine3DVRAM, s: &RenderSettings, poly: PolygonDraw, line: &SpanLine, x: i16)
        requires
            old(self).wf(),
            old(target)@.len() == FRAME_PIXELS,
            line.y < FRAME_HEIGHT,
            line.x_min <= x < line.x_max,
            0 <= x < 256,
            line.x_max <= 256,
            pixel_ok(old(self).palette_cache, *vram, poly, *line, x),
        ensures
            final(self).wf(),
            final(target)@.len() == FRAME_PIXELS,
            final(self).palette_cache == old(self).palette_cache,
            final(self).frame(final(target)@) == opaque_pixel(old(self).frame(old(target)@), old(self).palette_cache, *vram, *s, poly, *line, x),
    {
        let idx = (line.y as usize) * FRAME_WIDTH + (x as usize);
        let p = interpolate_span(&line.left, &line.right, x);
        let edge = x < line.prev_min || x > line.prev_max || line.last_line || x == line.x_min || x == line.x_max - 1;
        if !test_depth(poly.attrs.bits & POLY_RENDER_EQ != 0, self.depth_buffer[idx], p.depth) {
            return;
        }
        if !edge && poly.attrs.alpha() == 0 {
            return;
        }
        let frag = self.fragment(vram, s, poly, p.tex, ColourAlpha { col: p.colour, alpha: 0x1F });
        if frag.alpha > 0 {
            target.set(idx, frag);
            self.depth_buffer.set(idx, p.depth);
            let a = self.attr_buffer[idx];
            self.attr_buffer.set(
                idx,
                Attributes { opaque_id: poly.attrs.id(), trans_id: a.trans_id, fog: poly.attrs.bits & POLY_FOG != 0, edge },
            );
        }
    }

    /// Draws one line of an opaque polygon.
    pub fn draw_opaque_span(&mut self, target: &mut Vec<ColourAlpha>, vram: &Engine3DVRAM, s: &RenderSettings, poly: PolygonDraw, line: &SpanLine)
        requires
            old(self).wf(),
            old(target)@.len() == FRAME_PIXELS,
            span_ok(old(self).palette_cache, *vram, poly, *line),
        ensures
            final(self).wf(),
            final(target)@.len() == FRAME_PIXELS,
            final(self).palette_cache == old(self).palette_cache,
            final(self).frame(final(target)@) == opaque_span(
                old(self).frame(old(target)@),
                old(self).palette_cache,
                *vram,
                *s,
                poly,
                *line,
                line.x_max as int,
            ),
    {
        let ghost f0 = self.frame(target@);
        let mut x = line.x_min;
        if line.x_max <= line.x_min {
            return;
        }
        while x < line.x_max
            invariant
                self.wf(),
                target@.len() == FRAME_PIXELS,
                self.palette_cache == old(self).palette_cache,
                span_ok(self.palette_cache, *vram, poly, *line),
                line.x_min < line.x_max,
                line.x_min <= x <= line.x_max,
                self.frame(target@) == opaque_span(f0, self.palette_cache, *vram, *s, poly, *line, x as int),
            decreases line.x_max - x,
        {
            assert(pixel_ok(self.palette_cache, *vram, poly, *line, x));
            self.draw_opaque_pixel(target, vram, s, poly, line, x);
            x = x + 1;
        }
    }
    /// Draws an opaque polygon, line by line from `y_min` up to `y_max`.
    pub fn draw_opaque_polygon(
        &mut self,
        target: &mut Vec<ColourAlpha>,
        vram: &Engine3DVRAM,
        s: &RenderSettings,
        poly: PolygonDraw,
        vertices: &Vec<ScreenVertex>,
        indices: &Vec<usize>,
        y_min: u8,
        y_max: u8,
    )
        requires
            old(self).wf(),
            old(target)@.len() == FRAME_PIXELS,
            polygon_drawable(old(self).palette_cache, *vram, poly, vertices@, indices@, y_min as int, y_max as int),
        ensures
            final(self).wf(),
            final(target)@.len() == FRAME_PIXELS,
            final(self).palette_cache == old(self).palette_cache,
            final(self).frame(final(target)@) == opaque_lines(
                old(self).frame(old(target)@),
                old(self).palette_cache,
                *vram,
                *s,
                poly,
                vertices@,
                indices@,
                y_min as int,
                y_max as int,
                y_max as int,
            ).0,
    {
        let ghost f0 = self.frame(target@);
        let mut prev_min: i16 = 256;
        let mut prev_max: i16 = 0;
        if y_max <= y_min {
            return;
        }
        let mut y = y_min;
        while y < y_max
            invariant
                self.wf(),
                target@.len() == FRAME_PIXELS,
                self.palette_cache == old(self).palette_cache,
                polygon_drawable(self.palette_cache, *vram, poly, vertices@, indices@, y_min as int, y_max as int),
                y_min <= y <= y_max,
                (self.frame(target@), (prev_min, prev_max)) == opaque_lines(
                    f0,
                    self.palette_cache,
                    *vram,
                    *s,
                    poly,
                    vertices@,
                    indices@,
                    y_min as int,
                    y as int,
                    y_max as int,
                ),
            decreases y_max - y,
        {
            assert(line_drawable(self.palette_cache, *vram, poly, vertices@, indices@, y as int));
            match find_intersect_points(vertices, indices, y as i16) {
                Some((l, r)) => {
                    if l.x != r.x {
                        let line = SpanLine {
                            left: l,
                            right: r,
                            y,
                            x_min: l.x,
                            x_max: r.x,
                            prev_min,
                            prev_max,
                            last_line: y == y_max - 1,
                        };
                        proof {
                            let dummy = span_line(l, r, y as int, (0, 0), 0);
                            assert forall|x: i16| line.x_min <= x < line.x_max implies #[trigger] pixel_ok(
                                self.palette_cache,
                                *vram,
                                poly,
                                line,
                                x,
                            ) by {
                                assert(pixel_ok(self.palette_cache, *vram, poly, dummy, x));
                            }
                        }
                        self.draw_opaque_span(target, vram, s, poly, &line);
                        prev_min = l.x;
                        prev_max = r.x;
                    }
                },
                None => {},
            }
            y = y + 1;
        }
    }
    fn draw_trans_pixel(&mut self, target: &mut Vec<ColourAlpha>, vram: &Engine3DVRAM, s: &RenderSettings, poly: PolygonDraw, line: &SpanLine, x: i16)
        requires
            old(self).wf(),
            old(target)@.len() == FRAME_PIXELS,
            line.y < FRAME_HEIGHT,
            line.x_min <= x < line.x_max,
            0 <= x < 256,
            line.x_max <= 256,
            pixel_ok(old(self).palette_cache, *vram, poly, *line, x),
        ensures
            final(self).wf(),
            final(target)@.len() == FRAME_PIXELS,
            final(self).palette_cache == old(self).palette_cache,
            final(self).frame(final(target)@) == trans_pixel(old(self).frame(old(target)@), old(self).palette_cache, *vram, *s, poly, *line, x),
    {
        let idx = (line.y as usize) * FRAME_WIDTH + (x as usize);
        let mode = mode_of(poly.attrs);
        let shadow = match mode {
            PolygonMode::Shadow => true,
            _ => false,
        };
        let id = poly.attrs.id();
        let mask = if shadow && id != 0 {
            let m = self.stencil_buffer[idx];
            self.stencil_buffer.set(idx, false);
            m
        } else {
            false
        };
        let p = interpolate_span(&line.left, &line.right, x);
        if !test_depth(poly.attrs.bits & POLY_RENDER_EQ != 0, self.depth_buffer[idx], p.depth) {
            if shadow && id == 0 {
                self.stencil_buffer.set(idx, true);
            }
            return;
        }
        let a = self.attr_buffer[idx];
        if shadow && (id == 0 || !mask || a.opaque_id == id) {
            return;
        }
        let frag = self.fragment(vram, s, poly, p.tex, ColourAlpha { col: p.colour, alpha: poly.attrs.alpha() });
        if frag.alpha == 0 {
            return;
        }
        if s.control & CONTROL_ALPHA_TEST != 0 && frag.alpha < s.alpha_test {
            return;
        }
        if frag.alpha != 0x1F {
            match a.trans_id {
                Some(t) => {
                    if t == id {
                        return;
                    }
                },
                None => {},
            }
        }
        let colour = if s.control & CONTROL_BLENDING != 0 {
            blend_buffer_colour(frag, target[idx], shadow)
        } else {
            frag
        };
        target.set(idx, colour);
        if frag.alpha != 0x1F {
            if poly.attrs.bits & POLY_ALPHA_DEPTH != 0 {
                self.depth_buffer.set(idx, p.depth);
            }
            self.attr_buffer.set(idx, Attributes { trans_id: Some(id), fog: a.fog && poly.attrs.bits & POLY_FOG != 0, ..a });
        } else {
            self.depth_buffer.set(idx, p.depth);
            self.attr_buffer.set(idx, Attributes { opaque_id: id, fog: poly.attrs.bits & POLY_FOG != 0, ..a });
        }
    }

    /// Draws one line of a translucent polygon.
    pub fn draw_trans_span(&mut self, target: &mut Vec<ColourAlpha>, vram: &Engine3DVRAM, s: &RenderSettings, poly: PolygonDraw, line: &SpanLine)
        requires
            old(self).wf(),
            old(target)@.len() == FRAME_PIXELS,
            span_ok(old(self).palette_cache, *vram, poly, *line),
        ensures
            final(self).wf(),
            final(target)@.len() == FRAME_PIXELS,
            final(self).palette_cache == old(self).palette_cache,
            final(self).frame(final(target)@) == trans_span(
                old(self).frame(old(target)@),
                old(self).palette_cache,
                *vram,
                *s,
                poly,
                *line,
                line.x_max as int,
            ),
    {
        let ghost f0 = self.frame(target@);
        let mut x = line.x_min;
        if line.x_max <= line.x_min {
            return;
        }
        while x < line.x_max
            invariant
                self.wf(),
                target@.len() == FRAME_PIXELS,
                self.palette_cache == old(self).palette_cache,
                span_ok(self.palette_cache, *vram, poly, *line),
                line.x_min < line.x_max,
                line.x_min <= x <= line.x_max,
                self.frame(target@) == trans_span(f0, self.palette_cache, *vram, *s, poly, *line, x as int),
            decreases line.x_max - x,
        {
            assert(pixel_ok(self.palette_cache, *vram, poly, *line, x));
            self.draw_trans_pixel(target, vram, s, poly, line, x);
            x = x + 1;
        }
    }

    /// Draws a translucent polygon, line by line from `y_min` up to
    /// `y_max`.
    pub fn draw_trans_polygon(
        &mut self,
        target: &mut Vec<ColourAlpha>,
        vram: &Engine3DVRAM,
        s: &RenderSettings,
        poly: PolygonDraw,
        vertices: &Vec<ScreenVertex>,
        indices: &Vec<usize>,
        y_min: u8,
        y_max: u8,
    )
        requires
            old(self).wf(),
            old(target)@.len() == FRAME_PIXELS,
            polygon_drawable(old(self).palette_cache, *vram, poly, vertices@, indices@, y_min as int, y_max as int),
        ensures
            final(self).wf(),
            final(target)@.len() == FRAME_PIXELS,
            final(self).palette_cache == old(self).palette_cache,
            final(self).frame(final(target)@) == trans_lines(
                old(self).frame(old(target)@),
                old(self).palette_cache,
                *vram,
                *s,
                poly,
                vertices@,
                indices@,
                y_min as int,
                y_max as int,
            ),
    {
        let ghost f0 = self.frame(target@);
        if y_max <= y_min {
            return;
        }
        let mut y = y_min;
        while y < y_max
            invariant
                self.wf(),
                target@.len() == FRAME_PIXELS,
                self.palette_cache == old(self).palette_cache,
                polygon_drawable(self.palette_cache, *vram, poly, vertices@, indices@, y_min as int, y_max as int),
                y_min <= y <= y_max,
                self.frame(target@) == trans_lines(
                    f0,
                    self.palette_cache,
                    *vram,
                    *s,
                    poly,
                    vertices@,
                    indices@,
                    y_min as int,
                    y as int,
                ),
            decreases y_max - y,
        {
            assert(line_drawable(self.palette_cache, *vram, poly, vertices@, indices@, y as int));
            match find_intersect_points(vertices, indices, y as i16) {
                Some((l, r)) => {
                    if l.x != r.x {
                        let line = SpanLine { left: l, right: r, y, x_min: l.x, x_max: r.x, prev_min: 0, prev_max: 0, last_line: false };
                        self.draw_trans_span(target, vram, s, poly, &line);
                    }
                },
                None => {},
            }
            y = y + 1;
        }
    }
    /// Draws the polygons of `orders` in turn, as opaque or translucent
    /// polygons.
    pub fn draw_polygons(
        &mut self,
        target: &mut Vec<ColourAlpha>,
        vram: &Engine3DVRAM,
        s: &RenderSettings,
        orders: &Vec<PolygonOrder>,
        polygons: &Vec<Polygon>,
        vertices: &Vec<ScreenVertex>,
        opaque: bool,
    )
        requires
            old(self).wf(),
            old(target)@.len() == FRAME_PIXELS,
            orders_drawable(old(self).palette_cache, *vram, orders@, polygons@, vertices@),
        ensures
            final(self).wf(),
            final(target)@.len() == FRAME_PIXELS,
            final(self).palette_cache == old(self).palette_cache,
            final(self).frame(final(target)@) == polygons_drawn(
                old(self).frame(old(target)@),
                old(self).palette_cache,
                *vram,
                *s,
                orders@,
                polygons@,
                vertices@,
                orders@.len() as int,
                opaque,
            ),
    {
        let ghost f0 = self.frame(target@);
        let mut k: usize = 0;
        while k < orders.len()
            invariant
                self.wf(),
                target@.len() == FRAME_PIXELS,
                self.palette_cache == old(self).palette_cache,
                orders_drawable(self.palette_cache, *vram, orders@, polygons@, vertices@),
                k <= orders@.len(),
                self.frame(target@) == polygons_drawn(f0, self.palette_cache, *vram, *s, orders@, polygons@, vertices@, k as int, opaque),
            decreases orders@.len() - k,
        {
            let o = orders[k];
            assert(o == orders@[k as int]);
            let p = &polygons[o.polygon_index];
            let poly = PolygonDraw { attrs: p.attrs, tex: p.tex, palette: p.palette };
            let lo = order_line_exec(o.y_min);
            let hi = order_line_exec(o.y_max);
            if opaque {
                self.draw_opaque_polygon(target, vram, s, poly, vertices, &p.vertex_indices, lo, hi);
            } else {
                self.draw_trans_polygon(target, vram, s, poly, vertices, &p.vertex_indices, lo, hi);
            }
            k = k + 1;
        }
    }

    /// Draws the opaque polygons in their order.
    pub fn draw_opaque_polygons(&mut self, target: &mut Vec<ColourAlpha>, vram: &Engine3DVRAM, s: &RenderSettings, ram: &PolygonRAM, vertices: &Vec<ScreenVertex>)
        requires
            old(self).wf(),
            old(target)@.len() == FRAME_PIXELS,
            orders_drawable(old(self).palette_cache, *vram, ram.opaque_polygons@, ram.polygons@, vertices@),
        ensures
            final(self).wf(),
            final(target)@.len() == FRAME_PIXELS,
            final(self).palette_cache == old(self).palette_cache,
            final(self).frame(final(target)@) == polygons_drawn(
                old(self).frame(old(target)@),
                old(self).palette_cache,
                *vram,
                *s,
                ram.opaque_polygons@,
                ram.polygons@,
                vertices@,
                ram.opaque_polygons@.len() as int,
                true,
            ),
    {
        self.draw_polygons(target, vram, s, &ram.opaque_polygons, &ram.polygons, vertices, true);
    }

    /// Draws the translucent polygons, in the order given by hand where
    /// the polygon RAM is in manual mode, else in their sorted order.
    pub fn draw_trans_polygons(&mut self, target: &mut Vec<ColourAlpha>, vram: &Engine3DVRAM, s: &RenderSettings, ram: &PolygonRAM, vertices: &Vec<ScreenVertex>)
        requires
            old(self).wf(),
            old(target)@.len() == FRAME_PIXELS,
            orders_drawable(
                old(self).palette_cache,
                *vram,
                if ram.use_manual_mode { ram.trans_polygon_manual@ } else { ram.trans_polygon_auto@ },
                ram.polygons@,
                vertices@,
            ),
        ensures
            final(self).wf(),
            final(target)@.len() == FRAME_PIXELS,
            final(self).palette_cache == old(self).palette_cache,
            final(self).frame(final(target)@) == polygons_drawn(
                old(self).frame(old(target)@),
                old(self).palette_cache,
                *vram,
                *s,
                if ram.use_manual_mode { ram.trans_polygon_manual@ } else { ram.trans_polygon_auto@ },
                ram.polygons@,
                vertices@,
                (if ram.use_manual_mode { ram.trans_polygon_manual@ } else { ram.trans_polygon_auto@ }).len() as int,
                false,
            ),
    {
        if ram.use_manual_mode {
            self.draw_polygons(target, vram, s, &ram.trans_polygon_manual, &ram.polygons, vertices, false);
        } else {
            self.draw_polygons(target, vram, s, &ram.trans_polygon_auto, &ram.polygons, vertices, false);
        }
    }
    /// Fills the drawing buffers and the frame with the clear values, or
    /// from the clear images.
    #[verifier::rlimit(40)]
    #[verifier::spinoff_prover]
    pub fn clear_buffers(&mut self, target: &mut Vec<ColourAlpha>, s: &RenderSettings, vram: &Engine3DVRAM)
        requires
            old(self).wf(),
            old(target)@.len() == FRAME_PIXELS,
            clear_ready(*s, *vram),
        ensures
            final(self).wf(),
            final(target)@.len() == FRAME_PIXELS,
            final(self).palette_cache == old(self).palette_cache,
            final(self).frame(final(target)@) == cleared(old(self).frame(old(target)@), *s, *vram),
    {
        let ghost want = cleared(self.frame(target@), *s, *vram);
        let image = s.control & CONTROL_CLEAR_IMAGE != 0;
        let mut i: usize = 0;
        while i < FRAME_PIXELS
            invariant
                self.wf(),
                target@.len() == FRAME_PIXELS,
                self.palette_cache == old(self).palette_cache,
                clear_ready(*s, *vram),
                image == (s.control & CONTROL_CLEAR_IMAGE != 0),
                want == cleared(old(self).frame(old(target)@), *s, *vram),
                i <= FRAME_PIXELS,
                forall|j: int| 0 <= j < i ==> #[trigger] target@[j] == want.target[j],
                forall|j: int| 0 <= j < i ==> #[trigger] self.depth_buffer@[j] == want.depth[j],
                forall|j: int| 0 <= j < i ==> #[trigger] self.attr_buffer@[j] == want.attrs[j],
                forall|j: int| 0 <= j < i ==> !#[trigger] self.stencil_buffer@[j],
            decreases FRAME_PIXELS - i,
        {
            self.stencil_buffer.set(i, false);
            if image {
                let x = ((i % 256) as u8).wrapping_add(s.clear_image_x);
                let y = ((i / 256) as u8).wrapping_add(s.clear_image_y);
                let addr: u32 = (y as u32) * 512 + (x as u32) * 2;
                assert(addr as int == clear_image_addr(*s, i as int));
                let colour = match &vram.tex_2 {
                    Some(m) => m.read_halfword(addr),
                    None => 0,
                };
                let depth = match &vram.tex_3 {
                    Some(m) => m.read_halfword(addr),
                    None => 0,
                };
                target.set(
                    i,
                    ColourAlpha { col: Colour::from_555(colour), alpha: if colour / 0x8000 == 1 { 0x1F } else { 0 } },
                );
                self.depth_buffer.set(i, ((depth % 0x8000) as i32) * 512);
                self.attr_buffer.set(
                    i,
                    Attributes { opaque_id: s.clear_poly_id, trans_id: None, fog: depth / 0x8000 == 1, edge: false },
                );
            } else {
                target.set(i, ColourAlpha { col: s.clear_colour, alpha: s.clear_alpha });
                self.depth_buffer.set(i, s.clear_depth);
                self.attr_buffer.set(i, Attributes { opaque_id: s.clear_poly_id, trans_id: None, fog: s.fog_enabled, edge: false });
            }
            i = i + 1;
        }
        assert(target@ == want.target);
        assert(self.depth_buffer@ == want.depth);
        assert(self.attr_buffer@ == want.attrs);
        assert(self.stencil_buffer@ == want.stencil);
    }

    /// Marks the edges of opaque polygons with their edge colours.
    pub fn mark_edges(&self, target: &mut Vec<ColourAlpha>, s: &RenderSettings)
        requires
            self.wf(),
            old(target)@.len() == FRAME_PIXELS,
            forall|i: int| 0 <= i < FRAME_PIXELS ==> #[trigger] self.attr_buffer@[i].edge ==> self.attr_buffer@[i].opaque_id < 64,
        ensures
            final(target)@ == Seq::new(FRAME_PIXELS as nat, |i: int| edge_marked(self.frame(old(target)@), *s, i)),
    {
        let ghost f0 = self.frame(target@);
        let mut i: usize = 0;
        while i < FRAME_PIXELS
            invariant
                self.wf(),
                target@.len() == FRAME_PIXELS,
                f0 == self.frame(old(target)@),
                forall|i: int| 0 <= i < FRAME_PIXELS ==> #[trigger] self.attr_buffer@[i].edge ==> self.attr_buffer@[i].opaque_id < 64,
                i <= FRAME_PIXELS,
                forall|j: int| 0 <= j < i ==> #[trigger] target@[j] == edge_marked(f0, *s, j),
                forall|j: int| i <= j < FRAME_PIXELS ==> #[trigger] target@[j] == f0.target[j],
            decreases FRAME_PIXELS - i,
        {
            let a = self.attr_buffer[i];
            if a.edge {
                let x = i % 256;
                let y = i / 256;
                let this = (a.opaque_id, self.depth_buffer[i]);
                let left = if x > 0 { (self.attr_buffer[i - 1].opaque_id, self.depth_buffer[i - 1]) } else { (s.clear_poly_id, s.clear_depth) };
                let right = if x < 255 { (self.attr_buffer[i + 1].opaque_id, self.depth_buffer[i + 1]) } else { (s.clear_poly_id, s.clear_depth) };
                let top = if y > 0 { (self.attr_buffer[i - 256].opaque_id, self.depth_buffer[i - 256]) } else { (s.clear_poly_id, s.clear_depth) };
                let bottom = if y < 191 { (self.attr_buffer[i + 256].opaque_id, self.depth_buffer[i + 256]) } else { (s.clear_poly_id, s.clear_depth) };
                if check_edge(this, left, right, top, bottom) {
                    let t = target[i];
                    target.set(i, ColourAlpha { col: s.edge_colour[(a.opaque_id / 8) as usize], alpha: t.alpha });
                }
            }
            i = i + 1;
        }
        assert(target@ == Seq::new(FRAME_PIXELS as nat, |i: int| edge_marked(f0, *s, i)));
    }
    /// Blends fog into the pixels that have the fog flag.
    pub fn draw_fog(&self, target: &mut Vec<ColourAlpha>, s: &RenderSettings)
        requires
            self.wf(),
            old(target)@.len() == FRAME_PIXELS,
            forall|k: int| 0 <= k < 32 ==> #[trigger] s.fog_table@[k] <= 128,
        ensures
            final(target)@ == Seq::new(FRAME_PIXELS as nat, |i: int| fogged(self.frame(old(target)@), *s, i)),
    {
        let ghost f0 = self.frame(target@);
        let mut i: usize = 0;
        while i < FRAME_PIXELS
            invariant
                self.wf(),
                target@.len() == FRAME_PIXELS,
                f0 == self.frame(old(target)@),
                forall|k: int| 0 <= k < 32 ==> #[trigger] s.fog_table@[k] <= 128,
                i <= FRAME_PIXELS,
                forall|j: int| 0 <= j < i ==> #[trigger] target@[j] == fogged(f0, *s, j),
                forall|j: int| i <= j < FRAME_PIXELS ==> #[trigger] target@[j] == f0.target[j],
            decreases FRAME_PIXELS - i,
        {
            let t = target[i];
            let out = fog_pixel_exec(t, self.attr_buffer[i].fog, self.depth_buffer[i], s);
            target.set(i, out);
            i = i + 1;
        }
        assert(target@ == Seq::new(FRAME_PIXELS as nat, |i: int| fogged(f0, *s, i)));
    }
    /// Draws a frame: clears it, draws the opaque polygons, then the
    /// translucent ones, then marks edges and blends fog where the control
    /// asks.
    pub fn draw(&mut self, target: &mut Vec<ColourAlpha>, s: &RenderSettings, vram: &Engine3DVRAM, ram: &PolygonRAM, vertices: &Vec<ScreenVertex>)
        requires
            old(self).wf(),
            old(target)@.len() == FRAME_PIXELS,
            clear_ready(*s, *vram),
            orders_drawable(old(self).palette_cache, *vram, ram.opaque_polygons@, ram.polygons@, vertices@),
            orders_drawable(old(self).palette_cache, *vram, trans_orders(*ram), ram.polygons@, vertices@),
            s.control & CONTROL_FOG != 0 ==> forall|k: int| 0 <= k < 32 ==> #[trigger] s.fog_table@[k] <= 128,
        ensures
            final(self).wf(),
            final(self).palette_cache == old(self).palette_cache,
            final(self).frame(final(target)@) == frame_drawn(old(self).frame(old(target)@), old(self).palette_cache, *vram, *s, *ram, vertices@),
    {
        let ghost f0 = self.frame(target@);
        self.clear_buffers(target, s, vram);
        let ghost f1 = self.frame(target@);
        assert(edge_ids_ok(f1));
        self.draw_opaque_polygons(target, vram, s, ram, vertices);
        let ghost f2 = self.frame(target@);
        self.draw_trans_polygons(target, vram, s, ram, vertices);
        let ghost f3 = self.frame(target@);
        proof {
            lemma_polygons_ids(f1, self.palette_cache, *vram, *s, ram.opaque_polygons@, ram.polygons@, vertices@, ram.opaque_polygons@.len() as int, true);
            lemma_polygons_ids(f2, self.palette_cache, *vram, *s, trans_orders(*ram), ram.polygons@, vertices@, trans_orders(*ram).len() as int, false);
        }
        if s.control & CONTROL_EDGE_MARKING != 0 {
            assert(forall|i: int| 0 <= i < FRAME_PIXELS ==> #[trigger] self.attr_buffer@[i].edge ==> self.attr_buffer@[i].opaque_id < 64);
            self.mark_edges(target, s);
        }
        if s.control & CONTROL_FOG != 0 {
            self.draw_fog(target, s);
        }
    }
}


fn fog_pixel_exec(t: ColourAlpha, fog: bool, d: i32, s: &RenderSettings) -> (r: ColourAlpha)
    requires
        forall|k: int| 0 <= k < 32 ==> #[trigger] s.fog_table@[k] <= 128,
    ensures
        r == fog_pixel(t, fog, d, *s),
{
    if !fog {
        return t;
    }
    let whole = if d >= 0 { d / 512 } else { -((-(d as i64) + 511) / 512) as i32 };
    proof {
        if d < 0 {
            crate::video::video3d::raster::lemma_negative_floor(-d as int, 512);
        }
    }
    let depth = (whole % 0x8000 + 0x8000) % 0x8000;
    assert(depth == (d / 512) % 0x8000);
    let density = fog_density_exec(s, depth as u16);
    if s.control & CONTROL_FOG_ALPHA_ONLY != 0 {
        ColourAlpha { col: t.col, alpha: if density == 127 { s.fog_alpha } else { fog_mix_exec(t.alpha, s.fog_alpha, density) } }
    } else if density == 127 {
        ColourAlpha { col: s.fog_colour, alpha: s.fog_alpha }
    } else {
        ColourAlpha {
            col: Colour {
                r: fog_mix_exec(t.col.r, s.fog_colour.r, density),
                g: fog_mix_exec(t.col.g, s.fog_colour.g, density),
                b: fog_mix_exec(t.col.b, s.fog_colour.b, density),
            },
            alpha: fog_mix_exec(t.alpha, s.fog_alpha, density),
        }
    }
}

fn fog_mix_exec(c: u8, fog: u8, density: u16) -> (r: u8)
    requires
        density <= 128,
    ensures
        r == fog_mix(c, fog, density as int),
{
    assert(c * (128 - density) + fog * density <= 255 * 128) by (nonlinear_arith)
        requires
            c <= 255,
            fog <= 255,
            density <= 128;
    (((c as u32) * (128 - density as u32) + (fog as u32) * (density as u32)) / 128) as u8
}

fn fog_density_exec(s: &RenderSettings, depth: u16) -> (r: u16)
    requires
        forall|k: int| 0 <= k < 32 ==> #[trigger] s.fog_table@[k] <= 128,
    ensures
        r == fog_density(*s, depth as int),
        r <= 128,
{
    let shift = (s.control / 0x100) % 16;
    let interval: u16 = 0x400u16 >> shift;
    assert(0x400u16 >> shift <= 0x400u16) by (bit_vector);
    let fog_min: u16 = s.fog_offset.wrapping_add(interval);
    let fog_max: u16 = s.fog_offset.wrapping_add(interval * 32);
    if depth < fog_min {
        s.fog_table[0] as u16
    } else if depth >= fog_max {
        s.fog_table[31] as u16
    } else {
        assert(interval > 0);
        let dd: u32 = (depth - fog_min) as u32;
        assert(dd < 31 * (interval as u32));
        let q: u32 = dd * 512 / (interval as u32);
        assert(q < 31 * 512) by (nonlinear_arith)
            requires
                dd < 31 * (interval as u32),
                interval > 0,
                q == (dd * 512) / (interval as int);
        let lo = q / 512;
        let frac = q % 512;
        let hi = if frac == 0 { lo } else { lo + 1 };
        let a = s.fog_table[lo as usize] as u32;
        let b = s.fog_table[hi as usize] as u32;
        assert(a * (512 - frac) + b * frac <= 128 * 512) by (nonlinear_arith)
            requires
                a <= 128,
                b <= 128,
                frac < 512;
        ((a * (512 - frac) + b * frac) / 512) as u16
    }
}



fn order_line_exec(n: i32) -> (r: u8)
    ensures
        r == order_line(n),
{
    let q = if n >= 0 { n / 4096 } else { -((-(n as i64) + 4095) / 4096) as i32 };
    proof {
        if n < 0 {
            crate::video::video3d::raster::lemma_negative_floor(-n as int, 4096);
        }
    }
    q as u8
}

} // verus!
