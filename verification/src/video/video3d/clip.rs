//! Clipping polygons against the planes of the view volume.
use vstd::prelude::*;
use crate::video::video3d::drawing::TexCoords;
use crate::video::video3d::math::{n_mul, mul_n, Vector, N_ONE};
use crate::video::video3d::palette::Colour;
use crate::video::video3d::raster::{floor_div128, trunc_div, ScreenVertex};
use crate::video::video3d::types::{Polygon, PolygonAttrs, PolygonRAM, polygon_inserted};

verus! {

#[derive(Clone, Copy, PartialEq, Eq, Structural)]
pub enum ClipPlane {
    Bottom,
    Top,
    Left,
    Right,
    Near,
    Far,
}

impl ClipPlane {
    /// All planes, in the order polygons are clipped against them.
    pub fn all() -> (r: [ClipPlane; 6])
        ensures
            r@ == seq![
                ClipPlane::Near,
                ClipPlane::Far,
                ClipPlane::Left,
                ClipPlane::Right,
                ClipPlane::Bottom,
                ClipPlane::Top,
            ],
    {
        [ClipPlane::Near, ClipPlane::Far, ClipPlane::Left, ClipPlane::Right, ClipPlane::Bottom, ClipPlane::Top]
    }
}

/// The clipping unit's settings: depth from w or z, the depth of dot
/// polygons, and the viewport (20.12 values).
pub struct ClippingUnit {
    pub w_buffer: bool,
    pub dot_polygon_w: i32,
    pub viewport_x: i32,
    pub viewport_y: i32,
    pub viewport_width: i32,
    pub viewport_height: i32,
}

/// A 20.12 value clamped to 0 to 1.
pub open spec fn clamp_unit(v: i32) -> i32 {
    if v < 0 { 0 } else if v > N_ONE { N_ONE } else { v }
}

/// The nearest whole number to a 20.12 value, halves away from zero.
pub open spec fn round_n(v: i32) -> int {
    if v < 0 { -((-v + 0x800) / 0x1000) } else { (v + 0x800) / 0x1000 }
}

impl ClippingUnit {
    /// Depth from z, the deepest dot polygon depth, and an empty viewport.
    pub fn new() -> (r: Self)
        ensures
            !r.w_buffer,
            r.dot_polygon_w == 0x7FFF * 64,
            r.viewport_x == 0 && r.viewport_y == 0 && r.viewport_width == 0 && r.viewport_height == 0,
    {
        ClippingUnit { w_buffer: false, dot_polygon_w: 0x7FFF * 64, viewport_x: 0, viewport_y: 0, viewport_width: 0, viewport_height: 0 }
    }

    /// Sets the viewport from its packed corners: x1, y1, x2, y2 a byte
    /// each, lowest first; the width and height count both ends.
    pub fn set_viewport(&mut self, data: u32)
        ensures
            final(self).w_buffer == old(self).w_buffer,
            final(self).dot_polygon_w == old(self).dot_polygon_w,
            final(self).viewport_x == (data % 0x100) * 0x1000,
            final(self).viewport_y == ((data / 0x100) % 0x100) * 0x1000,
            final(self).viewport_width == N_ONE + ((data / 0x1_0000) % 0x100) * 0x1000 - final(self).viewport_x,
            final(self).viewport_height == N_ONE + (data / 0x100_0000) * 0x1000 - final(self).viewport_y,
    {
        let x1 = (data % 0x100) as i32;
        let y1 = ((data / 0x100) % 0x100) as i32;
        let x2 = ((data / 0x1_0000) % 0x100) as i32;
        let y2 = (data / 0x100_0000) as i32;
        self.viewport_x = x1 * 0x1000;
        self.viewport_y = y1 * 0x1000;
        self.viewport_width = N_ONE + x2 * 0x1000 - x1 * 0x1000;
        self.viewport_height = N_ONE + y2 * 0x1000 - y1 * 0x1000;
    }

    pub fn set_w_buffer(&mut self, w_buffer: bool)
        ensures
            *final(self) == (ClippingUnit { w_buffer, ..*old(self) }),
    {
        self.w_buffer = w_buffer;
    }

    /// Sets the depth of dot polygons from 15 bits.
    pub fn set_dot_polygon_depth(&mut self, data: u16)
        ensures
            *final(self) == (ClippingUnit { dot_polygon_w: ((data % 0x8000) * 64) as i32, ..*old(self) }),
    {
        self.dot_polygon_w = ((data % 0x8000) as i32) * 64;
    }

    /// Screen coordinates of a point whose x and y run from 0 to 1 across
    /// the viewport (clamped to it), rounded to whole pixels.
    pub fn get_screen_coords(&self, x: i32, y: i32) -> (r: (i16, i16))
        ensures
            r.0 == round_n(self.viewport_x.wrapping_add(n_mul(clamp_unit(x), self.viewport_width))) as i16,
            r.1 == round_n(self.viewport_y.wrapping_add(n_mul(clamp_unit(y), self.viewport_height))) as i16,
    {
        let cx = if x < 0 { 0 } else if x > N_ONE { N_ONE } else { x };
        let cy = if y < 0 { 0 } else if y > N_ONE { N_ONE } else { y };
        let sx = self.viewport_x.wrapping_add(mul_n(cx, self.viewport_width));
        let sy = self.viewport_y.wrapping_add(mul_n(cy, self.viewport_height));
        (round_n_exec(sx), round_n_exec(sy))
    }
}

fn round_n_exec(v: i32) -> (r: i16)
    ensures
        r == round_n(v) as i16,
{
    let w = v as i64;
    let q: i64 = if w < 0 { -((-w + 0x800) / 0x1000) } else { (w + 0x800) / 0x1000 };
    q as i16
}

/// Polygon attributes: the front face, and the back face, are drawn.
pub const POLY_RENDER_FRONT: u32 = 0x80;
pub const POLY_RENDER_BACK: u32 = 0x40;

/// One edge's term of the signed area: the x step times the sum of the
/// two y values, in 16-bit screen coordinates.
pub open spec fn winding_term(v0: ScreenVertex, v1: ScreenVertex) -> i32 {
    (v1.x.wrapping_sub(v0.x) as int * v1.y.wrapping_add(v0.y) as int) as i32
}

/// The wrapping sum of the terms of the first `n` edges.
pub open spec fn winding_sum(vs: Seq<ScreenVertex>, n: int) -> i32
    decreases n,
{
    if n <= 0 {
        0
    } else {
        winding_sum(vs, n - 1).wrapping_add(winding_term(vs[n - 1], vs[n % (vs.len() as int)]))
    }
}

/// Whether a polygon shows: by the sign of its signed area its front or
/// its back faces the screen, and that face must be drawn; a polygon of
/// no area (a line) always shows.
pub open spec fn spec_test_winding(attrs: PolygonAttrs, vs: Seq<ScreenVertex>) -> bool {
    let size = winding_sum(vs, vs.len() as int);
    if size > 0 {
        attrs.bits & POLY_RENDER_FRONT != 0
    } else if size < 0 {
        attrs.bits & POLY_RENDER_BACK != 0
    } else {
        true
    }
}

/// Tests whether a polygon with these screen vertices is shown.
pub fn test_winding(attrs: PolygonAttrs, vertices: &[ScreenVertex]) -> (r: bool)
    ensures
        r == spec_test_winding(attrs, vertices@),
{
    let len = vertices.len();
    let mut size: i32 = 0;
    let mut n: usize = 0;
    while n < len
        invariant
            len == vertices@.len(),
            n <= len,
            size == winding_sum(vertices@, n as int),
        decreases len - n,
    {
        let v0 = vertices[n];
        let next = (n + 1) % len;
        let v1 = vertices[next];
        let dx = v1.x.wrapping_sub(v0.x) as i32;
        let sy = v1.y.wrapping_add(v0.y) as i32;
        assert(-0x4000_0000 <= dx * sy <= 0x4000_0000) by (nonlinear_arith)
            requires
                -0x8000 <= dx < 0x8000,
                -0x8000 <= sy < 0x8000;
        size = size.wrapping_add(dx * sy);
        n = n + 1;
    }
    if size > 0 {
        attrs.bits & POLY_RENDER_FRONT != 0
    } else if size < 0 {
        attrs.bits & POLY_RENDER_BACK != 0
    } else {
        true
    }
}

/// A vertex waiting to be clipped: its position in clip space (20.12
/// values x, y, z, w), colour and texture coordinates.
#[derive(Clone, Copy)]
pub struct StagedVertex {
    pub position: Vector<4>,
    pub colour: Colour,
    pub tex_coords: TexCoords,
}

/// The coordinate a plane bounds: x for left and right, y for top and
/// bottom, z for near and far.
pub open spec fn plane_dim(p: ClipPlane) -> int {
    match p {
        ClipPlane::Left | ClipPlane::Right => 0,
        ClipPlane::Top | ClipPlane::Bottom => 1,
        ClipPlane::Near | ClipPlane::Far => 2,
    }
}

/// The plane bounds its coordinate from below (at -w) rather than above
/// (at w).
pub open spec fn plane_low(p: ClipPlane) -> bool {
    p is Top || p is Left || p is Near
}

/// The vertex lies beyond the plane.
pub open spec fn outside(p: ClipPlane, v: StagedVertex) -> bool {
    let n = v.position.elements@[plane_dim(p)];
    let w = v.position.elements@[3];
    if plane_low(p) { n < 0i32.wrapping_sub(w) } else { n > w }
}

/// The plane's value in 20.12: -1 or 1.
pub open spec fn plane_val(p: ClipPlane) -> i32 {
    if plane_low(p) { -0x1000i32 } else { N_ONE }
}

/// How far `a` and `b` lie from the plane: the numerator and denominator
/// of the share of the way from `a` to `b` at which the edge crosses it.
pub open spec fn cut_terms(p: ClipPlane, a: StagedVertex, b: StagedVertex) -> (i32, i32) {
    let d = plane_dim(p);
    let over = a.position.elements@[d].wrapping_sub(n_mul(a.position.elements@[3], plane_val(p)));
    let under = n_mul(b.position.elements@[3], plane_val(p)).wrapping_sub(b.position.elements@[d]).wrapping_add(over);
    (over, under)
}

/// The share (24 fractional bits) of the way from `a` to `b` at which the
/// edge crosses the plane, rounded toward zero.
pub open spec fn cut_factor(p: ClipPlane, a: StagedVertex, b: StagedVertex) -> i64 {
    let (over, under) = cut_terms(p, a, b);
    trunc_div(over * 0x100_0000, under as int) as i64
}

/// A value with `24 - F` bits of scale `k` (2 to the 24 - F), moved from
/// `a` toward `b` by `factor`: the offset rounded down to 24 fractional
/// bits and the sum rounded down to the value's own, wrapping in 64 bits.
pub open spec fn interp_bits(a: int, b: int, factor: i64, k: int) -> int {
    if a == b {
        a
    } else {
        let off = ((b - a) * k * factor / 0x100_0000) as i64;
        ((a * k) as i64).wrapping_add(off) as int / k
    }
}

/// The vertex where the edge from `a` to `b` crosses the plane.
pub open spec fn cut_vertex(p: ClipPlane, a: StagedVertex, b: StagedVertex) -> StagedVertex {
    let f = cut_factor(p, a, b);
    let pa = a.position.elements@;
    let pb = b.position.elements@;
    StagedVertex {
        position: Vector {
            elements: [
                interp_bits(pa[0] as int, pb[0] as int, f, 0x1000) as i32,
                interp_bits(pa[1] as int, pb[1] as int, f, 0x1000) as i32,
                interp_bits(pa[2] as int, pb[2] as int, f, 0x1000) as i32,
                interp_bits(pa[3] as int, pb[3] as int, f, 0x1000) as i32,
            ],
        },
        colour: Colour {
            r: interp_bits(a.colour.r as int, b.colour.r as int, f, 0x100_0000) as u8,
            g: interp_bits(a.colour.g as int, b.colour.g as int, f, 0x100_0000) as u8,
            b: interp_bits(a.colour.b as int, b.colour.b as int, f, 0x100_0000) as u8,
        },
        tex_coords: TexCoords {
            s: interp_bits(a.tex_coords.s as int, b.tex_coords.s as int, f, 0x10_0000) as i16,
            t: interp_bits(a.tex_coords.t as int, b.tex_coords.t as int, f, 0x10_0000) as i16,
        },
    }
}

/// What the edge from `a` to `b` gives the clipped polygon: `a` where it
/// is inside, and the crossing point where the edge crosses the plane.
pub open spec fn edge_out(p: ClipPlane, a: StagedVertex, b: StagedVertex) -> Seq<StagedVertex> {
    let oa = outside(p, a);
    let ob = outside(p, b);
    if !oa && !ob {
        seq![a]
    } else if !oa && ob {
        seq![a, cut_vertex(p, a, b)]
    } else if oa && !ob {
        seq![cut_vertex(p, a, b)]
    } else {
        seq![]
    }
}

/// The polygon clipped against the plane, over its first `n` edges.
pub open spec fn clipped(p: ClipPlane, vs: Seq<StagedVertex>, n: int) -> Seq<StagedVertex>
    decreases n,
{
    if n <= 0 {
        seq![]
    } else {
        clipped(p, vs, n - 1) + edge_out(p, vs[n - 1], vs[n % (vs.len() as int)])
    }
}

/// Some vertex among the first `n` edges lies beyond the plane.
pub open spec fn any_outside(p: ClipPlane, vs: Seq<StagedVertex>, n: int) -> bool
    decreases n,
{
    if n <= 0 {
        false
    } else {
        any_outside(p, vs, n - 1) || outside(p, vs[n - 1]) || outside(p, vs[n % (vs.len() as int)])
    }
}

/// Every edge that crosses the plane can be cut: its crossing share does
/// not divide by zero.
pub open spec fn clip_defined(p: ClipPlane, vs: Seq<StagedVertex>) -> bool {
    forall|k: int|
        0 <= k < vs.len() ==> #[trigger] outside(p, vs[k]) != outside(p, vs[(k + 1) % (vs.len() as int)]) ==> cut_terms(
            p,
            vs[k],
            vs[(k + 1) % (vs.len() as int)],
        ).1 != 0
}

fn plane_params(p: ClipPlane) -> (r: (usize, bool))
    ensures
        r.0 == plane_dim(p),
        r.1 == plane_low(p),
{
    match p {
        ClipPlane::Left => (0, true),
        ClipPlane::Right => (0, false),
        ClipPlane::Top => (1, true),
        ClipPlane::Bottom => (1, false),
        ClipPlane::Near => (2, true),
        ClipPlane::Far => (2, false),
    }
}

fn is_outside(p: ClipPlane, v: &StagedVertex) -> (r: bool)
    ensures
        r == outside(p, *v),
{
    let (d, low) = plane_params(p);
    let n = v.position.elements[d];
    let w = v.position.elements[3];
    if low { n < 0i32.wrapping_sub(w) } else { n > w }
}

fn interp_exec(a: i64, b: i64, factor: i64, k: i64) -> (r: i64)
    requires
        -0x1_0000_0000 <= a <= 0x1_0000_0000,
        -0x1_0000_0000 <= b <= 0x1_0000_0000,
        0 < k <= 0x100_0000,
    ensures
        r == interp_bits(a as int, b as int, factor, k as int),
{
    if a == b {
        return a;
    }
    assert(-0x2_0000_0000 * 0x100_0000 <= (b - a) * k <= 0x2_0000_0000 * 0x100_0000) by (nonlinear_arith)
        requires
            -0x2_0000_0000 <= b - a <= 0x2_0000_0000,
            0 < k <= 0x100_0000;
    let d: i128 = ((b - a) as i128) * (k as i128);
    assert(-0x4000_0000_0000_0000_0000_0000_0000_0000 <= d * factor <= 0x4000_0000_0000_0000_0000_0000_0000_0000) by (nonlinear_arith)
        requires
            -0x2_0000_0000 * 0x100_0000 <= d <= 0x2_0000_0000 * 0x100_0000,
            -0x8000_0000_0000_0000 <= factor < 0x8000_0000_0000_0000;
    let prod: i128 = d * (factor as i128);
    let off = floor_div128(prod, 0x100_0000) as i64;
    assert(-0x1_0000_0000 * 0x100_0000 <= a * k <= 0x1_0000_0000 * 0x100_0000) by (nonlinear_arith)
        requires
            -0x1_0000_0000 <= a <= 0x1_0000_0000,
            0 < k <= 0x100_0000;
    let x = (a * k).wrapping_add(off);
    let q = floor_div128(x as i128, k as i128);
    assert(-0x8000_0000_0000_0000 <= q < 0x8000_0000_0000_0000) by (nonlinear_arith)
        requires
            q == (x as int) / (k as int),
            -0x8000_0000_0000_0000 <= x < 0x8000_0000_0000_0000,
            0 < k;
    q as i64
}

fn cut_vertex_exec(p: ClipPlane, a: &StagedVertex, b: &StagedVertex) -> (r: StagedVertex)
    requires
        cut_terms(p, *a, *b).1 != 0,
    ensures
        r == cut_vertex(p, *a, *b),
{
    let (d, low) = plane_params(p);
    let val: i32 = if low { -N_ONE } else { N_ONE };
    let pa = a.position.elements;
    let pb = b.position.elements;
    let over = pa[d].wrapping_sub(mul_n(pa[3], val));
    let under = mul_n(pb[3], val).wrapping_sub(pb[d]).wrapping_add(over);
    let n: i64 = (over as i64) * 0x100_0000;
    let na: i64 = if n < 0 { -n } else { n };
    let da: i64 = if under < 0 { -(under as i64) } else { under as i64 };
    let q = na / da;
    let f: i64 = if (n < 0) != (under < 0) { -q } else { q };
    let x0 = interp_exec(pa[0] as i64, pb[0] as i64, f, 0x1000) as i32;
    let x1 = interp_exec(pa[1] as i64, pb[1] as i64, f, 0x1000) as i32;
    let x2 = interp_exec(pa[2] as i64, pb[2] as i64, f, 0x1000) as i32;
    let x3 = interp_exec(pa[3] as i64, pb[3] as i64, f, 0x1000) as i32;
    let r = interp_exec(a.colour.r as i64, b.colour.r as i64, f, 0x100_0000) as u8;
    let g = interp_exec(a.colour.g as i64, b.colour.g as i64, f, 0x100_0000) as u8;
    let bl = interp_exec(a.colour.b as i64, b.colour.b as i64, f, 0x100_0000) as u8;
    let s = interp_exec(a.tex_coords.s as i64, b.tex_coords.s as i64, f, 0x10_0000) as i16;
    let t = interp_exec(a.tex_coords.t as i64, b.tex_coords.t as i64, f, 0x10_0000) as i16;
    let out = StagedVertex {
        position: Vector { elements: [x0, x1, x2, x3] },
        colour: Colour { r, g, b: bl },
        tex_coords: TexCoords { s, t },
    };
    assert(out.position.elements@ =~= cut_vertex(p, *a, *b).position.elements@);
    out
}

/// Clips a polygon against a plane, pushing the vertices of the clipped
/// polygon onto `out_polygon`: each vertex inside the plane, and the
/// point where each edge crosses it. Returns whether any vertex lies
/// beyond the plane.
#[verifier::rlimit(40)]
#[verifier::spinoff_prover]
pub fn clip(plane: ClipPlane, in_polygon: &[StagedVertex], out_polygon: &mut Vec<StagedVertex>) -> (r: bool)
    requires
        clip_defined(plane, in_polygon@),
    ensures
        final(out_polygon)@ == old(out_polygon)@ + clipped(plane, in_polygon@, in_polygon@.len() as int),
        r == any_outside(plane, in_polygon@, in_polygon@.len() as int),
{
    let len = in_polygon.len();
    let mut any = false;
    let mut k: usize = 0;
    while k < len
        invariant
            len == in_polygon@.len(),
            k <= len,
            clip_defined(plane, in_polygon@),
            out_polygon@ == old(out_polygon)@ + clipped(plane, in_polygon@, k as int),
            any == any_outside(plane, in_polygon@, k as int),
        decreases len - k,
    {
        let a = in_polygon[k];
        let kn = (k + 1) % len;
        let b = in_polygon[kn];
        let oa = is_outside(plane, &a);
        let ob = is_outside(plane, &b);
        proof {
            assert(kn as int == (k as int + 1) % (len as int));
        }
        if !oa && !ob {
            out_polygon.push(a);
        } else if !oa && ob {
            assert(outside(plane, in_polygon@[k as int]) != outside(plane, in_polygon@[(k as int + 1) % (len as int)]));
            let c = cut_vertex_exec(plane, &a, &b);
            out_polygon.push(a);
            out_polygon.push(c);
        } else if oa && !ob {
            assert(outside(plane, in_polygon@[k as int]) != outside(plane, in_polygon@[(k as int + 1) % (len as int)]));
            let c = cut_vertex_exec(plane, &a, &b);
            out_polygon.push(c);
        }
        any = any || oa || ob;
        proof {
            assert(out_polygon@ =~= old(out_polygon)@ + clipped(plane, in_polygon@, k as int + 1));
        }
        k = k + 1;
    }
    any
}

/// The reciprocal of 2w with 24 fractional bits, rounded toward zero; the
/// largest value where w is zero.
pub open spec fn half_recip(w: i32) -> i64 {
    if w == 0 { 0x7FFF_FFFF_FFFF_FFFF } else { trunc_div(0x1_0000_0000_0000, w * 0x2000) as i64 }
}

/// A coordinate moved into 0 to 1 over the view volume: (c + w) / 2w,
/// with 24 fractional bits.
pub open spec fn normalised(c: i32, w: i32) -> i64 {
    (((c + w) * 0x1000) * half_recip(w) / 0x100_0000) as i64
}

/// Where a clipped vertex lands on the screen, and its depth: from w
/// where the w-buffer is on, else from z scaled to 15 bits.
pub open spec fn projected(u: ClippingUnit, v: StagedVertex) -> ScreenVertex {
    let p = v.position.elements@;
    let x = normalised(p[0], p[3]);
    let y = normalised(p[1], p[3]);
    let z = normalised(p[2], p[3]);
    let sx = (x as int / 0x1000) as i32;
    let sy = N_ONE.wrapping_sub((y as int / 0x1000) as i32);
    let depth = if u.w_buffer { (p[3] as int / 8) as i32 } else { (z.wrapping_mul(0x7FFF) as int / 0x8000) as i32 };
    ScreenVertex {
        x: round_n(u.viewport_x.wrapping_add(n_mul(clamp_unit(sx), u.viewport_width))) as i16,
        y: round_n(u.viewport_y.wrapping_add(n_mul(clamp_unit(sy), u.viewport_height))) as i16,
        depth,
        colour: v.colour,
        tex: v.tex_coords,
    }
}

fn normalise(c: i32, w: i32, recip: i64) -> (r: i64)
    requires
        recip == half_recip(w),
    ensures
        r == normalised(c, w),
{
    let s: i64 = ((c as i64) + (w as i64)) * 0x1000;
    assert(-0x1_0000_0000_0000 <= s <= 0x1_0000_0000_0000);
    assert(-0x4000_0000_0000_0000_0000_0000_0000_0000 <= s * recip <= 0x4000_0000_0000_0000_0000_0000_0000_0000) by (nonlinear_arith)
        requires
            -0x1_0000_0000_0000 <= s <= 0x1_0000_0000_0000,
            -0x8000_0000_0000_0000 <= recip < 0x8000_0000_0000_0000;
    let prod: i128 = (s as i128) * (recip as i128);
    floor_div128(prod, 0x100_0000) as i64
}

impl ClippingUnit {
    /// Projects a clipped vertex onto the screen.
    pub fn project_vertex(&self, v: &StagedVertex) -> (r: ScreenVertex)
        ensures
            r == projected(*self, *v),
    {
        let p = v.position.elements;
        let w = p[3];
        let recip: i64 = if w == 0 {
            0x7FFF_FFFF_FFFF_FFFF
        } else {
            let d: i64 = (w as i64) * 0x2000;
            let da: i64 = if d < 0 { -d } else { d };
            let q: i64 = 0x1_0000_0000_0000 / da;
            if d < 0 { -q } else { q }
        };
        let x = normalise(p[0], w, recip);
        let y = normalise(p[1], w, recip);
        let z = normalise(p[2], w, recip);
        let sx = floor_div128(x as i128, 0x1000) as i32;
        let sy = N_ONE.wrapping_sub(floor_div128(y as i128, 0x1000) as i32);
        let (px, py) = self.get_screen_coords(sx, sy);
        let depth: i32 = if self.w_buffer {
            floor_div128(w as i128, 8) as i32
        } else {
            floor_div128((z.wrapping_mul(0x7FFF)) as i128, 0x8000) as i32
        };
        ScreenVertex { x: px, y: py, depth, colour: v.colour, tex: v.tex_coords }
    }
}

/// The screen vertices of a clipped polygon, one for each of its vertices.
pub open spec fn projected_all(u: ClippingUnit, vs: Seq<StagedVertex>) -> Seq<ScreenVertex> {
    Seq::new(vs.len(), |i: int| projected(u, vs[i]))
}

/// The lowest screen line among the first `n` projected vertices, and 0 if
/// that is greater.
pub open spec fn projected_y_max(u: ClippingUnit, vs: Seq<StagedVertex>, n: int) -> i16
    decreases n,
{
    if n <= 0 {
        0
    } else {
        let y = projected(u, vs[n - 1]).y;
        let m = projected_y_max(u, vs, n - 1);
        if y > m { y } else { m }
    }
}

/// The highest screen line among the first `n` projected vertices, and
/// `i16::MAX` if there are none.
pub open spec fn projected_y_min(u: ClippingUnit, vs: Seq<StagedVertex>, n: int) -> i16
    decreases n,
{
    if n <= 0 {
        i16::MAX
    } else {
        let y = projected(u, vs[n - 1]).y;
        let m = projected_y_min(u, vs, n - 1);
        if y < m { y } else { m }
    }
}

impl ClippingUnit {
    /// Projects a clipped polygon's vertices onto the screen, adds them to
    /// the vertex RAM and their indices to the polygon, and adds the polygon
    /// to the polygon RAM where the winding test shows it. Returns whether it
    /// was added.
    pub fn add_polygon(
        &self,
        polygon: Polygon,
        vertices: &[StagedVertex],
        ram: &mut PolygonRAM,
        vertex_ram: &mut Vec<ScreenVertex>,
    ) -> (r: bool)
        requires
            old(ram).wf(),
            old(vertex_ram)@.len() + vertices@.len() < usize::MAX,
            polygon.vertex_indices@.len() + vertices@.len() < usize::MAX,
        ensures
            final(vertex_ram)@ == old(vertex_ram)@ + projected_all(*self, vertices@),
            r == spec_test_winding(polygon.attrs, projected_all(*self, vertices@)),
            final(ram).wf(),
            !r ==> *final(ram) == *old(ram),
            r ==> final(ram).polygons@.len() == old(ram).polygons@.len() + 1,
            r ==> ({
                let p = final(ram).polygons@.last();
                let n = vertices@.len() as int;
                &&& p.attrs == polygon.attrs && p.tex == polygon.tex && p.palette == polygon.palette
                &&& p.vertex_indices@ == polygon.vertex_indices@ + Seq::new(
                    vertices@.len(),
                    |i: int| (old(vertex_ram)@.len() + i) as usize,
                )
                &&& polygon_inserted(
                    *old(ram),
                    *final(ram),
                    p,
                    projected_y_max(*self, vertices@, n) as i32,
                    projected_y_min(*self, vertices@, n) as i32,
                )
            }),
    {
        let ghost first = vertex_ram@.len();
        let ghost indices0 = polygon.vertex_indices@;
        let mut staged = polygon;
        let mut out: Vec<ScreenVertex> = Vec::new();
        let mut max_y: i16 = 0;
        let mut min_y: i16 = i16::MAX;
        let n = vertices.len();
        let mut i: usize = 0;
        while i < n
            invariant
                n == vertices@.len(),
                i <= n,
                first == old(vertex_ram)@.len(),
                first + n < usize::MAX,
                indices0.len() + n < usize::MAX,
                vertex_ram@.len() == first + i,
                forall|j: int| 0 <= j < first ==> vertex_ram@[j] == old(vertex_ram)@[j],
                forall|j: int| 0 <= j < i ==> #[trigger] vertex_ram@[first + j] == projected(*self, vertices@[j]),
                out@.len() == i,
                forall|j: int| 0 <= j < i ==> #[trigger] out@[j] == projected(*self, vertices@[j]),
                staged.attrs == polygon.attrs,
                staged.tex == polygon.tex,
                staged.palette == polygon.palette,
                staged.vertex_indices@ == indices0 + Seq::new(i as nat, |k: int| (first + k) as usize),
                max_y == projected_y_max(*self, vertices@, i as int),
                min_y == projected_y_min(*self, vertices@, i as int),
            decreases n - i,
        {
            let sv = self.project_vertex(&vertices[i]);
            if sv.y > max_y {
                max_y = sv.y;
            }
            if sv.y < min_y {
                min_y = sv.y;
            }
            let idx = vertex_ram.len();
            vertex_ram.push(sv);
            staged.vertex_indices.push(idx);
            out.push(sv);
            proof {
                assert(staged.vertex_indices@ =~= indices0 + Seq::new((i + 1) as nat, |k: int| (first + k) as usize));
            }
            i = i + 1;
        }
        proof {
            let want = old(vertex_ram)@ + projected_all(*self, vertices@);
            assert forall|k: int| 0 <= k < vertex_ram@.len() implies vertex_ram@[k] == want[k] by {
                if k >= first {
                    assert(vertex_ram@[first + (k - first)] == projected(*self, vertices@[k - first]));
                }
            }
            assert(vertex_ram@ =~= want);
            assert(out@ =~= projected_all(*self, vertices@));
        }
        let shown = test_winding(staged.attrs, out.as_slice());
        if shown {
            let ghost staged_copy = staged;
            ram.insert_polygon(staged, max_y as i32, min_y as i32);
            proof {
                assert(ram.polygons@.last() == staged_copy);
            }
        }
        shown
    }
}

} // verus!
