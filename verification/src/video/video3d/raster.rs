//! Scan conversion of the 3D renderer: where a polygon crosses a render
//! line, and the attributes of the points between.
//!
//! Values are fixed-point numbers held as their raw bits: depths and
//! interpolation factors have nine fractional bits (`i32`), screen
//! coordinates none (`i16`), texture coordinates four (`i16`). Arithmetic
//! wraps where it overflows.
use vstd::prelude::*;
use crate::video::video3d::drawing::TexCoords;
use crate::video::video3d::palette::Colour;

verus! {

/// One in the depth format: nine fractional bits.
pub const DEPTH_ONE: i32 = 0x200;

/// Product of two values with nine fractional bits, rounded down.
pub open spec fn fx_mul(a: i32, b: i32) -> i32 {
    ((a * b) / 512) as i32
}

/// Quotient of two values with nine fractional bits, rounded toward zero.
pub open spec fn fx_div(a: i32, b: i32) -> i32 {
    trunc_div(a * 512, b as int) as i32
}

/// Integer division rounded toward zero.
pub open spec fn trunc_div(n: int, d: int) -> int {
    let q = abs(n) / abs(d);
    if (n < 0) != (d < 0) { -q } else { q }
}

pub open spec fn abs(n: int) -> int {
    if n < 0 { -n } else { n }
}

/// Integer part of a value with nine fractional bits, rounded down.
pub open spec fn fx_floor(a: i32) -> int {
    a / 512
}

/// Nearest integer to a value with nine fractional bits, halves away
/// from zero.
pub open spec fn fx_round(a: i32) -> int {
    if a < 0 { -((-a + 256) / 512) } else { (a + 256) / 512 }
}

/// A value with nine fractional bits, from an integer.
pub open spec fn fx_int(n: int) -> i32 {
    (n * 512) as i32
}

/// Rounding down a negative quotient is rounding up its magnitude.
pub proof fn lemma_negative_floor(m: int, d: int)
    requires
        m > 0,
        d > 0,
    ensures
        -((m + d - 1) / d) == (-m) / d,
{
    let a = m + d - 1;
    let n = -m;
    vstd::arithmetic::div_mod::lemma_fundamental_div_mod(a, d);
    vstd::arithmetic::div_mod::lemma_fundamental_div_mod(n, d);
    let qa = a / d;
    let ra = a % d;
    let qn = n / d;
    let rn = n % d;
    assert(0 <= ra < d);
    assert(0 <= rn < d);
    assert(d * (qa + qn) == (d - 1) - ra - rn) by (nonlinear_arith)
        requires
            a == d * qa + ra,
            n == d * qn + rn,
            a == m + d - 1,
            n == -m;
    assert(qa + qn == 0) by (nonlinear_arith)
        requires
            d * (qa + qn) == (d - 1) - ra - rn,
            0 <= ra < d,
            0 <= rn < d,
            d > 0;
}

/// Floor division of a non-positive or non-negative 64-bit value by a
/// positive one.
pub(crate) fn floor_div(n: i64, d: i64) -> (r: i64)
    requires
        0 < d <= 0x1_0000_0000,
        -0x4000_0000_0000_0000 <= n <= 0x4000_0000_0000_0000,
    ensures
        r == n / d,
{
    if n >= 0 {
        n / d
    } else {
        let q = (-n + d - 1) / d;
        proof {
            lemma_negative_floor(-n as int, d as int);
        }
        -q
    }
}

/// Floor division of a 128-bit value by a positive one.
pub(crate) fn floor_div128(n: i128, d: i128) -> (r: i128)
    requires
        0 < d <= 0x1_0000_0000,
        -0x4000_0000_0000_0000_0000_0000_0000_0000 <= n <= 0x4000_0000_0000_0000_0000_0000_0000_0000,
    ensures
        r == n / d,
{
    if n >= 0 {
        n / d
    } else {
        let q = (-n + d - 1) / d;
        proof {
            lemma_negative_floor(-n as int, d as int);
        }
        -q
    }
}

/// Multiplies two values with nine fractional bits.
pub fn mul_fx(a: i32, b: i32) -> (r: i32)
    ensures
        r == fx_mul(a, b),
{
    proof {
        assert(-0x4000_0000_0000_0000 <= a * b <= 0x4000_0000_0000_0000) by (nonlinear_arith)
            requires
                -0x8000_0000 <= a < 0x8000_0000,
                -0x8000_0000 <= b < 0x8000_0000;
    }
    let p = (a as i64) * (b as i64);
    let q = floor_div(p, 512);
    q as i32
}

/// Divides two values with nine fractional bits. A zero divisor is left
/// out: there is no quotient.
pub fn div_fx(a: i32, b: i32) -> (r: i32)
    requires
        b != 0,
    ensures
        r == fx_div(a, b),
{
    let n = (a as i64) * 512;
    let na: i64 = if n < 0 { -n } else { n };
    let da: i64 = if b < 0 { -(b as i64) } else { b as i64 };
    let q = na / da;
    if (n < 0) != (b < 0) {
        (-q) as i32
    } else {
        q as i32
    }
}

/// Depths are nearly the same: equal once the low six bits are masked
/// off, or either is zero once masked.
pub open spec fn spec_similar_depth(a: i32, b: i32) -> bool {
    let ma = (a as u32) & 0xFFFF_FFC0;
    let mb = (b as u32) & 0xFFFF_FFC0;
    ma == mb || ma == 0 || mb == 0
}

pub fn similar_depth(a: i32, b: i32) -> (r: bool)
    ensures
        r == spec_similar_depth(a, b),
{
    let ma = (a as u32) & 0xFFFF_FFC0;
    let mb = (b as u32) & 0xFFFF_FFC0;
    ma == mb || ma == 0 || mb == 0
}

/// A fragment passes the depth test: within one of the buffer's depth
/// when rendering on equal depth, else nearer than it.
pub open spec fn spec_test_depth(render_eq: bool, buffer_depth: i32, frag_depth: i32) -> bool {
    if render_eq {
        buffer_depth.wrapping_sub(DEPTH_ONE) <= frag_depth && buffer_depth.wrapping_add(DEPTH_ONE) >= frag_depth
    } else {
        buffer_depth > frag_depth
    }
}

pub fn test_depth(render_eq: bool, buffer_depth: i32, frag_depth: i32) -> (r: bool)
    ensures
        r == spec_test_depth(render_eq, buffer_depth, frag_depth),
{
    if render_eq {
        buffer_depth.wrapping_sub(DEPTH_ONE) <= frag_depth && buffer_depth.wrapping_add(DEPTH_ONE) >= frag_depth
    } else {
        buffer_depth > frag_depth
    }
}

/// The depth test away from the ends of the depth range: normally a
/// fragment passes only when it is strictly nearer than what the buffer
/// holds; with equal-depth rendering, when it lies within one whole depth
/// unit of it either way. A nearer fragment passes wherever a farther one
/// does.
pub proof fn lemma_depth_test(buffer_depth: i32, frag_depth: i32, nearer: i32)
    requires
        i32::MIN + DEPTH_ONE <= buffer_depth <= i32::MAX - DEPTH_ONE,
    ensures
        spec_test_depth(false, buffer_depth, frag_depth) <==> frag_depth < buffer_depth,
        spec_test_depth(true, buffer_depth, frag_depth) <==> buffer_depth - 0x200 <= frag_depth <= buffer_depth + 0x200,
        nearer <= frag_depth && spec_test_depth(false, buffer_depth, frag_depth) ==> spec_test_depth(
            false,
            buffer_depth,
            nearer,
        ),
{
}

/// Two depths are similar when they agree once the low six bits are
/// dropped, and a depth below 0x40 (in its low 32 bits) is similar to all.
pub proof fn lemma_similar_depth(a: i32, b: i32)
    requires
        0 <= a,
        0 <= b,
    ensures
        spec_similar_depth(a, a),
        spec_similar_depth(a, b) == spec_similar_depth(b, a),
{
}

/// A vertex in screen space as the rasterizer reads it: whole screen
/// coordinates, a depth, a colour and texture coordinates.
#[derive(Clone, Copy, PartialEq, Eq, Structural, Debug)]
pub struct ScreenVertex {
    pub x: i16,
    pub y: i16,
    pub depth: i32,
    pub colour: Colour,
    pub tex: TexCoords,
}

/// A whole coordinate in the depth format.
pub open spec fn coord_fx(n: i16) -> i32 {
    (n * 512) as i32
}

/// Moves from `a` toward `b` by `factor`, in the depth format.
pub open spec fn lerp_fx(a: i32, b: i32, factor: i32) -> i32 {
    a.wrapping_add(fx_mul(b.wrapping_sub(a), factor))
}

/// A colour channel moved from `a` toward `b` by `factor`, rounded down.
pub open spec fn lerp_channel(a: u8, b: u8, factor: i32) -> u8 {
    fx_floor(lerp_fx((a * 512) as i32, (b * 512) as i32, factor)) as u8
}

/// A texture coordinate moved from `a` toward `b` by `factor`, rounded
/// down to four fractional bits.
pub open spec fn lerp_tex(a: i16, b: i16, factor: i32) -> i16 {
    (lerp_fx((a * 32) as i32, (b * 32) as i32, factor) / 32) as i16
}

/// Colour and texture coordinates moved from `a` toward `b` by `factor`.
pub open spec fn lerp_attrs(a: ScreenVertex, b: ScreenVertex, factor: i32) -> (Colour, TexCoords) {
    (
        Colour {
            r: lerp_channel(a.colour.r, b.colour.r, factor),
            g: lerp_channel(a.colour.g, b.colour.g, factor),
            b: lerp_channel(a.colour.b, b.colour.b, factor),
        },
        TexCoords { s: lerp_tex(a.tex.s, b.tex.s, factor), t: lerp_tex(a.tex.t, b.tex.t, factor) },
    )
}

/// Interpolating attributes: at factor 0 they are `a`'s, at factor one
/// (0x200) they are `b`'s, and in between each colour channel lies between
/// the two ends.
pub proof fn lemma_lerp_ends(a: ScreenVertex, b: ScreenVertex, factor: i32)
    ensures
        lerp_attrs(a, b, 0) == (a.colour, a.tex),
        lerp_attrs(a, b, DEPTH_ONE) == (b.colour, b.tex),
        0 <= factor <= DEPTH_ONE ==> {
            let c = lerp_attrs(a, b, factor).0;
            &&& (a.colour.r <= c.r <= b.colour.r || b.colour.r <= c.r <= a.colour.r)
            &&& (a.colour.g <= c.g <= b.colour.g || b.colour.g <= c.g <= a.colour.g)
            &&& (a.colour.b <= c.b <= b.colour.b || b.colour.b <= c.b <= a.colour.b)
        },
{
    lemma_lerp_channel(a.colour.r, b.colour.r, factor);
    lemma_lerp_channel(a.colour.g, b.colour.g, factor);
    lemma_lerp_channel(a.colour.b, b.colour.b, factor);
    lemma_lerp_tex(a.tex.s, b.tex.s);
    lemma_lerp_tex(a.tex.t, b.tex.t);
}

proof fn lemma_lerp_channel(x: u8, y: u8, factor: i32)
    ensures
        lerp_channel(x, y, 0) == x,
        lerp_channel(x, y, DEPTH_ONE) == y,
        0 <= factor <= DEPTH_ONE ==> {
            let c = lerp_channel(x, y, factor);
            x <= c <= y || y <= c <= x
        },
{
    let xa = (x * 512) as i32;
    let ya = (y * 512) as i32;
    let diff = ya.wrapping_sub(xa);
    assert(diff == ya - xa);
    assert(fx_mul(diff, 0) == 0);
    assert(fx_mul(diff, DEPTH_ONE) == diff) by {
        assert(diff * 512 / 512 == diff) by (nonlinear_arith);
    }
    if 0 <= factor <= DEPTH_ONE {
        let m = diff * factor;
        if x <= y {
            assert(0 <= m <= diff * 512) by (nonlinear_arith)
                requires m == diff * factor, diff >= 0, 0 <= factor <= 512;
        } else {
            assert(diff * 512 <= m <= 0) by (nonlinear_arith)
                requires m == diff * factor, diff < 0, 0 <= factor <= 512;
        }
        let f = fx_mul(diff, factor);
        assert(xa + f == xa.wrapping_add(f));
        let v = xa + f;
        if x <= y {
            assert(x * 512 <= v <= y * 512);
        } else {
            assert(y * 512 <= v <= x * 512);
        }
        assert((x * 512) / 512 == x && (y * 512) / 512 == y);
        if x <= y {
            vstd::arithmetic::div_mod::lemma_div_is_ordered(x * 512, v, 512);
            vstd::arithmetic::div_mod::lemma_div_is_ordered(v, y * 512, 512);
        } else {
            vstd::arithmetic::div_mod::lemma_div_is_ordered(y * 512, v, 512);
            vstd::arithmetic::div_mod::lemma_div_is_ordered(v, x * 512, 512);
        }
    }
}

proof fn lemma_lerp_tex(x: i16, y: i16)
    ensures
        lerp_tex(x, y, 0) == x,
        lerp_tex(x, y, DEPTH_ONE) == y,
{
    let xa = (x * 32) as i32;
    let ya = (y * 32) as i32;
    let diff = ya.wrapping_sub(xa);
    assert(diff == ya - xa);
    assert(fx_mul(diff, 0) == 0);
    assert(diff * 512 / 512 == diff) by (nonlinear_arith);
    assert(xa.wrapping_add(0) == xa);
    assert(xa.wrapping_add(diff) == ya);
    assert((x * 32) / 32 == x && (y * 32) / 32 == y);
}

/// The factor for a point along an edge: 0 at its start and one (0x200)
/// at its end, where the edge has length and the depths are taken as alike.
pub proof fn lemma_factor_ends(p0: i16, p1: i16)
    requires
        p0 < p1,
        p1 - p0 <= i16::MAX,
    ensures
        linear_factor(p0, p1, p0) == 0,
        linear_factor(p0, p1, p1) == DEPTH_ONE,
{
    let len = p1.wrapping_sub(p0);
    assert(len == p1 - p0);
    assert(p0.wrapping_sub(p0) == 0);
    assert(p1.wrapping_sub(p1) == 0);
    assert(spec_similar_depth(0, 0));
    let o = coord_fx(len);
    assert(o == len * 512);
    assert(coord_fx(0) == 0);
    assert(0i32.wrapping_add(o) == o);
    assert(o.wrapping_add(0) == o);
    assert(trunc_div(0, o as int) == 0);
    assert(trunc_div(o * 512, o as int) == 512) by {
        assert(o > 0);
        let oi = o as int;
        assert((oi * 512) / oi == 512) by (nonlinear_arith) requires oi > 0;
    }
}

/// The share of the way from `p0` to `p1` at which `p` lies, weighted by
/// the depths `d0` and `d1` unless they are similar: the numerator and
/// denominator of the quotient.
pub open spec fn weighted_terms(p0: i16, p1: i16, p: i16, d0: i32, d1: i32) -> (i32, i32) {
    let over = coord_fx(p.wrapping_sub(p0));
    let under = coord_fx(p1.wrapping_sub(p));
    if spec_similar_depth(d0, d1) {
        (over, under.wrapping_add(over))
    } else {
        let o = fx_mul(over, d0);
        (o, fx_mul(under, d1).wrapping_add(o))
    }
}

/// The perspective-correct factor has a non-zero denominator.
pub open spec fn weighted_defined(p0: i16, p1: i16, p: i16, d0: i32, d1: i32) -> bool {
    weighted_terms(p0, p1, p, d0, d1).1 != 0
}

pub open spec fn weighted_factor(p0: i16, p1: i16, p: i16, d0: i32, d1: i32) -> i32 {
    let t = weighted_terms(p0, p1, p, d0, d1);
    fx_div(t.0, t.1)
}

/// The factor is computed without weighting where `d0` and `d1` are
/// taken as similar.
pub open spec fn linear_factor(p0: i16, p1: i16, p: i16) -> i32 {
    weighted_factor(p0, p1, p, 0, 0)
}

/// Where the edge from `top` to `bottom` crosses line `y`, with its
/// attributes interpolated: the position linearly, the rest
/// perspective-correct.
pub open spec fn edge_point(top: ScreenVertex, bottom: ScreenVertex, y: i16) -> ScreenVertex {
    let x_factor = linear_factor(top.y, bottom.y, y);
    let factor = weighted_factor(top.y, bottom.y, y, top.depth, bottom.depth);
    let x_offset = fx_mul(coord_fx(bottom.x.wrapping_sub(top.x)), x_factor);
    let attrs = lerp_attrs(top, bottom, factor);
    ScreenVertex {
        x: fx_round(coord_fx(top.x).wrapping_add(x_offset)) as i16,
        y,
        depth: lerp_fx(top.depth, bottom.depth, factor),
        colour: attrs.0,
        tex: attrs.1,
    }
}

/// The edge point can be computed: neither factor divides by zero.
pub open spec fn edge_defined(top: ScreenVertex, bottom: ScreenVertex, y: i16) -> bool {
    weighted_defined(top.y, bottom.y, y, 0, 0) && weighted_defined(top.y, bottom.y, y, top.depth, bottom.depth)
}

/// The edge from `a` to `b` crosses line `y` and is not level.
pub open spec fn crosses(a: ScreenVertex, b: ScreenVertex, y: i16) -> bool {
    !((y > a.y && y > b.y) || (y < a.y && y < b.y) || a.y == b.y)
}

/// The upper and the lower end of an edge (the lower has the greater y).
pub open spec fn ends(a: ScreenVertex, b: ScreenVertex) -> (ScreenVertex, ScreenVertex) {
    if a.y > b.y { (b, a) } else { (a, b) }
}

/// The edge from vertex `i` of the polygon to the next, wrapping round.
pub open spec fn edge(vs: Seq<ScreenVertex>, idx: Seq<usize>, i: int) -> (ScreenVertex, ScreenVertex) {
    (vs[idx[i] as int], vs[idx[(i + 1) % (idx.len() as int)] as int])
}

/// An edge meets the first edge found on the line only at one of its ends:
/// it is passed over.
pub open spec fn joins_first(line_a: Option<(i16, i16)>, top: ScreenVertex, bottom: ScreenVertex) -> bool {
    line_a matches Some((ta, ba)) && (top.y == ba || bottom.y == ta)
}

/// The scan over the edges from `i` on, with the point found so far and
/// the span of the first edge: the two points where the polygon crosses
/// line `y`, in order of x, or none.
pub open spec fn scan(
    vs: Seq<ScreenVertex>,
    idx: Seq<usize>,
    y: i16,
    i: int,
    first: Option<ScreenVertex>,
    line_a: Option<(i16, i16)>,
) -> Option<(ScreenVertex, ScreenVertex)>
    decreases idx.len() - i,
{
    if i < 0 || i >= idx.len() {
        None
    } else {
        let (a, b) = edge(vs, idx, i);
        let (top, bottom) = ends(a, b);
        if !crosses(a, b, y) || joins_first(line_a, top, bottom) {
            scan(vs, idx, y, i + 1, first, line_a)
        } else {
            let la = if line_a is None { Some((top.y, bottom.y)) } else { line_a };
            let v = edge_point(top, bottom, y);
            match first {
                None => scan(vs, idx, y, i + 1, Some(v), la),
                Some(p) => Some(if p.x < v.x { (p, v) } else { (v, p) }),
            }
        }
    }
}

/// Every edge point that the scan from `i` on computes can be computed.
pub open spec fn scan_defined(
    vs: Seq<ScreenVertex>,
    idx: Seq<usize>,
    y: i16,
    i: int,
    first: Option<ScreenVertex>,
    line_a: Option<(i16, i16)>,
) -> bool
    decreases idx.len() - i,
{
    if i < 0 || i >= idx.len() {
        true
    } else {
        let (a, b) = edge(vs, idx, i);
        let (top, bottom) = ends(a, b);
        if !crosses(a, b, y) || joins_first(line_a, top, bottom) {
            scan_defined(vs, idx, y, i + 1, first, line_a)
        } else {
            let la = if line_a is None { Some((top.y, bottom.y)) } else { line_a };
            &&& edge_defined(top, bottom, y)
            &&& match first {
                None => scan_defined(vs, idx, y, i + 1, Some(edge_point(top, bottom, y)), la),
                Some(p) => true,
            }
        }
    }
}

/// The points where the polygon with these vertex indices crosses line
/// `y`, in order of x.
pub open spec fn spec_intersect(vs: Seq<ScreenVertex>, idx: Seq<usize>, y: i16) -> Option<(ScreenVertex, ScreenVertex)> {
    scan(vs, idx, y, 0, None, None)
}

/// The scan finds points on line `y`, the first of them the leftmost.
pub proof fn lemma_scan_ordered(
    vs: Seq<ScreenVertex>,
    idx: Seq<usize>,
    y: i16,
    i: int,
    first: Option<ScreenVertex>,
    line_a: Option<(i16, i16)>,
)
    requires
        first matches Some(p) ==> p.y == y,
    ensures
        scan(vs, idx, y, i, first, line_a) matches Some(pr) ==> pr.0.x <= pr.1.x && pr.0.y == y && pr.1.y == y,
    decreases idx.len() - i,
{
    if 0 <= i < idx.len() {
        let (a, b) = edge(vs, idx, i);
        let (top, bottom) = ends(a, b);
        let la = if line_a is None { Some((top.y, bottom.y)) } else { line_a };
        lemma_scan_ordered(vs, idx, y, i + 1, first, line_a);
        lemma_scan_ordered(vs, idx, y, i + 1, Some(edge_point(top, bottom, y)), la);
    }
}

fn coord_to_fx(n: i16) -> (r: i32)
    ensures
        r == coord_fx(n),
{
    (n as i32) * 512
}

fn lerp(a: i32, b: i32, factor: i32) -> (r: i32)
    ensures
        r == lerp_fx(a, b, factor),
{
    a.wrapping_add(mul_fx(b.wrapping_sub(a), factor))
}

fn lerp_colour_channel(a: u8, b: u8, factor: i32) -> (r: u8)
    ensures
        r == lerp_channel(a, b, factor),
{
    let v = lerp((a as i32) * 512, (b as i32) * 512, factor);
    let q = floor_div(v as i64, 512);
    q as u8
}

fn lerp_tex_coord(a: i16, b: i16, factor: i32) -> (r: i16)
    ensures
        r == lerp_tex(a, b, factor),
{
    let v = lerp((a as i32) * 32, (b as i32) * 32, factor);
    let q = floor_div(v as i64, 32);
    q as i16
}

/// Colour and texture coordinates moved from `a` toward `b` by `factor`.
pub fn interpolate_attrs(a: &ScreenVertex, b: &ScreenVertex, factor: i32) -> (r: (Colour, TexCoords))
    ensures
        r == lerp_attrs(*a, *b, factor),
{
    (
        Colour {
            r: lerp_colour_channel(a.colour.r, b.colour.r, factor),
            g: lerp_colour_channel(a.colour.g, b.colour.g, factor),
            b: lerp_colour_channel(a.colour.b, b.colour.b, factor),
        },
        TexCoords { s: lerp_tex_coord(a.tex.s, b.tex.s, factor), t: lerp_tex_coord(a.tex.t, b.tex.t, factor) },
    )
}

/// The perspective-correct share of the way from `p0` to `p1` at `p`.
pub fn interp_factor(p0: i16, p1: i16, p: i16, d0: i32, d1: i32) -> (r: i32)
    requires
        weighted_defined(p0, p1, p, d0, d1),
    ensures
        r == weighted_factor(p0, p1, p, d0, d1),
{
    let over = coord_to_fx(p.wrapping_sub(p0));
    let under = coord_to_fx(p1.wrapping_sub(p));
    if similar_depth(d0, d1) {
        div_fx(over, under.wrapping_add(over))
    } else {
        let o = mul_fx(over, d0);
        div_fx(o, mul_fx(under, d1).wrapping_add(o))
    }
}

fn round_fx(a: i32) -> (r: i16)
    ensures
        r == fx_round(a) as i16,
{
    let v = a as i64;
    let q: i64 = if v < 0 { -((-v + 256) / 512) } else { (v + 256) / 512 };
    q as i16
}

/// Where the edge from `top` to `bottom` crosses line `y`.
pub fn intersect_edge(top: &ScreenVertex, bottom: &ScreenVertex, y: i16) -> (r: ScreenVertex)
    requires
        edge_defined(*top, *bottom, y),
    ensures
        r == edge_point(*top, *bottom, y),
{
    let x_factor = interp_factor(top.y, bottom.y, y, 0, 0);
    let factor = interp_factor(top.y, bottom.y, y, top.depth, bottom.depth);
    let x_offset = mul_fx(coord_to_fx(bottom.x.wrapping_sub(top.x)), x_factor);
    let attrs = interpolate_attrs(top, bottom, factor);
    ScreenVertex {
        x: round_fx(coord_to_fx(top.x).wrapping_add(x_offset)),
        y,
        depth: lerp(top.depth, bottom.depth, factor),
        colour: attrs.0,
        tex: attrs.1,
    }
}

/// Finds the first two points where the polygon whose vertices `indices`
/// picks out crosses line `y`, in order of x position.
pub fn find_intersect_points(vertices: &Vec<ScreenVertex>, indices: &Vec<usize>, y: i16) -> (r: Option<(ScreenVertex, ScreenVertex)>)
    requires
        forall|i: int| 0 <= i < indices.len() ==> #[trigger] indices[i] < vertices.len(),
        scan_defined(vertices@, indices@, y, 0, None, None),
    ensures
        r == spec_intersect(vertices@, indices@, y),
        r matches Some(pr) ==> pr.0.x <= pr.1.x && pr.0.y == y && pr.1.y == y,
{
    let n = indices.len();
    let mut first: Option<ScreenVertex> = None;
    let mut line_a: Option<(i16, i16)> = None;
    let mut i: usize = 0;
    while i < n
        invariant
            n == indices.len(),
            i <= n,
            forall|k: int| 0 <= k < indices.len() ==> #[trigger] indices[k] < vertices.len(),
            scan(vertices@, indices@, y, i as int, first, line_a) == spec_intersect(vertices@, indices@, y),
            scan_defined(vertices@, indices@, y, i as int, first, line_a),
        decreases n - i,
    {
        let a = vertices[indices[i]];
        let b = vertices[indices[(i + 1) % n]];
        let (top, bottom) = if a.y > b.y { (b, a) } else { (a, b) };
        let crossing = !((y > a.y && y > b.y) || (y < a.y && y < b.y) || a.y == b.y);
        let joins = match line_a {
            Some((ta, ba)) => top.y == ba || bottom.y == ta,
            None => false,
        };
        if crossing && !joins {
            if line_a.is_none() {
                line_a = Some((top.y, bottom.y));
            }
            let v = intersect_edge(&top, &bottom, y);
            match first {
                None => {
                    first = Some(v);
                },
                Some(p) => {
                    let res = if p.x < v.x { (p, v) } else { (v, p) };
                    assert(Some(res) == spec_intersect(vertices@, indices@, y));
                    proof {
                        lemma_scan_ordered(vertices@, indices@, y, 0, None, None);
                    }
                    return Some(res);
                },
            }
        }
        i = i + 1;
    }
    None
}

} // verus!
