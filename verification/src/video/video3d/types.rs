//! Polygon and texture attribute words, polygons and vertices, and the
//! polygon RAM that orders a frame's polygons for drawing.
use vstd::prelude::*;
use std::cmp::Ordering;
use crate::video::video3d::palette::Colour;

verus! {

pub const POLY_ID: u32 = 0x3F00_0000;
pub const POLY_ALPHA: u32 = 0x001F_0000;
pub const POLY_MODE: u32 = 0x0000_0030;
pub const TEX_FORMAT: u32 = 0x1C00_0000;
pub const TEX_ADDR: u32 = 0x0000_FFFF;

/// A polygon attribute word.
#[derive(Clone, Copy, PartialEq, Eq, Structural)]
pub struct PolygonAttrs {
    pub bits: u32,
}

impl PolygonAttrs {
    /// Alpha: bits 16 to 20.
    pub fn alpha(self) -> (r: u8)
        ensures
            r == (self.bits / 0x1_0000) % 0x20,
    {
        ((self.bits / 0x1_0000) % 0x20) as u8
    }

    /// Polygon id: bits 24 to 29.
    pub fn id(self) -> (r: u8)
        ensures
            r == (self.bits / 0x100_0000) % 0x40,
    {
        ((self.bits / 0x100_0000) % 0x40) as u8
    }

    /// Polygon mode: bits 4 and 5.
    pub fn mode(self) -> (r: u8)
        ensures
            r == (self.bits / 0x10) % 4,
    {
        ((self.bits / 0x10) % 4) as u8
    }
}

/// A texture attribute word.
#[derive(Clone, Copy, PartialEq, Eq, Structural)]
pub struct TextureAttrs {
    pub bits: u32,
}

impl TextureAttrs {
    /// Texture address: bits 0 to 15.
    pub fn addr(self) -> (r: u32)
        ensures
            r == self.bits % 0x1_0000,
    {
        self.bits % 0x1_0000
    }

    /// Texture format: bits 26 to 28.
    pub fn format(self) -> (r: u8)
        ensures
            r == (self.bits / 0x400_0000) % 8,
    {
        ((self.bits / 0x400_0000) % 8) as u8
    }
}

/// A polygon: its attributes, texture, palette and vertices.
pub struct Polygon {
    pub attrs: PolygonAttrs,
    pub tex: TextureAttrs,
    pub palette: u16,
    pub vertex_indices: Vec<usize>,
}

impl Polygon {
    /// A polygon is opaque when it is wireframe (alpha 0) or fully opaque
    /// (alpha 31), and its texture format is not a translucent one (A3I5
    /// or A5I3).
    pub open spec fn spec_is_opaque(&self) -> bool {
        let alpha = (self.attrs.bits / 0x1_0000) % 0x20;
        let format = (self.tex.bits / 0x400_0000) % 8;
        (alpha == 0 || alpha == 31) && format != 1 && format != 6
    }

    pub fn is_opaque(&self) -> (r: bool)
        ensures
            r == self.spec_is_opaque(),
    {
        let alpha = self.attrs.alpha();
        let tex_format = self.tex.format();
        (alpha == 0 || alpha == 31) && (tex_format != 1 && tex_format != 6)
    }
}


/// Where a polygon comes in the drawing order: by its lowest screen line
/// (`y_max`), then its highest (`y_min`), then its index. The lines are
/// 20.12 fixed-point values held as their raw bits, which order as the
/// values do.
#[derive(Clone, Copy, PartialEq, Eq, Structural)]
pub struct PolygonOrder {
    pub y_max: i32,
    pub y_min: i32,
    pub polygon_index: usize,
}

/// `a` comes strictly before `b`.
pub open spec fn order_lt(a: PolygonOrder, b: PolygonOrder) -> bool {
    ||| a.y_max < b.y_max
    ||| a.y_max == b.y_max && a.y_min < b.y_min
    ||| a.y_max == b.y_max && a.y_min == b.y_min && a.polygon_index < b.polygon_index
}

/// Strictly ascending, so without repeats.
pub open spec fn sorted_orders(s: Seq<PolygonOrder>) -> bool {
    forall|i: int, j: int| 0 <= i < j < s.len() ==> order_lt(#[trigger] s[i], #[trigger] s[j])
}

impl PolygonOrder {
    /// Whether this place comes strictly before `other`.
    pub fn precedes(&self, other: &Self) -> (r: bool)
        ensures
            r == order_lt(*self, *other),
    {
        self.y_max < other.y_max || (self.y_max == other.y_max && (self.y_min < other.y_min || (self.y_min
            == other.y_min && self.polygon_index < other.polygon_index)))
    }

    /// Compares two places in the drawing order.
    pub fn cmp(&self, other: &Self) -> (r: Ordering)
        ensures
            r == (if order_lt(*self, *other) {
                Ordering::Less
            } else if *self == *other {
                Ordering::Equal
            } else {
                Ordering::Greater
            }),
    {
        if self.y_max < other.y_max {
            Ordering::Less
        } else if self.y_max > other.y_max {
            Ordering::Greater
        } else if self.y_min < other.y_min {
            Ordering::Less
        } else if self.y_min > other.y_min {
            Ordering::Greater
        } else if self.polygon_index < other.polygon_index {
            Ordering::Less
        } else if self.polygon_index > other.polygon_index {
            Ordering::Greater
        } else {
            Ordering::Equal
        }
    }
}

/// A point in screen space (or texture space): 20.12 fixed-point
/// coordinates, held as their raw bits.
#[derive(Clone, Copy, PartialEq, Eq, Structural)]
pub struct Coords {
    pub x: i32,
    pub y: i32,
}

/// A vertex: screen position, depth (23.9 fixed point, raw bits), colour
/// and texture coordinates.
#[derive(Clone, Copy)]
pub struct Vertex {
    pub screen_p: Coords,
    pub depth: i32,
    pub colour: Colour,
    pub tex_coords: Coords,
}

/// A frame's polygons and vertices, and the order to draw the polygons in:
/// opaque ones sorted, translucent ones sorted too, or in the order they
/// came where manual order is on.
pub struct PolygonRAM {
    pub opaque_polygons: Vec<PolygonOrder>,
    pub use_manual_mode: bool,
    pub trans_polygon_auto: Vec<PolygonOrder>,
    pub trans_polygon_manual: Vec<PolygonOrder>,
    pub polygons: Vec<Polygon>,
    pub vertices: Vec<Vertex>,
}

/// Puts `o` in its place in a sorted list, where it is not there yet.
fn insert_ordered(v: &mut Vec<PolygonOrder>, o: PolygonOrder)
    requires
        sorted_orders(old(v)@),
    ensures
        sorted_orders(final(v)@),
        forall|x: PolygonOrder| final(v)@.contains(x) <==> (old(v)@.contains(x) || x == o),
{
    let mut i: usize = 0;
    while i < v.len() && v[i].precedes(&o)
        invariant
            i <= v@.len(),
            sorted_orders(v@),
            v@ == old(v)@,
            forall|k: int| 0 <= k < i ==> order_lt(#[trigger] v@[k], o),
        decreases v@.len() - i,
    {
        i = i + 1;
    }
    if i < v.len() && v[i] == o {
        return;
    }
    proof {
        if i < v@.len() {
            assert(!order_lt(v@[i as int], o) && v@[i as int] != o);
            assert forall|k: int| i <= k < v@.len() implies order_lt(o, #[trigger] v@[k]) by {
                if k > i {
                    assert(order_lt(v@[i as int], v@[k]));
                }
            }
        }
    }
    v.insert(i, o);
    proof {
        assert forall|x: PolygonOrder| v@.contains(x) <==> (old(v)@.contains(x) || x == o) by {
            if old(v)@.contains(x) {
                let k = choose|k: int| 0 <= k < old(v)@.len() && old(v)@[k] == x;
                if k < i {
                    assert(v@[k] == x);
                } else {
                    assert(v@[k + 1] == x);
                }
            }
            if v@.contains(x) {
                let k = choose|k: int| 0 <= k < v@.len() && v@[k] == x;
                if k < i {
                    assert(old(v)@[k] == x);
                } else if k > i {
                    assert(old(v)@[k - 1] == x);
                }
            }
            if x == o {
                assert(v@[i as int] == o);
            }
        }
    }
}

/// What adding `polygon` with screen lines `y_min` to `y_max` does to the
/// polygon RAM: the polygon comes last, its vertices and the order mode
/// stay, and its place goes among the opaque polygons where it is opaque,
/// else at the end of the translucent ones in manual order, else among the
/// translucent ones by its place.
pub open spec fn polygon_inserted(old_ram: PolygonRAM, new_ram: PolygonRAM, polygon: Polygon, y_max: i32, y_min: i32) -> bool {
    let o = PolygonOrder { y_max, y_min, polygon_index: old_ram.polygons@.len() as usize };
    &&& new_ram.polygons@ == old_ram.polygons@.push(polygon)
    &&& new_ram.vertices == old_ram.vertices
    &&& new_ram.use_manual_mode == old_ram.use_manual_mode
    &&& if polygon.spec_is_opaque() {
        &&& forall|x: PolygonOrder| new_ram.opaque_polygons@.contains(x) <==> (old_ram.opaque_polygons@.contains(x) || x == o)
        &&& new_ram.trans_polygon_auto == old_ram.trans_polygon_auto
        &&& new_ram.trans_polygon_manual == old_ram.trans_polygon_manual
    } else if old_ram.use_manual_mode {
        &&& new_ram.trans_polygon_manual@ == old_ram.trans_polygon_manual@.push(o)
        &&& new_ram.opaque_polygons == old_ram.opaque_polygons
        &&& new_ram.trans_polygon_auto == old_ram.trans_polygon_auto
    } else {
        &&& forall|x: PolygonOrder| new_ram.trans_polygon_auto@.contains(x) <==> (old_ram.trans_polygon_auto@.contains(x) || x == o)
        &&& new_ram.opaque_polygons == old_ram.opaque_polygons
        &&& new_ram.trans_polygon_manual == old_ram.trans_polygon_manual
    }
}

impl PolygonRAM {
    /// Both sorted lists ascend.
    pub open spec fn wf(&self) -> bool {
        sorted_orders(self.opaque_polygons@) && sorted_orders(self.trans_polygon_auto@)
    }

    /// Empty, in automatic order.
    pub fn new() -> (r: Self)
        ensures
            r.wf(),
            r.opaque_polygons@.len() == 0 && r.trans_polygon_auto@.len() == 0,
            r.trans_polygon_manual@.len() == 0,
            r.polygons@.len() == 0 && r.vertices@.len() == 0,
            !r.use_manual_mode,
    {
        PolygonRAM {
            opaque_polygons: Vec::new(),
            use_manual_mode: false,
            trans_polygon_auto: Vec::new(),
            trans_polygon_manual: Vec::new(),
            polygons: Vec::new(),
            vertices: Vec::new(),
        }
    }

    /// Empties the polygon and vertex RAM for the next frame, and sets
    /// whether translucent polygons are drawn in the order they come.
    pub fn clear(&mut self, use_manual_mode: bool)
        ensures
            final(self).wf(),
            final(self).opaque_polygons@.len() == 0 && final(self).trans_polygon_auto@.len() == 0,
            final(self).trans_polygon_manual@.len() == 0,
            final(self).polygons@.len() == 0 && final(self).vertices@.len() == 0,
            final(self).use_manual_mode == use_manual_mode,
    {
        self.opaque_polygons.clear();
        self.use_manual_mode = use_manual_mode;
        self.trans_polygon_auto.clear();
        self.trans_polygon_manual.clear();
        self.polygons.clear();
        self.vertices.clear();
    }

    /// Adds a vertex; returns its index.
    pub fn insert_vertex(&mut self, vertex: Vertex) -> (r: usize)
        ensures
            r == old(self).vertices@.len(),
            final(self).vertices@ == old(self).vertices@.push(vertex),
            final(self).opaque_polygons == old(self).opaque_polygons,
            final(self).trans_polygon_auto == old(self).trans_polygon_auto,
            final(self).trans_polygon_manual == old(self).trans_polygon_manual,
            final(self).polygons == old(self).polygons,
            final(self).use_manual_mode == old(self).use_manual_mode,
    {
        let index = self.vertices.len();
        self.vertices.push(vertex);
        index
    }

    /// Adds a polygon, with its lowest and highest screen lines, and puts it
    /// in the drawing order: among the opaque polygons where it is opaque,
    /// else at the end of the translucent ones in manual order, else among
    /// the translucent ones by its place.
    pub fn insert_polygon(&mut self, polygon: Polygon, y_max: i32, y_min: i32)
        requires
            old(self).wf(),
        ensures
            final(self).wf(),
            polygon_inserted(*old(self), *final(self), polygon, y_max, y_min),
    {
        let polygon_index = self.polygons.len();
        let polygon_order = PolygonOrder { y_max, y_min, polygon_index };
        if polygon.is_opaque() {
            insert_ordered(&mut self.opaque_polygons, polygon_order);
        } else if self.use_manual_mode {
            self.trans_polygon_manual.push(polygon_order);
        } else {
            insert_ordered(&mut self.trans_polygon_auto, polygon_order);
        }
        self.polygons.push(polygon);
    }
}

} // verus!
