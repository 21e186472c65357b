use spa::video::video3d::clip::ClipPlane;
use spa::video::video3d::commandfifo::GeomCommandFifo;
use spa::video::video3d::palette::{Colour, TexPaletteCache, PALETTE_BANK_COLOURS, TEX_PALETTE_COLOURS};
use spa::video::video3d::types::{
    Coords, Polygon, PolygonAttrs, PolygonOrder, PolygonRAM, TextureAttrs, Vertex,
};
use std::cmp::Ordering;

#[test]
fn command_fifo_keeps_order() {
    let mut f = GeomCommandFifo::new();
    assert!(f.is_empty());
    f.push_command_buffer(0x11);
    f.push_command_cpu(0xAA, 0x12, 2);
    f.push_command_cpu(0xBB, 0x99, 0);
    f.push_command_cpu(0xCC, 0x15, 0);
    assert_eq!(f.len(), 5);
    assert_eq!(f.pop(), Some(0x11));
    assert_eq!(f.pop_n(3), Some(vec![0x12, 0xAA, 0xBB]));
    assert_eq!(f.pop_n(2), None);
    assert_eq!(f.pop(), Some(0x15));
    assert_eq!(f.pop(), None);
}

#[test]
fn command_fifo_interrupt_conditions() {
    let mut f = GeomCommandFifo::new();
    assert!(!f.interrupt());
    f.set_interrupt_cond(0x8000_0000 | 0x1234);
    assert_eq!(f.get_interrupt_cond(), 0x8000_0000);
    assert!(f.interrupt());
    f.push_command_buffer(1);
    assert!(!f.interrupt());
    f.set_interrupt_cond(0x4000_0000);
    assert!(f.interrupt());
    for i in 0..127 {
        f.push_command_buffer(i);
    }
    assert!(!f.under_half_full());
    assert!(!f.interrupt());
    for i in 0..128 {
        f.push_command_buffer(i);
    }
    assert!(f.is_full());
    f.set_interrupt_cond(0xC000_0000);
    assert!(!f.interrupt());
}

#[test]
fn polygon_attribute_fields() {
    let a = PolygonAttrs { bits: (0x2A << 24) | (0x1F << 16) | (2 << 4) };
    assert_eq!(a.id(), 0x2A);
    assert_eq!(a.alpha(), 0x1F);
    assert_eq!(a.mode(), 2);
    let t = TextureAttrs { bits: (5 << 26) | 0x1234_5678 & 0xE3FF_FFFF };
    assert_eq!(t.format(), 5);
    assert_eq!(t.addr(), 0x5678);
}

#[test]
fn polygon_opacity() {
    let poly = |alpha: u32, format: u32| Polygon {
        attrs: PolygonAttrs { bits: alpha << 16 },
        tex: TextureAttrs { bits: format << 26 },
        palette: 0,
        vertex_indices: vec![0, 1, 2],
    };
    assert!(poly(31, 0).is_opaque());
    assert!(poly(0, 2).is_opaque());
    assert!(!poly(15, 0).is_opaque());
    assert!(!poly(31, 1).is_opaque());
    assert!(!poly(31, 6).is_opaque());
}

#[test]
fn clip_plane_order() {
    let planes = ClipPlane::all();
    assert!(planes[0] == ClipPlane::Near);
    assert!(planes[1] == ClipPlane::Far);
    assert!(planes[5] == ClipPlane::Top);
}

#[test]
fn colours_from_15_bit() {
    assert!(Colour::from_555(0x7FFF) == Colour { r: 248, g: 248, b: 248 });
    assert!(Colour::from_555(0x001F) == Colour { r: 248, g: 0, b: 0 });
    assert!(Colour::from_555(0x03E0) == Colour { r: 0, g: 248, b: 0 });
    assert!(Colour::from_555(0x7C00) == Colour { r: 0, g: 0, b: 248 });
    assert!(Colour::black() == Colour { r: 0, g: 0, b: 0 });
}

#[test]
fn palette_cache_copies_mapped_banks() {
    let mut cache = TexPaletteCache::new();
    assert!(cache.get_tex_colour(0) == Colour::black());
    let bank0 = vec![0x1Fu8, 0x00, 0xE0, 0x03];
    let bank2 = vec![0x00u8, 0x7C];
    cache.update_tex(&[Some(&bank0[..]), None, Some(&bank2[..])]);
    assert!(cache.get_tex_colour(0) == Colour { r: 248, g: 0, b: 0 });
    assert!(cache.get_tex_colour(1) == Colour { r: 0, g: 248, b: 0 });
    assert!(cache.get_tex_colour(2) == Colour::black());
    assert!(cache.get_tex_colour(2 * PALETTE_BANK_COLOURS as u32) == Colour { r: 0, g: 0, b: 248 });
    assert!(cache.get_tex_colour(TEX_PALETTE_COLOURS as u32 - 1) == Colour::black());
}

fn poly_with_alpha(alpha: u32) -> Polygon {
    Polygon {
        attrs: PolygonAttrs { bits: alpha << 16 },
        tex: TextureAttrs { bits: 0 },
        palette: 0,
        vertex_indices: vec![0, 1, 2],
    }
}

fn orders(v: &[PolygonOrder]) -> Vec<(i32, i32, usize)> {
    v.iter().map(|o| (o.y_max, o.y_min, o.polygon_index)).collect()
}

#[test]
fn polygon_order_compares_lowest_line_first() {
    let a = PolygonOrder { y_max: 10, y_min: 5, polygon_index: 3 };
    let b = PolygonOrder { y_max: 11, y_min: 0, polygon_index: 0 };
    let c = PolygonOrder { y_max: 10, y_min: 6, polygon_index: 0 };
    let d = PolygonOrder { y_max: 10, y_min: 5, polygon_index: 4 };
    assert_eq!(a.cmp(&b), Ordering::Less);
    assert_eq!(b.cmp(&a), Ordering::Greater);
    assert_eq!(a.cmp(&c), Ordering::Less);
    assert_eq!(a.cmp(&d), Ordering::Less);
    assert_eq!(a.cmp(&a), Ordering::Equal);
    assert!(a.precedes(&d) && !d.precedes(&a));
}

#[test]
fn polygon_ram_sorts_opaque_and_translucent() {
    let mut ram = PolygonRAM::new();
    ram.insert_polygon(poly_with_alpha(31), 100, 50);
    ram.insert_polygon(poly_with_alpha(15), 80, 10);
    ram.insert_polygon(poly_with_alpha(0), 20, 10);
    ram.insert_polygon(poly_with_alpha(15), 40, 30);
    ram.insert_polygon(poly_with_alpha(31), 100, 40);
    assert_eq!(orders(&ram.opaque_polygons), vec![(20, 10, 2), (100, 40, 4), (100, 50, 0)]);
    assert_eq!(orders(&ram.trans_polygon_auto), vec![(40, 30, 3), (80, 10, 1)]);
    assert!(ram.trans_polygon_manual.is_empty());
    assert_eq!(ram.polygons.len(), 5);
}

#[test]
fn polygon_ram_manual_order_and_clear() {
    let mut ram = PolygonRAM::new();
    ram.clear(true);
    ram.insert_polygon(poly_with_alpha(15), 80, 10);
    ram.insert_polygon(poly_with_alpha(15), 40, 30);
    assert_eq!(orders(&ram.trans_polygon_manual), vec![(80, 10, 0), (40, 30, 1)]);
    assert!(ram.trans_polygon_auto.is_empty());
    let v = Vertex {
        screen_p: Coords { x: 1 << 12, y: 2 << 12 },
        depth: 0,
        colour: Colour { r: 1, g: 2, b: 3 },
        tex_coords: Coords { x: 0, y: 0 },
    };
    assert_eq!(ram.insert_vertex(v), 0);
    assert_eq!(ram.insert_vertex(v), 1);
    ram.clear(false);
    assert!(ram.polygons.is_empty() && ram.vertices.is_empty() && ram.trans_polygon_manual.is_empty());
    assert!(!ram.use_manual_mode);
}

#[test]
fn geometry_engine_status_word() {
    let mut f = GeomCommandFifo::new();
    assert_eq!(f.geom_engine_status(false, 0, 0, false), 0x0600_0000);
    f.push_command_buffer(1);
    f.push_command_buffer(2);
    f.push_command_buffer(3);
    assert_eq!(f.geom_engine_status(true, 1, 5, true), 0x0A03_A500);
    assert!(f.write_geom_engine_status(0x4000_8000));
    assert_eq!(f.get_interrupt_cond(), 0x4000_0000);
    assert!(!f.write_geom_engine_status(0x8000_0000));
    assert_eq!(f.get_interrupt_cond(), 0x8000_0000);
}
