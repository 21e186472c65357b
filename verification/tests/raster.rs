use spa::ram::Ram;
use spa::video::memory::mapping::Engine3DVRAM;
use spa::video::video3d::drawing::{ColourAlpha, TexCoords};
use spa::video::video3d::palette::{Colour, TexPaletteCache};
use spa::video::video3d::raster::{div_fx, find_intersect_points, mul_fx, similar_depth, test_depth, ScreenVertex};
use spa::video::video3d::render::{
    blend_buffer_colour, check_edge, interpolate_span, PolygonDraw, RenderSettings, Software3DRenderer, SpanLine,
    FRAME_PIXELS,
};
use spa::video::video3d::types::{Polygon, PolygonAttrs, PolygonOrder, PolygonRAM, TextureAttrs};

fn vtx(x: i16, y: i16, depth: i32, c: u8) -> ScreenVertex {
    ScreenVertex { x, y, depth, colour: Colour { r: c, g: c, b: c }, tex: TexCoords { s: 0, t: 0 } }
}

fn triangle() -> Vec<ScreenVertex> {
    vec![vtx(10, 0, 0x1000, 0), vtx(20, 10, 0x1000, 255), vtx(0, 10, 0x1000, 255)]
}

#[test]
fn fixed_point_arithmetic() {
    assert_eq!(mul_fx(0x300, 0x100), 0x180);
    assert_eq!(mul_fx(-1, 1), -1);
    assert_eq!(div_fx(0x100, 0x200), 0x100);
    assert_eq!(div_fx(0x100, 0x400), 0x80);
    assert_eq!(div_fx(-0x100, 0x300), -0xAA);
    assert!(similar_depth(0x1000, 0x103F));
    assert!(!similar_depth(0x1000, 0x1040));
    assert!(similar_depth(0x1000, 0x20));
    assert!(test_depth(false, 0x1000, 0xFFF));
    assert!(!test_depth(false, 0x1000, 0x1000));
    assert!(test_depth(true, 0x1000, 0x1200));
    assert!(!test_depth(true, 0x1000, 0x1201));
}

#[test]
fn triangle_crossing_points() {
    let vs = triangle();
    let idx = vec![0usize, 1, 2];
    let (l, r) = find_intersect_points(&vs, &idx, 5).unwrap();
    assert_eq!((l.x, l.y, r.x, r.y), (5, 5, 15, 5));
    assert_eq!(l.depth, 0x1000);
    assert_eq!(l.colour, Colour { r: 127, g: 127, b: 127 });
    assert!(find_intersect_points(&vs, &idx, 11).is_none());
    assert!(find_intersect_points(&vs, &idx, -1).is_none());
}

#[test]
fn span_interpolates_between_ends() {
    let left = vtx(0, 3, 0x800, 0);
    let right = vtx(8, 3, 0x800, 200);
    let p = interpolate_span(&left, &right, 4);
    assert_eq!((p.x, p.y, p.depth), (4, 3, 0x800));
    assert_eq!(p.colour.r, 100);
}

#[test]
fn buffer_blending() {
    let frag = ColourAlpha { col: Colour { r: 255, g: 0, b: 0 }, alpha: 15 };
    let buf = ColourAlpha { col: Colour { r: 0, g: 0, b: 255 }, alpha: 31 };
    let out = blend_buffer_colour(frag, buf, false);
    assert_eq!(out.col, Colour { r: 127, g: 0, b: 127 });
    assert_eq!(out.alpha, 31);
    assert_eq!(blend_buffer_colour(frag, buf, true).alpha, 31);
    let opaque = ColourAlpha { alpha: 31, ..frag };
    assert_eq!(blend_buffer_colour(opaque, buf, false), opaque);
    assert_eq!(blend_buffer_colour(ColourAlpha { alpha: 0, ..frag }, buf, false), buf);
}

#[test]
fn edges_need_a_deeper_neighbour_of_another_polygon() {
    assert!(check_edge((1, 5), (1, 9), (2, 9), (1, 0), (1, 0)));
    assert!(!check_edge((1, 5), (1, 9), (2, 4), (1, 9), (1, 9)));
}

fn black() -> Colour {
    Colour { r: 0, g: 0, b: 0 }
}

fn settings() -> RenderSettings {
    RenderSettings {
        control: 0,
        alpha_test: 0,
        toon_table: [black(); 32],
        edge_colour: [black(); 8],
        clear_colour: black(),
        clear_alpha: 0,
        clear_poly_id: 0,
        clear_depth: 0x7FFF_FFFF,
        clear_image_x: 0,
        clear_image_y: 0,
        fog_enabled: false,
        fog_colour: black(),
        fog_alpha: 0,
        fog_offset: 0,
        fog_table: [0; 32],
    }
}

fn far_renderer() -> Software3DRenderer {
    let mut r = Software3DRenderer::new();
    r.depth_buffer = vec![0x7FFF_FFFF; FRAME_PIXELS];
    r
}

#[test]
fn opaque_triangle_fills_its_lines() {
    let mut r = far_renderer();
    let mut target = vec![ColourAlpha { col: Colour { r: 0, g: 0, b: 0 }, alpha: 0 }; FRAME_PIXELS];
    let vram = Engine3DVRAM::new();
    let poly = PolygonDraw { attrs: PolygonAttrs { bits: (31 << 16) | (5 << 24) }, tex: TextureAttrs { bits: 0 }, palette: 0 };
    r.draw_opaque_polygon(&mut target, &vram, &settings(), poly, &triangle(), &vec![0, 1, 2], 0, 10);
    let idx = 5 * 256 + 10;
    assert_eq!(target[idx].alpha, 0x1F);
    assert_eq!(r.depth_buffer[idx], 0x1000);
    assert_eq!(r.attr_buffer[idx].opaque_id, 5);
    // Outside the span of line 5 nothing is drawn.
    assert_eq!(target[5 * 256 + 15].alpha, 0);
    assert_eq!(target[5 * 256 + 4].alpha, 0);
    assert!(r.attr_buffer[5 * 256 + 5].edge);
    assert!(!r.attr_buffer[5 * 256 + 10].edge);
}

#[test]
fn translucent_triangle_blends_and_marks_its_id() {
    let mut r = far_renderer();
    let mut target = vec![ColourAlpha { col: Colour { r: 0, g: 0, b: 200 }, alpha: 31 }; FRAME_PIXELS];
    let vram = Engine3DVRAM::new();
    let mut s = settings();
    s.control = 0x0008;
    let poly = PolygonDraw { attrs: PolygonAttrs { bits: (15 << 16) | (7 << 24) }, tex: TextureAttrs { bits: 0 }, palette: 0 };
    let vs = vec![vtx(0, 0, 0x1000, 255), vtx(20, 0, 0x1000, 255), vtx(20, 10, 0x1000, 255), vtx(0, 10, 0x1000, 255)];
    r.draw_trans_polygon(&mut target, &vram, &s, poly, &vs, &vec![0, 1, 2, 3], 0, 10);
    let idx = 4 * 256 + 10;
    assert_eq!(target[idx].col, Colour { r: 127, g: 127, b: 227 });
    assert_eq!(r.attr_buffer[idx].trans_id, Some(7));
    // The depth is kept: the polygon does not ask for translucent depth.
    assert_eq!(r.depth_buffer[idx], 0x7FFF_FFFF);
    let line = SpanLine {
        left: vtx(0, 4, 0x1000, 255),
        right: vtx(20, 4, 0x1000, 255),
        y: 4,
        x_min: 0,
        x_max: 20,
        prev_min: 0,
        prev_max: 0,
        last_line: false,
    };
    // A second pass of the same polygon leaves its own fragments alone.
    r.draw_trans_span(&mut target, &vram, &s, poly, &line);
    assert_eq!(target[idx].col, Colour { r: 127, g: 127, b: 227 });
}

#[test]
fn clear_to_colour_and_depth() {
    let mut r = Software3DRenderer::new();
    let mut target = vec![ColourAlpha { col: black(), alpha: 9 }; FRAME_PIXELS];
    let mut s = settings();
    s.clear_colour = Colour { r: 8, g: 16, b: 24 };
    s.clear_alpha = 31;
    s.clear_poly_id = 3;
    s.clear_depth = 0x40_0000;
    s.fog_enabled = true;
    r.stencil_buffer[7] = true;
    r.clear_buffers(&mut target, &s, &Engine3DVRAM::new());
    assert_eq!(target[100], ColourAlpha { col: Colour { r: 8, g: 16, b: 24 }, alpha: 31 });
    assert_eq!(r.depth_buffer[100], 0x40_0000);
    assert_eq!(r.attr_buffer[100].opaque_id, 3);
    assert!(r.attr_buffer[100].fog);
    assert!(!r.stencil_buffer[7]);
}

#[test]
fn clear_from_images_with_offset() {
    let mut r = Software3DRenderer::new();
    let mut target = vec![ColourAlpha { col: black(), alpha: 0 }; FRAME_PIXELS];
    let mut vram = Engine3DVRAM::new();
    let mut colours = Ram::new(0x2_0000);
    let mut depths = Ram::new(0x2_0000);
    // Image pixel (3, 2) is read for frame pixel (2, 0) with offsets (1, 2).
    colours.write_halfword(2 * 512 + 3 * 2, 0x801F);
    depths.write_halfword(2 * 512 + 3 * 2, 0x8005);
    vram.tex_2 = Some(colours);
    vram.tex_3 = Some(depths);
    let mut s = settings();
    s.control = 0x4000;
    s.clear_image_x = 1;
    s.clear_image_y = 2;
    r.clear_buffers(&mut target, &s, &vram);
    assert_eq!(target[2], ColourAlpha { col: Colour { r: 248, g: 0, b: 0 }, alpha: 31 });
    assert_eq!(r.depth_buffer[2], 5 << 9);
    assert!(r.attr_buffer[2].fog);
    assert_eq!(target[3].alpha, 0);
}

#[test]
fn edges_take_their_group_colour() {
    let mut r = Software3DRenderer::new();
    let mut target = vec![ColourAlpha { col: black(), alpha: 31 }; FRAME_PIXELS];
    let mut s = settings();
    s.edge_colour[1] = Colour { r: 1, g: 2, b: 3 };
    s.clear_depth = 0;
    let i = 10 * 256 + 10;
    r.attr_buffer[i].edge = true;
    r.attr_buffer[i].opaque_id = 9;
    r.depth_buffer[i] = 5;
    r.depth_buffer[i + 1] = 6;
    r.mark_edges(&mut target, &s);
    assert_eq!(target[i].col, Colour { r: 1, g: 2, b: 3 });
    assert_eq!(target[i + 1].col, black());
}

#[test]
fn fog_blends_by_density() {
    let mut r = Software3DRenderer::new();
    let mut target = vec![ColourAlpha { col: Colour { r: 200, g: 200, b: 200 }, alpha: 31 }; FRAME_PIXELS];
    let mut s = settings();
    s.fog_colour = Colour { r: 0, g: 0, b: 0 };
    s.fog_alpha = 0;
    s.fog_offset = 0;
    s.control = 0x0A00; // a step of 1
    for k in 0..32 {
        s.fog_table[k] = (k * 4) as u8;
    }
    r.attr_buffer[0].fog = true;
    r.depth_buffer[0] = 100 << 9; // beyond the last step
    r.attr_buffer[1].fog = true;
    r.depth_buffer[1] = 3 << 9; // two steps in: entry 2
    r.draw_fog(&mut target, &s);
    // Entry 31 is 124: 200 * 4 / 128 = 6.
    assert_eq!(target[0].col.r, 6);
    assert_eq!(target[1].col.r, 187);
    assert_eq!(target[2].col.r, 200);
}

#[test]
fn direct_colour_texel() {
    let cache = TexPaletteCache::new();
    let mut vram = Engine3DVRAM::new();
    let mut tex = Ram::new(0x2_0000);
    // An 8x8 texture at address 0; texel (1, 2) is halfword 17.
    tex.write_halfword(17 * 2, 0x83E0);
    vram.tex_0 = Some(tex);
    let attrs = TextureAttrs { bits: 7 << 26 };
    let c = cache.lookup_tex_colour(TexCoords { s: 1 << 4, t: 2 << 4 }, attrs, 0, &vram);
    assert_eq!(c, Some(ColourAlpha { col: Colour { r: 0, g: 248, b: 0 }, alpha: 31 }));
    assert_eq!(cache.lookup_tex_colour(TexCoords { s: 0, t: 0 }, TextureAttrs { bits: 0 }, 0, &vram), None);
    // A 4bpp texel of value 0 with transparent colour 0.
    let c = cache.lookup_tex_colour(TexCoords { s: 0, t: 0 }, TextureAttrs { bits: (3 << 26) | (1 << 29) }, 0, &vram);
    assert_eq!(c, Some(ColourAlpha { col: black(), alpha: 0 }));
}

#[test]
fn frame_draw_clears_then_draws() {
    let mut r = Software3DRenderer::new();
    let mut target = vec![ColourAlpha { col: black(), alpha: 7 }; FRAME_PIXELS];
    let vram = Engine3DVRAM::new();
    let mut s = settings();
    s.clear_colour = Colour { r: 0, g: 0, b: 80 };
    s.clear_alpha = 31;
    s.control = 0x0020;
    s.edge_colour[0] = Colour { r: 9, g: 9, b: 9 };
    let poly = Polygon {
        attrs: PolygonAttrs { bits: (31 << 16) | (5 << 24) },
        tex: TextureAttrs { bits: 0 },
        palette: 0,
        vertex_indices: vec![0, 1, 2],
    };
    let ram = PolygonRAM {
        opaque_polygons: vec![PolygonOrder { y_max: 10 << 12, y_min: 0, polygon_index: 0 }],
        use_manual_mode: false,
        trans_polygon_auto: vec![],
        trans_polygon_manual: vec![],
        polygons: vec![poly],
        vertices: vec![],
    };
    r.draw(&mut target, &s, &vram, &ram, &triangle());
    assert_eq!(target[0], ColourAlpha { col: Colour { r: 0, g: 0, b: 80 }, alpha: 31 });
    assert_eq!(target[5 * 256 + 10].col, Colour { r: 127, g: 127, b: 127 });
    // The span's first pixel is an edge next to the cleared, deeper pixel.
    assert_eq!(target[5 * 256 + 5].col, Colour { r: 9, g: 9, b: 9 });
}
