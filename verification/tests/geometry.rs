use spa::video::video3d::clip::{clip, test_winding, ClipPlane, ClippingUnit, StagedVertex};
use spa::video::video3d::raster::ScreenVertex;
use spa::video::video3d::types::{Polygon, PolygonAttrs, PolygonRAM, TextureAttrs};
use spa::video::video3d::drawing::TexCoords;
use spa::video::video3d::math::{mul_n, Matrix, Vector, N_ONE};
use spa::video::video3d::palette::Colour;
use spa::video::video3d::matrix::{MatrixUnit, POS_DIR_MODE, POS_MODE, PROJ_MODE, TEX_MODE};

fn scaled(k: i32) -> [i32; 16] {
    let mut m = [0i32; 16];
    for i in 0..4 {
        m[i * 5] = k * N_ONE;
    }
    m
}

#[test]
fn fixed_products_round_down() {
    assert_eq!(mul_n(3 * N_ONE, N_ONE / 2), 3 * N_ONE / 2);
    assert_eq!(mul_n(-1, 1), -1);
    assert_eq!(mul_n(0x7FFF_0000, 0x10_0000), 0x7FFF_0000u32.wrapping_mul(0x100) as i32);
}

#[test]
fn vector_dot_product_and_parts() {
    let a = Vector::new([N_ONE, 2 * N_ONE, 3 * N_ONE]);
    let b = Vector::new([4 * N_ONE, 5 * N_ONE, 6 * N_ONE]);
    assert_eq!(a.dot_product(&b), 32 * N_ONE);
    assert_eq!((a.x(), a.y(), a.z()), (N_ONE, 2 * N_ONE, 3 * N_ONE));
}

#[test]
fn matrix_products() {
    let id = Matrix::identity();
    let two = Matrix { elements: scaled(2) };
    assert_eq!(id.mul(&two).elements, two.elements);
    let mut m = Matrix::from_4x4(&scaled(3));
    m.mul_4x4(&scaled(2));
    assert_eq!(m.elements, scaled(6));
    let mut t = Matrix::identity();
    t.mul_trans(&[N_ONE, 2 * N_ONE, 3 * N_ONE]);
    assert_eq!(&t.elements[12..], &[N_ONE, 2 * N_ONE, 3 * N_ONE, N_ONE]);
    let mut s = Matrix::identity();
    s.mul_scale(&[2 * N_ONE, 3 * N_ONE, 4 * N_ONE]);
    assert_eq!((s.elements[0], s.elements[5], s.elements[10], s.elements[15]), (2 * N_ONE, 3 * N_ONE, 4 * N_ONE, N_ONE));
    let m43 = Matrix::from_4x3(&[1, 2, 3, 4, 5, 6, 7, 8, 9, 10, 11, 12]);
    assert_eq!(m43.elements, [1, 2, 3, 0, 4, 5, 6, 0, 7, 8, 9, 0, 10, 11, 12, N_ONE]);
    let v = id.mul_vector_4(&Vector::new([1, 2, 3, 4]));
    assert_eq!(v.elements, [1, 2, 3, 4]);
    let v = Matrix { elements: scaled(1) }.mul_vector_3(&Vector::new([N_ONE, 2 * N_ONE, 3 * N_ONE]));
    assert_eq!(v.elements, [N_ONE, 2 * N_ONE, 3 * N_ONE]);
}

#[test]
fn matrix_stack_push_pop_store_restore() {
    let mut u = MatrixUnit::new();
    assert_eq!(u.set_matrix_mode(POS_DIR_MODE), 1);
    assert_eq!(u.set_identity(), 19);
    assert_eq!(u.push_matrix(), 17);
    assert_eq!(u.pos_dir_stack_level(), 1);
    assert_eq!(u.mul_4x4(&scaled(2)), 65);
    assert_eq!(u.dir_matrix().elements, scaled(2));
    // Pop one: back to the identity.
    assert_eq!(u.pop_matrix(1), 36);
    assert_eq!(u.pos_dir_stack_level(), 0);
    assert_eq!(u.current_position.elements, Matrix::identity().elements);
    // Pop by -1 (six-bit 0x3F) moves the pointer up.
    u.pop_matrix(0x3F);
    assert_eq!(u.pos_dir_stack_level(), 1);
    // Store and restore at a slot.
    u.set_identity();
    u.mul_scale(&[3 * N_ONE, 3 * N_ONE, 3 * N_ONE]);
    u.store_matrix(5);
    u.set_identity();
    assert_eq!(u.restore_matrix(5), 36);
    assert_eq!(u.current_position.elements[0], 3 * N_ONE);
    // Scaling leaves the direction alone.
    assert_eq!(u.current_direction.elements[0], N_ONE);
    assert!(!u.has_stack_error());
    // Popping below the bottom wraps the pointer and flags the error.
    u.pop_matrix(1);
    u.pop_matrix(1);
    assert!(u.has_stack_error());
    assert_eq!(u.pos_dir_stack_level(), ((usize::MAX) % 31) as u32);
    u.clear_stack_error();
    assert!(!u.has_stack_error());
}

#[test]
fn clip_follows_position_and_projection() {
    let mut u = MatrixUnit::new();
    u.set_matrix_mode(PROJ_MODE);
    u.set_4x4(&scaled(2));
    assert_eq!(u.proj_stack_level(), 0);
    u.push_matrix();
    assert_eq!(u.proj_stack_level(), 1);
    u.set_matrix_mode(POS_MODE);
    u.set_4x4(&scaled(3));
    assert_eq!(u.clip_matrix().elements, scaled(6));
    u.set_matrix_mode(TEX_MODE);
    assert_eq!(u.mul_4x3(&[N_ONE, 0, 0, 0, N_ONE, 0, 0, 0, N_ONE, 0, 0, 0]), 31);
    assert_eq!(u.tex_matrix().elements, [0; 16]);
    assert_eq!(u.clip_matrix().elements, scaled(6));
    assert!(!u.has_stack_error());
}

fn staged(x: i32, y: i32, r: u8) -> StagedVertex {
    StagedVertex {
        position: Vector::new([x * N_ONE, y * N_ONE, 0, N_ONE]),
        colour: Colour { r, g: 0, b: 0 },
        tex_coords: TexCoords { s: 0, t: 0 },
    }
}

#[test]
fn clipping_against_the_right_plane() {
    let tri = [staged(0, 0, 0), staged(2, 0, 200), staged(0, 1, 0)];
    let mut out = Vec::new();
    assert!(clip(ClipPlane::Right, &tri, &mut out));
    assert_eq!(out.len(), 4);
    assert_eq!(out[0].position.elements, tri[0].position.elements);
    assert_eq!(out[1].position.elements, [N_ONE, 0, 0, N_ONE]);
    assert_eq!(out[1].colour.r, 100);
    assert_eq!(out[2].position.elements, [N_ONE, N_ONE / 2, 0, N_ONE]);
    assert_eq!(out[3].position.elements, tri[2].position.elements);
    // Nothing lies beyond the left plane.
    let mut all = Vec::new();
    assert!(!clip(ClipPlane::Left, &tri, &mut all));
    assert_eq!(all.len(), 3);
}

#[test]
fn viewport_screen_coordinates() {
    let mut c = ClippingUnit::new();
    c.set_viewport(0xBFFF_0000);
    assert_eq!((c.viewport_width, c.viewport_height), (256 * N_ONE, 192 * N_ONE));
    assert_eq!(c.get_screen_coords(N_ONE / 2, N_ONE / 4), (128, 48));
    assert_eq!(c.get_screen_coords(2 * N_ONE, -N_ONE), (256, 0));
    c.set_dot_polygon_depth(0xFFFF);
    assert_eq!(c.dot_polygon_w, 0x7FFF * 64);
}

fn corner(x: i16, y: i16) -> ScreenVertex {
    ScreenVertex { x, y, depth: 0, colour: Colour { r: 0, g: 0, b: 0 }, tex: TexCoords { s: 0, t: 0 } }
}

#[test]
fn winding_picks_the_face() {
    let square = [corner(0, 0), corner(10, 0), corner(10, 10), corner(0, 10)];
    let reversed = [corner(0, 10), corner(10, 10), corner(10, 0), corner(0, 0)];
    let back = PolygonAttrs { bits: 0x40 };
    let front = PolygonAttrs { bits: 0x80 };
    assert!(test_winding(back, &square));
    assert!(!test_winding(front, &square));
    assert!(test_winding(front, &reversed));
    assert!(!test_winding(back, &reversed));
    let line = [corner(0, 0), corner(10, 0)];
    assert!(test_winding(PolygonAttrs { bits: 0 }, &line));
}

#[test]
fn vertices_project_onto_the_viewport() {
    let mut c = ClippingUnit::new();
    c.set_viewport(0xBFFF_0000);
    let centre = staged(0, 0, 7);
    let p = c.project_vertex(&centre);
    assert_eq!((p.x, p.y, p.depth), (128, 96, 0x7FFF00));
    assert_eq!(p.colour.r, 7);
    let corner = StagedVertex { position: Vector::new([N_ONE, N_ONE, N_ONE, N_ONE]), ..centre };
    let q = c.project_vertex(&corner);
    assert_eq!((q.x, q.y), (256, 0));
    c.set_w_buffer(true);
    assert_eq!(c.project_vertex(&centre).depth, N_ONE / 8);
}

fn bare_polygon(attrs: u32) -> Polygon {
    Polygon { attrs: PolygonAttrs { bits: attrs }, tex: TextureAttrs { bits: 0 }, palette: 3, vertex_indices: vec![9] }
}

#[test]
fn shown_polygons_enter_the_polygon_ram() {
    let mut c = ClippingUnit::new();
    c.set_viewport(0xBFFF_0000);
    let tri = [staged(0, 0, 1), staged(1, 0, 2), staged(0, 1, 3)];
    let mut ram = PolygonRAM::new();
    let mut verts: Vec<ScreenVertex> = vec![corner(5, 5)];
    // (128, 96), (256, 96), (128, 0): a positive area, so the front faces.
    assert!(c.add_polygon(bare_polygon(0x80), &tri, &mut ram, &mut verts));
    let xy: Vec<(i16, i16)> = verts.iter().map(|v| (v.x, v.y)).collect();
    assert_eq!(xy, vec![(5, 5), (128, 96), (256, 96), (128, 0)]);
    assert_eq!(verts[2].colour.r, 2);
    assert_eq!(ram.polygons.len(), 1);
    assert_eq!(ram.polygons[0].vertex_indices, vec![9, 1, 2, 3]);
    assert_eq!(ram.polygons[0].palette, 3);
    let o = &ram.opaque_polygons;
    assert_eq!((o.len(), o[0].y_max, o[0].y_min, o[0].polygon_index), (1, 96, 0, 0));
    // A back-only polygon facing front is culled, though its vertices stay.
    assert!(!c.add_polygon(bare_polygon(0x40), &tri, &mut ram, &mut verts));
    assert_eq!(verts.len(), 7);
    assert_eq!(ram.polygons.len(), 1);
    assert_eq!(ram.opaque_polygons.len(), 1);
}
