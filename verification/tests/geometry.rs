use gl_cookbook::camera::FreeCamera;
use gl_cookbook::camera::Projection;
use gl_cookbook::controller::{Controller, FrameMotion, InputEvent, Key};
use gl_cookbook::iso_sphere::GOLDEN_RATIO_FX;
use gl_cookbook::trig::{cos_fx, sin_fx};
use gl_cookbook::error::GeometryError;
use gl_cookbook::fixed::{Fx, FX_ONE};
use gl_cookbook::grid::Grid;
use gl_cookbook::height::{wrap_to_size, HeightSampler};
use gl_cookbook::iso_sphere::IsoSphere;
use gl_cookbook::renderable::{
    BaseVertex, NormalVertex, PrimitiveType, Renderable, RenderableIndices, Vertex,
};
use gl_cookbook::terrain::{TerrainMeshCenter, TerrainRing};
use gl_cookbook::vec3::{isqrt_u128, Vec3Fx};

fn fi(v: i64) -> Fx {
    Fx { raw: v * FX_ONE }
}

#[test]
fn grid_counts_match_parameters() {
    let g = Grid::new(fi(10), fi(10), 4, 5).unwrap();
    assert_eq!(g.vertices.len(), 20);
    assert_eq!(g.indices.len(), 6 * 3 * 4);
    for &k in &g.indices {
        assert!((k as usize) < g.vertices.len());
    }
}

#[test]
fn grid_rejects_small_counts() {
    assert_eq!(
        Grid::new(fi(10), fi(10), 1, 5).unwrap_err(),
        GeometryError::CountTooSmall
    );
    assert_eq!(
        Grid::new(fi(10), fi(10), 5, 0).unwrap_err(),
        GeometryError::CountTooSmall
    );
}

#[test]
fn grid_rejects_oversized_meshes() {
    // 300 * 300 = 90000 > 65536 vertices.
    assert_eq!(
        Grid::new(fi(10), fi(10), 300, 300).unwrap_err(),
        GeometryError::TooManyVertices
    );
    // 256 * 256 = 65536 is exactly the cap and is accepted.
    assert!(Grid::new(fi(10), fi(10), 256, 256).is_ok());
}

#[test]
fn grid_three_by_three_corners_and_winding() {
    let g = Grid::new(fi(20), fi(20), 3, 3).unwrap();
    assert_eq!(g.vertices.len(), 9);
    assert_eq!(g.vertices[0].x.raw, -20 * FX_ONE);
    assert_eq!(g.vertices[0].y.raw, 0);
    assert_eq!(g.vertices[0].z.raw, -20 * FX_ONE);
    assert_eq!(g.vertices[8].x.raw, 20 * FX_ONE);
    assert_eq!(g.vertices[8].z.raw, 20 * FX_ONE);
    // Middle vertex of the first row sits at x == 0.
    assert_eq!(g.vertices[1].x.raw, 0);
    // First cell (even counter): tl,bl,br then tl,br,tr.
    assert_eq!(&g.indices[0..6], &[0, 1, 4, 0, 4, 3]);
    // Second cell (odd counter): tl,bl,tr then tr,bl,br.
    assert_eq!(&g.indices[6..12], &[1, 2, 4, 4, 2, 5]);
}

#[test]
fn grid_vertices_map_through_vertex_type() {
    let g = Grid::new(fi(20), fi(20), 3, 3).unwrap();
    let vs: Vec<Vertex> = g.get_vertices();
    assert_eq!(vs.len(), 9);
    assert_eq!(vs[0].position.x.raw, -20 * FX_ONE);
    assert_eq!(vs[8].position.z.raw, 20 * FX_ONE);
}

#[test]
fn grid_renderable_contract() {
    let g = Grid::new(fi(20), fi(20), 3, 3).unwrap();
    let vs: Vec<Vertex> = g.get_vertex_array();
    assert_eq!(vs.len(), 9);
    for v in &vs {
        assert_eq!(v.normal.x.raw, 0);
        assert_eq!(v.normal.y.raw, FX_ONE);
        assert_eq!(v.normal.z.raw, 0);
    }
    match g.get_indices() {
        RenderableIndices::Buffer(ind, prim) => {
            assert_eq!(prim, PrimitiveType::TrianglesList);
            assert_eq!(ind.len(), 24);
            for k in ind {
                assert!((k as usize) < 9);
            }
        }
        RenderableIndices::Implicit(_) => panic!("grid must emit an index buffer"),
    }
}

#[test]
fn wrap_to_size_examples() {
    assert_eq!(wrap_to_size(fi(-5), 16), 11);
    assert_eq!(wrap_to_size(fi(5), 16), 5);
    assert_eq!(wrap_to_size(fi(21), 16), 5);
    assert_eq!(wrap_to_size(fi(-16), 16), 0);
    assert_eq!(wrap_to_size(fi(-21), 16), 11);
    assert_eq!(wrap_to_size(fi(0), 16), 0);
    // A fractional magnitude truncates toward zero before wrapping.
    assert_eq!(wrap_to_size(Fx { raw: -FX_ONE / 2 }, 16), 0);
    assert_eq!(wrap_to_size(Fx { raw: 3 * FX_ONE + FX_ONE / 2 }, 2), 1);
}

#[test]
fn wrap_to_size_stays_in_range() {
    for v in -40..40 {
        let r = wrap_to_size(fi(v), 7);
        assert!(r < 7);
    }
}

#[test]
fn smoothed_height_of_constant_samples_is_exact() {
    let field = vec![vec![fi(0)]];
    let mut s = HeightSampler::new(field).unwrap();
    let mut last = fi(0);
    for _ in 0..5 {
        last = s.smoothed_height(fi(10));
    }
    // Weights sum to 12/12: a constant history returns the constant.
    assert_eq!(last.raw, 10 * FX_ONE);
}

#[test]
fn smoothed_height_shifts_history() {
    let field = vec![vec![fi(0)]];
    let mut s = HeightSampler::new(field).unwrap();
    let first = s.smoothed_height(fi(12));
    // History [12,0,0,0,0]: 12*5/12 == 5.
    assert_eq!(first.raw, 5 * FX_ONE);
    let second = s.smoothed_height(fi(0));
    // History [0,12,0,0,0]: 12*3/12 == 3.
    assert_eq!(second.raw, 3 * FX_ONE);
}

#[test]
fn height_sampler_rejects_ragged_fields() {
    assert!(HeightSampler::new(vec![]).is_none());
    assert!(HeightSampler::new(vec![vec![fi(1)], vec![fi(2)]]).is_none());
    assert!(HeightSampler::new(vec![vec![fi(1), fi(2)], vec![fi(3)]]).is_none());
    assert!(HeightSampler::new(vec![vec![fi(1), fi(2)], vec![fi(3), fi(4)]]).is_some());
}

#[test]
fn height_sampler_wraps_both_axes() {
    let field = vec![vec![fi(1), fi(2)], vec![fi(3), fi(4)]];
    let s = HeightSampler::new(field).unwrap();
    assert_eq!(s.sample_at(fi(1), fi(0)).raw, 2 * FX_ONE);
    assert_eq!(s.sample_at(fi(0), fi(1)).raw, 3 * FX_ONE);
    assert_eq!(s.sample_at(fi(-1), fi(0)).raw, 2 * FX_ONE);
    assert_eq!(s.sample_at(fi(2), fi(-3)).raw, 3 * FX_ONE);
}

#[test]
fn isqrt_exact_values() {
    assert_eq!(isqrt_u128(0), 0);
    assert_eq!(isqrt_u128(15), 3);
    assert_eq!(isqrt_u128(16), 4);
    assert_eq!(isqrt_u128(1 << 64), 1 << 32);
    assert_eq!(isqrt_u128(u128::MAX), (1 << 64) - 1);
}

#[test]
fn normalize_three_four_five() {
    let v = Vec3Fx { x: fi(3), y: fi(0), z: fi(4) };
    let r = v.normalize();
    // Components are 3/5 and 4/5 in fixed point, truncated toward zero.
    assert_eq!(r.x.raw, 3 * FX_ONE / 5);
    assert_eq!(r.y.raw, 0);
    assert_eq!(r.z.raw, 4 * FX_ONE / 5);
    let n2 = (r.x.raw as i128) * (r.x.raw as i128) + (r.y.raw as i128) * (r.y.raw as i128)
        + (r.z.raw as i128) * (r.z.raw as i128);
    let one2 = (FX_ONE as i128) * (FX_ONE as i128);
    assert!((one2 - n2).abs() < 10 * (FX_ONE as i128));
}

#[test]
fn normalize_keeps_zero_vector() {
    let v = Vec3Fx { x: fi(0), y: fi(0), z: fi(0) };
    let r = v.normalize();
    assert_eq!(r, v);
}

#[test]
fn vector_products() {
    let x = Vec3Fx { x: fi(1), y: fi(0), z: fi(0) };
    let y = Vec3Fx { x: fi(0), y: fi(1), z: fi(0) };
    let c = x.cross(y);
    assert_eq!((c.x.raw, c.y.raw, c.z.raw), (0, 0, FX_ONE));
    let d = Vec3Fx { x: fi(2), y: fi(3), z: fi(4) }.dot(Vec3Fx { x: fi(5), y: fi(6), z: fi(7) });
    assert_eq!(d.raw, (2 * 5 + 3 * 6 + 4 * 7) * FX_ONE);
}

#[test]
fn fixed_point_arithmetic() {
    assert_eq!(fi(3).mul(fi(4)).raw, 12 * FX_ONE);
    assert_eq!(fi(1).div(fi(2)).raw, FX_ONE / 2);
    assert_eq!(fi(-5).half().raw, -5 * FX_ONE / 2);
    assert_eq!(fi(7).add(fi(-9)).raw, -2 * FX_ONE);
    assert_eq!(fi(7).sub(fi(9)).raw, -2 * FX_ONE);
    assert_eq!(fi(-3).neg().raw, 3 * FX_ONE);
    assert_eq!(Fx { raw: -5 * FX_ONE / 2 }.trunc(), -2);
    assert_eq!(fi(3).trunc(), 3);
    assert_eq!(Fx::one().raw, FX_ONE);
    assert_eq!(Fx::zero().raw, 0);
    assert_eq!(Fx::from_int(-7).raw, -7 * FX_ONE);
}

#[test]
fn vertex_trait_round_trip() {
    let mut v = Vertex::from_position(fi(1), fi(2), fi(3));
    assert_eq!(v.position.x.raw, FX_ONE);
    assert_eq!(v.position.z.raw, 3 * FX_ONE);
    v.set_normal(fi(0), fi(1), fi(0));
    assert_eq!(v.normal.y.raw, FX_ONE);
    assert_eq!(v.position.y.raw, 2 * FX_ONE);
}

#[test]
fn terrain_center_counts_and_first_quad() {
    let vs: Vec<Vertex> = TerrainMeshCenter.build_vertex_array();
    assert_eq!(vs.len(), 64);
    assert_eq!(vs[0].position.x.raw, -4 * FX_ONE);
    assert_eq!(vs[0].position.z.raw, -4 * FX_ONE);
    assert_eq!(vs[63].position.x.raw, 3 * FX_ONE);
    assert_eq!(vs[63].position.z.raw, 3 * FX_ONE);
    for v in &vs {
        assert_eq!(v.normal.y.raw, FX_ONE);
    }
    let ind = TerrainMeshCenter.build_index_buffer();
    assert_eq!(ind.len(), 294);
    assert_eq!(&ind[0..6], &[0, 1, 8, 8, 1, 9]);
    for &k in &ind {
        assert!(k < 64);
    }
}

#[test]
fn terrain_ring_counts_and_regions() {
    let vs: Vec<Vertex> = TerrainRing.build_vertex_array();
    assert_eq!(vs.len(), 207);
    // Right strip starts at (3, -7); left strip at (-7, -7);
    // top at (-4, 3); bottom at (-4, -7).
    assert_eq!(vs[0].position.x.raw, 3 * FX_ONE);
    assert_eq!(vs[0].position.z.raw, -7 * FX_ONE);
    assert_eq!(vs[75].position.x.raw, -7 * FX_ONE);
    assert_eq!(vs[135].position.z.raw, 3 * FX_ONE);
    assert_eq!(vs[175].position.x.raw, -4 * FX_ONE);
    assert_eq!(vs[175].position.z.raw, -7 * FX_ONE);
    assert_eq!(vs[206].position.x.raw, 3 * FX_ONE);
    assert_eq!(vs[206].position.z.raw, -4 * FX_ONE);
}

#[test]
fn terrain_ring_indices_stay_inside_combined_buffer() {
    let ind = TerrainRing.build_index_buffer();
    assert_eq!(ind.len(), 882);
    let mut max = 0u16;
    for &k in &ind {
        assert!(k < 207);
        if k > max {
            max = k;
        }
    }
    // The last bottom-strip quad touches the final vertex.
    assert_eq!(max, 206);
    // First right-strip quad over a 15-deep column.
    assert_eq!(&ind[0..6], &[0, 1, 15, 15, 1, 16]);
    // First left-strip quad starts after the 75 right-strip vertices.
    assert_eq!(&ind[336..342], &[75, 76, 90, 90, 76, 91]);
    // Final quad of the bottom strip.
    assert_eq!(&ind[876..882], &[201, 202, 205, 205, 202, 206]);
}

#[test]
fn terrain_renderable_contract() {
    match TerrainRing.get_indices() {
        RenderableIndices::Buffer(ind, prim) => {
            assert_eq!(prim, PrimitiveType::TrianglesList);
            assert_eq!(ind.len(), 882);
        }
        RenderableIndices::Implicit(_) => panic!("ring must emit an index buffer"),
    }
    let vs: Vec<Vertex> = TerrainMeshCenter.get_vertex_array();
    assert_eq!(vs.len(), 64);
}

#[test]
fn iso_sphere_face_counts() {
    for level in 0..5u8 {
        let s = IsoSphere::new(level).unwrap();
        assert_eq!(s.faces.len(), 20 * 4usize.pow(level as u32));
        let vs: Vec<Vertex> = s.faces_to_vertex_array();
        assert_eq!(vs.len(), 60 * 4usize.pow(level as u32));
    }
}

#[test]
fn iso_sphere_rejects_deep_subdivision() {
    assert_eq!(
        IsoSphere::new(6).unwrap_err(),
        GeometryError::TooManyVertices
    );
    assert!(IsoSphere::new(5).is_ok());
}

#[test]
fn iso_sphere_vertices_lie_on_unit_sphere() {
    let one2 = (FX_ONE as i128) * (FX_ONE as i128);
    for level in 0..4u8 {
        let s = IsoSphere::new(level).unwrap();
        let vs: Vec<Vertex> = s.faces_to_vertex_array();
        for v in &vs {
            let p = v.position;
            let n2 = (p.x.raw as i128) * (p.x.raw as i128) + (p.y.raw as i128)
                * (p.y.raw as i128) + (p.z.raw as i128) * (p.z.raw as i128);
            // Far tighter than the 1e-5 tolerance the mesh is used at.
            assert!((one2 - n2).abs() < 10 * (FX_ONE as i128));
            // The outward normal is the position itself.
            assert_eq!(v.normal, p);
        }
    }
}

#[test]
fn iso_sphere_renderable_contract() {
    let s = IsoSphere::new(1).unwrap();
    match s.get_indices() {
        RenderableIndices::Implicit(prim) => assert_eq!(prim, PrimitiveType::TrianglesList),
        RenderableIndices::Buffer(_, _) => panic!("sphere draws its vertex stream directly"),
    }
    let vs: Vec<Vertex> = s.get_vertex_array();
    assert_eq!(vs.len(), 240);
}

#[test]
fn controller_starts_at_rest() {
    let c = Controller::new();
    assert_eq!(c.rx.raw, 0);
    assert_eq!(c.ry.raw, 0);
    assert!(!c.front && !c.back && !c.left && !c.right);
    assert_eq!(c.move_speed.raw, FX_ONE);
    assert_eq!(c.rot_speed.raw, FX_ONE);
    assert_eq!((c.center_x, c.center_y), (0, 0));
}

#[test]
fn controller_resize_recenters() {
    let mut c = Controller::new();
    c.process_event(&InputEvent::Resized(1366, 768));
    assert_eq!((c.center_x, c.center_y), (683, 384));
}

#[test]
fn controller_pointer_deltas_flip_y() {
    let mut c = Controller::new();
    c.process_event(&InputEvent::Resized(200, 100));
    c.process_event(&InputEvent::MouseMoved(110, 40));
    // rx = x - center_x, ry = center_y - y.
    assert_eq!(c.rx.raw, 10 * FX_ONE);
    assert_eq!(c.ry.raw, 10 * FX_ONE);
    // A move onto the exact center clears both deltas.
    c.process_event(&InputEvent::MouseMoved(100, 50));
    assert_eq!(c.rx.raw, 0);
    assert_eq!(c.ry.raw, 0);
}

#[test]
fn controller_keys_toggle_motion_flags() {
    let mut c = Controller::new();
    c.process_event(&InputEvent::KeyboardInput(true, Some(Key::Comma)));
    c.process_event(&InputEvent::KeyboardInput(true, Some(Key::E)));
    assert!(c.front && c.right && !c.back && !c.left);
    c.process_event(&InputEvent::KeyboardInput(false, Some(Key::Comma)));
    assert!(!c.front && c.right);
    c.process_event(&InputEvent::KeyboardInput(true, Some(Key::O)));
    c.process_event(&InputEvent::KeyboardInput(true, Some(Key::A)));
    assert!(c.back && c.left);
    // Unmapped keys and close events change nothing.
    let before = c;
    c.process_event(&InputEvent::KeyboardInput(true, None));
    c.process_event(&InputEvent::Closed);
    assert_eq!(c, before);
}

#[test]
fn sin_cos_cardinal_points() {
    // The table folds in the 3.1415/180 conversion, so sin(90) is a hair
    // under one.
    assert_eq!(sin_fx(fi(0)).raw, 0);
    assert_eq!(sin_fx(fi(90)).raw, 4294967291);
    assert_eq!(sin_fx(fi(180)).raw, 0);
    assert_eq!(sin_fx(fi(270)).raw, -4294967291);
    assert_eq!(sin_fx(fi(360)).raw, 0);
    assert_eq!(sin_fx(fi(-90)).raw, -4294967291);
    assert_eq!(sin_fx(fi(450)).raw, 4294967291);
    // Whole-degree angles hit table entries exactly.
    assert_eq!(sin_fx(fi(30)).raw, 2147426209);
    assert_eq!(cos_fx(fi(0)).raw, 4294967291);
    assert_eq!(cos_fx(fi(90)).raw, 0);
    assert_eq!(cos_fx(fi(60)).raw, 2147426209);
    // Interpolation keeps every value inside [-1, 1].
    for d in -720..720 {
        let s = sin_fx(Fx { raw: d * FX_ONE / 2 }).raw;
        assert!(-FX_ONE <= s && s <= FX_ONE);
    }
}

#[test]
fn camera_starts_canonical_and_moves_along_its_axes() {
    let mut cam = FreeCamera::new(fi(1), fi(75), fi(1), fi(500));
    assert_eq!(cam.pos.x.raw, 0);
    assert_eq!(cam.look.z.raw, -FX_ONE);
    assert_eq!(cam.right.x.raw, FX_ONE);
    assert_eq!(cam.up.y.raw, FX_ONE);
    assert!(cam.within_limits());
    cam.advance(fi(2));
    assert_eq!((cam.pos.x.raw, cam.pos.y.raw, cam.pos.z.raw), (0, 0, -2 * FX_ONE));
    cam.strafe(fi(3));
    assert_eq!((cam.pos.x.raw, cam.pos.y.raw, cam.pos.z.raw), (3 * FX_ONE, 0, -2 * FX_ONE));
}

#[test]
fn camera_rotate_left_quarter_turn() {
    let mut cam = FreeCamera::new(fi(1), fi(75), fi(1), fi(500));
    cam.rotate_left(fi(90));
    // look swings from -z to -x (within the table's hair-under-one sine).
    assert!((cam.look.x.raw + FX_ONE).abs() <= 16);
    assert_eq!(cam.look.y.raw, 0);
    assert!(cam.look.z.raw.abs() <= 16);
    // right swings from +x to -z and stays orthogonal to look.
    assert!(cam.right.x.raw.abs() <= 16);
    assert!((cam.right.z.raw + FX_ONE).abs() <= 16);
    let d = cam.look.dot(cam.right);
    assert!(d.raw.abs() <= 16);
}

#[test]
fn camera_rotate_up_quarter_turn() {
    let mut cam = FreeCamera::new(fi(1), fi(75), fi(1), fi(500));
    cam.rotate_up(fi(90));
    // look swings from -z to +y about the right axis.
    assert!(cam.look.x.raw.abs() <= 16);
    assert!((cam.look.y.raw - FX_ONE).abs() <= 16);
    assert!(cam.look.z.raw.abs() <= 16);
    // right is untouched by pitch.
    assert_eq!(cam.right.x.raw, FX_ONE);
}

#[test]
fn camera_view_transform_centers_position() {
    let mut cam = FreeCamera::new(fi(1), fi(75), fi(1), fi(500));
    cam.advance(fi(-7));
    cam.strafe(fi(3));
    let vt = cam.get_view_transform();
    // Fresh basis: the rebuilt axes are the canonical ones.
    assert_eq!(vt.z_axis.z.raw, -FX_ONE);
    assert_eq!(vt.y_axis.y.raw, FX_ONE);
    // The transform maps the camera position exactly to the origin.
    let px = cam.pos;
    let tx = vt.x_axis.dot(px).raw + vt.translation.x.raw;
    let ty = vt.y_axis.dot(px).raw + vt.translation.y.raw;
    let tz = vt.z_axis.dot(px).raw + vt.translation.z.raw;
    assert_eq!((tx, ty, tz), (0, 0, 0));
    let m = cam.get_view_matrix();
    assert_eq!(m.m22, vt.z_axis.z);
    assert_eq!(m.m03, vt.translation.x);
    assert_eq!(m.m33.raw, FX_ONE);
}

#[test]
fn frame_motion_policy() {
    let mut c = Controller::new();
    c.move_speed = Fx { raw: FX_ONE / 5 };
    c.rot_speed = Fx { raw: FX_ONE / 4 };
    c.front = true;
    c.right = true;
    c.rx = fi(10);
    c.ry = fi(-2);
    let m: FrameMotion = c.frame_motion();
    assert_eq!(m.advance.raw, FX_ONE / 5);
    assert_eq!(m.strafe.raw, FX_ONE / 5);
    // rot_up = ry * rot_speed, rot_left = -rx * rot_speed.
    assert_eq!(m.rot_up.raw, -2 * FX_ONE / 4);
    assert_eq!(m.rot_left.raw, -10 * FX_ONE / 4);
    assert_eq!((m.recenter_x, m.recenter_y), (0, 0));
    // Opposed flags cancel.
    c.back = true;
    c.left = true;
    let m2 = c.frame_motion();
    assert_eq!(m2.advance.raw, 0);
    assert_eq!(m2.strafe.raw, 0);
}

#[test]
fn iso_sphere_icosahedron_is_pinned() {
    let s = IsoSphere::new(0).unwrap();
    assert_eq!(s.faces.len(), 20);
    // p1 == normalize((0, t, -1)): recompute the expected projection.
    let t = GOLDEN_RATIO_FX as i128;
    let one = FX_ONE as i128;
    let n2 = (t * t + one * one) as u128;
    let len = gl_cookbook::vec3::isqrt_u128(n2) as i128;
    let expected_y = (t * one / len) as i64;
    let expected_z = -((one * one / len) as i64);
    let p1 = s.faces[0].v1;
    assert_eq!(p1.x.raw, 0);
    assert_eq!(p1.y.raw, expected_y);
    assert_eq!(p1.z.raw, expected_z);
    // The shared corners really are shared values.
    assert_eq!(s.faces[0].v1, s.faces[1].v1);
    assert_eq!(s.faces[0].v2, s.faces[10].v2);
    assert_eq!(s.faces[1].v3, s.faces[19].v1);
}

#[test]
fn iso_sphere_subdivision_keeps_corners() {
    let s0 = IsoSphere::new(0).unwrap();
    let s1 = IsoSphere::new(1).unwrap();
    assert_eq!(s1.faces.len(), 80);
    // Face j of level 0 becomes faces 4j..4j+4; the corner face at 4j+1
    // keeps the original first corner.
    for j in 0..20 {
        assert_eq!(s1.faces[4 * j + 1].v1, s0.faces[j].v1);
        assert_eq!(s1.faces[4 * j + 3].v3, s0.faces[j].v3);
        // The central face shares its corners with its three neighbors.
        assert_eq!(s1.faces[4 * j].v1, s1.faces[4 * j + 1].v2);
        assert_eq!(s1.faces[4 * j].v2, s1.faces[4 * j + 2].v2);
        assert_eq!(s1.faces[4 * j].v3, s1.faces[4 * j + 3].v1);
    }
}

#[test]
fn projection_matrix_values() {
    let cam = FreeCamera::new(fi(1), fi(75), fi(1), fi(500));
    let m = cam.projection.to_matrix().unwrap();
    // Half angle 37.5 degrees: both trig values are table lerps; the focal
    // scale is their fixed-point quotient.
    let s: i128 = 2584710514 + (2644179700 - 2584710514) / 2;
    let c: i128 = 3384409637 + (3430042880 - 3384409637) / 2;
    let f = (c * (FX_ONE as i128)) / s;
    assert_eq!(m.m11.raw as i128, f);
    // Unit aspect leaves the focal scale unchanged.
    assert_eq!(m.m00, m.m11);
    // Depth row: (far+near)/(near-far) and 2 far near/(near-far).
    let span: i128 = -(499 * FX_ONE as i128);
    assert_eq!(m.m22.raw as i128, -((501 * (FX_ONE as i128) * (FX_ONE as i128)) / (-span)));
    assert_eq!(
        m.m23.raw as i128,
        -((2 * 500 * (FX_ONE as i128) * (FX_ONE as i128)) / (-span))
    );
    assert_eq!(m.m32.raw, -FX_ONE);
    assert_eq!(m.m33.raw, 0);
    assert_eq!(m.m01.raw, 0);
}

#[test]
fn projection_matrix_rejects_degenerate_parameters() {
    let p = Projection { aspect: fi(0), fov_degrees: fi(75), near: fi(1), far: fi(500) };
    assert!(p.to_matrix().is_none());
    let p = Projection { aspect: fi(1), fov_degrees: fi(0), near: fi(1), far: fi(500) };
    assert!(p.to_matrix().is_none());
    let p = Projection { aspect: fi(1), fov_degrees: fi(75), near: fi(5), far: fi(5) };
    assert!(p.to_matrix().is_none());
}

#[test]
fn checked_div_reports_overflow() {
    assert_eq!(fi(1).checked_div(fi(2)).unwrap().raw, FX_ONE / 2);
    assert_eq!(fi(-6).checked_div(fi(3)).unwrap().raw, -2 * FX_ONE);
    // A maximal numerator over a sub-unit divisor leaves the raw range.
    assert!(Fx { raw: i64::MAX }.checked_div(Fx { raw: 1 }).is_none());
}

#[test]
fn frame_motion_drives_camera() {
    let mut cam = FreeCamera::new(fi(1), fi(75), fi(1), fi(500));
    let mut c = Controller::new();
    c.move_speed = fi(2);
    c.process_event(&InputEvent::KeyboardInput(true, Some(Key::Comma)));
    let m = c.frame_motion();
    cam.advance(m.advance);
    cam.strafe(m.strafe);
    cam.rotate_up(m.rot_up);
    cam.rotate_left(m.rot_left);
    // Forward two units along the initial -z look; zero deltas rotate by
    // zero degrees, which keeps the basis canonical up to the sine table's
    // folded 3.1415/180 constant (a few raw units per rotation).
    assert_eq!(cam.pos.z.raw, -2 * FX_ONE);
    assert!((cam.look.z.raw + FX_ONE).abs() <= 32);
    assert!((cam.right.x.raw - FX_ONE).abs() <= 32);
    assert!((cam.up.y.raw - FX_ONE).abs() <= 32);
}
