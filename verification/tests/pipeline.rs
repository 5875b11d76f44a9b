//! The matrix stack and the camera utilities: push/pop behaviour, stack
//! failure signalling, camera construction and the project/unproject pair.

use gfxmath::camera::{project, unproject};
use gfxmath::fixed::FP_ONE;
use gfxmath::matrix::{Mat3, Mat4};
use gfxmath::program::VertexAttrib;
use gfxmath::stack::{MatrixMode, MatrixStack, StackError};
use gfxmath::vector::Vec3;

const S: f64 = 65536.0;

fn fp(x: f64) -> i64 {
    (x * S).round() as i64
}

fn to_f(v: i64) -> f64 {
    v as f64 / S
}

#[test]
fn a_fresh_stack_selects_modelview_and_holds_identities() {
    let s = MatrixStack::new();
    assert_eq!(s.mode, MatrixMode::ModelView);
    assert_eq!(s.modelview_index, 0);
    assert_eq!(s.projection_index, 0);
    assert_eq!(s.texture_index, 0);
    let id = Mat4::new_identity();
    assert_eq!(*s.get_modelview_matrix(), id);
    assert_eq!(*s.get_projection_matrix(), id);
    assert_eq!(*s.get_texture_matrix(), id);
}

#[test]
fn operations_touch_only_the_selected_mode() {
    let mut s = MatrixStack::new();
    s.set_matrix_mode(MatrixMode::Texture);
    s.translate(fp(1.0), fp(2.0), fp(3.0));
    let id = Mat4::new_identity();
    assert_eq!(*s.get_modelview_matrix(), id);
    assert_eq!(*s.get_projection_matrix(), id);
    let mut expected = Mat4::new_identity();
    expected.translate(&Vec3::new(fp(1.0), fp(2.0), fp(3.0)));
    assert_eq!(*s.get_texture_matrix(), expected);
}

#[test]
fn load_identity_overwrites_the_active_matrix() {
    let mut s = MatrixStack::new();
    s.translate(fp(1.0), fp(1.0), fp(1.0));
    s.load_identity();
    assert_eq!(*s.get_modelview_matrix(), Mat4::new_identity());
}

#[test]
fn load_and_multiply_compose_the_active_matrix() {
    let mut s = MatrixStack::new();
    let mut t = Mat4::new_identity();
    t.translate(&Vec3::new(fp(1.0), fp(0.0), fp(0.0)));
    s.load_matrix(&t);
    s.multiply_matrix(&t);
    let expected = t.multiply(&t);
    assert_eq!(*s.get_modelview_matrix(), expected);
}

#[test]
fn push_then_pop_restores_index_and_active_matrix() {
    let mut s = MatrixStack::new();
    s.translate(fp(1.0), fp(2.0), fp(3.0));
    s.rotate(fp(90.0), 0, 0, FP_ONE);
    let before = *s.get_modelview_matrix();
    let index_before = s.modelview_index;
    assert_eq!(s.push_matrix(), Ok(()));
    assert_eq!(s.modelview_index, index_before + 1);
    s.load_identity();
    assert_eq!(*s.get_modelview_matrix(), Mat4::new_identity());
    assert_eq!(s.pop_matrix(), Ok(()));
    assert_eq!(s.modelview_index, index_before);
    assert_eq!(*s.get_modelview_matrix(), before);
}

#[test]
fn pushing_past_the_modelview_capacity_signals_overflow() {
    let mut s = MatrixStack::new();
    for expected_index in 1..8 {
        assert_eq!(s.push_matrix(), Ok(()));
        assert_eq!(s.modelview_index, expected_index);
    }
    assert_eq!(s.push_matrix(), Err(StackError::Overflow));
    assert_eq!(s.modelview_index, 7);
}

#[test]
fn pushing_past_the_projection_capacity_signals_overflow() {
    let mut s = MatrixStack::new();
    s.set_matrix_mode(MatrixMode::Projection);
    assert_eq!(s.push_matrix(), Ok(()));
    assert_eq!(s.push_matrix(), Err(StackError::Overflow));
    assert_eq!(s.projection_index, 1);
}

#[test]
fn popping_the_bottom_entry_signals_underflow() {
    let mut s = MatrixStack::new();
    assert_eq!(s.pop_matrix(), Err(StackError::Underflow));
    assert_eq!(s.modelview_index, 0);
    s.set_matrix_mode(MatrixMode::Texture);
    assert_eq!(s.pop_matrix(), Err(StackError::Underflow));
}

#[test]
fn modelview_projection_is_projection_times_modelview() {
    let mut s = MatrixStack::new();
    s.translate(fp(0.5), fp(-0.5), fp(1.0));
    s.set_matrix_mode(MatrixMode::Projection);
    s.ortho(fp(-2.0), fp(2.0), fp(-2.0), fp(2.0), fp(-2.0), fp(2.0));
    let mv = *s.get_modelview_matrix();
    let proj = *s.get_projection_matrix();
    assert_eq!(s.get_modelview_projection_matrix(), proj.multiply(&mv));
}

#[test]
fn normal_matrix_of_a_uniform_scale_is_its_inverse() {
    let mut s = MatrixStack::new();
    s.scale(fp(2.0), fp(2.0), fp(2.0));
    let n = s.get_normal_matrix();
    let expected = Mat3 {
        c0: Vec3::new(fp(0.5), 0, 0),
        c1: Vec3::new(0, fp(0.5), 0),
        c2: Vec3::new(0, 0, fp(0.5)),
    };
    assert_eq!(n, expected);
}

#[test]
fn normal_matrix_of_a_singular_modelview_uses_the_uninverted_copy() {
    let mut s = MatrixStack::new();
    s.load_matrix(&Mat4::new());
    let n = s.get_normal_matrix();
    let zero = Mat3 {
        c0: Vec3::new_zeroed(),
        c1: Vec3::new_zeroed(),
        c2: Vec3::new_zeroed(),
    };
    assert_eq!(n, zero);
}

#[test]
fn look_at_down_the_z_axis_gives_a_pure_back_translation() {
    let mut s = MatrixStack::new();
    let eye = Vec3::new(0, 0, fp(5.0));
    let center = Vec3::new_zeroed();
    let up = Vec3::new(0, FP_ONE, 0);
    s.look_at(&eye, &center, &up);
    let m = *s.get_modelview_matrix();
    // The rotation block is the identity...
    assert_eq!(m.c0, gfxmath::vector::Vec4::new(FP_ONE, 0, 0, 0));
    assert_eq!(m.c1, gfxmath::vector::Vec4::new(0, FP_ONE, 0, 0));
    assert_eq!(m.c2, gfxmath::vector::Vec4::new(0, 0, FP_ONE, 0));
    // ...and the translation column moves the eye to the origin.
    assert_eq!(m.c3, gfxmath::vector::Vec4::new(0, 0, fp(-5.0), FP_ONE));
}

#[test]
fn set_perspective_builds_the_frustum_entries() {
    let mut s = MatrixStack::new();
    s.set_matrix_mode(MatrixMode::Projection);
    s.set_perspective(fp(90.0), FP_ONE, fp(1.0), fp(3.0), 0);
    let m = *s.get_projection_matrix();
    // cot(45 degrees) is 1, up to the trig polynomial's rounding.
    assert!((to_f(m.c0.x) - 1.0).abs() < 2e-3);
    assert!((to_f(m.c1.y) - 1.0).abs() < 2e-3);
    // The depth entries are exact: -(far+near)/(far-near) = -2 and
    // -2*near*far/(far-near) = -3 for near 1, far 3.
    assert_eq!(m.c2.z, fp(-2.0));
    assert_eq!(m.c2.w, fp(-1.0));
    assert_eq!(m.c3.z, fp(-3.0));
    assert_eq!(m.c3.w, 0);
}

#[test]
fn set_perspective_with_a_degenerate_field_of_view_is_a_no_op() {
    let mut s = MatrixStack::new();
    s.set_matrix_mode(MatrixMode::Projection);
    let before = *s.get_projection_matrix();
    s.set_perspective(0, FP_ONE, fp(1.0), fp(3.0), 0);
    assert_eq!(*s.get_projection_matrix(), before);
}

#[test]
fn set_orthographic_with_unit_factor_matches_plain_ortho() {
    let mut a = MatrixStack::new();
    a.set_matrix_mode(MatrixMode::Projection);
    // scale * 0.5 * aspect_ratio = 2 * 0.5 * 1 = 1: the shrink is by 1.
    a.set_orthographic(FP_ONE, fp(2.0), FP_ONE, fp(-1.0), fp(1.0), 0);
    let mut b = MatrixStack::new();
    b.set_matrix_mode(MatrixMode::Projection);
    b.ortho(fp(-1.0), fp(1.0), fp(-1.0), fp(1.0), fp(-1.0), fp(1.0));
    assert_eq!(*a.get_projection_matrix(), *b.get_projection_matrix());
}

#[test]
fn set_orthographic_applies_the_screen_rotation_last() {
    let mut a = MatrixStack::new();
    a.set_matrix_mode(MatrixMode::Projection);
    a.set_orthographic(FP_ONE, fp(2.0), FP_ONE, fp(-1.0), fp(1.0), fp(90.0));
    let mut b = MatrixStack::new();
    b.set_matrix_mode(MatrixMode::Projection);
    b.ortho(fp(-1.0), fp(1.0), fp(-1.0), fp(1.0), fp(-1.0), fp(1.0));
    b.rotate(fp(90.0), 0, 0, FP_ONE);
    assert_eq!(*a.get_projection_matrix(), *b.get_projection_matrix());
}

#[test]
fn set_orthographic_2d_fixes_the_depth_planes() {
    let mut a = MatrixStack::new();
    a.set_orthographic_2d(fp(0.0), fp(4.0), fp(0.0), fp(2.0));
    let mut b = MatrixStack::new();
    b.ortho(fp(0.0), fp(4.0), fp(0.0), fp(2.0), fp(-1.0), fp(1.0));
    assert_eq!(*a.get_modelview_matrix(), *b.get_modelview_matrix());
}

fn sample_pipeline() -> (Mat4, Mat4, [i32; 4]) {
    let mut mv = Mat4::new_identity();
    mv.translate(&Vec3::new(fp(0.25), fp(0.5), fp(0.0)));
    let mut proj = Mat4::new_identity();
    proj.ortho(fp(-2.0), fp(2.0), fp(-2.0), fp(2.0), fp(-2.0), fp(2.0));
    (mv, proj, [0, 0, 64, 64])
}

#[test]
fn project_maps_an_object_point_to_window_coordinates() {
    let (mv, proj, vp) = sample_pipeline();
    let r = project(fp(0.5), fp(0.25), fp(0.75), &mv, &proj, &vp);
    let p = r.expect("the point is in front of the camera");
    assert_eq!(p.x, fp(44.0));
    assert_eq!(p.y, fp(44.0));
    assert_eq!(p.z, fp(0.3125));
}

#[test]
fn unproject_inverts_project_within_tolerance() {
    let (mv, proj, vp) = sample_pipeline();
    let samples = [
        (fp(0.5), fp(0.25), fp(0.75)),
        (fp(-0.5), fp(1.0), fp(0.0)),
        (fp(0.125), fp(-0.375), fp(1.5)),
    ];
    for &(x, y, z) in samples.iter() {
        let w = project(x, y, z, &mv, &proj, &vp).expect("projectable");
        let back = unproject(w.x, w.y, w.z, &mv, &proj, &vp).expect("unprojectable");
        assert!((to_f(back.x) - to_f(x)).abs() < 1e-3);
        assert!((to_f(back.y) - to_f(y)).abs() < 1e-3);
        assert!((to_f(back.z) - to_f(z)).abs() < 1e-3);
    }
}

#[test]
fn project_returns_none_when_w_lands_on_zero() {
    let blank = Mat4::new();
    let vp: [i32; 4] = [0, 0, 64, 64];
    assert_eq!(project(fp(1.0), fp(1.0), fp(1.0), &blank, &blank, &vp), None);
}

#[test]
fn unproject_returns_none_for_a_singular_combination() {
    let blank = Mat4::new();
    let vp: [i32; 4] = [0, 0, 64, 64];
    assert_eq!(unproject(fp(1.0), fp(1.0), fp(0.5), &blank, &blank, &vp), None);
}

#[test]
fn unproject_returns_none_for_an_empty_viewport() {
    let (mv, proj, _) = sample_pipeline();
    let vp: [i32; 4] = [0, 0, 0, 64];
    assert_eq!(unproject(fp(1.0), fp(1.0), fp(0.5), &mv, &proj, &vp), None);
}

#[test]
fn vertex_attrib_keeps_its_fields() {
    let a = VertexAttrib::new(String::from("a_position"), 35665, 2);
    assert_eq!(a.name, "a_position");
    assert_eq!(a.var_type, 35665);
    assert_eq!(a.location, 2);
}
