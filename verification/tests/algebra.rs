//! Vector and matrix algebra: multiply, invert, transpose and the in-place
//! transforms.

use gfxmath::fixed::FP_ONE;
use gfxmath::matrix::{Mat3, Mat4};
use gfxmath::vector::{Vec3, Vec4};

const S: f64 = 65536.0;

fn fp(x: f64) -> i64 {
    (x * S).round() as i64
}

fn to_f(v: i64) -> f64 {
    v as f64 / S
}

fn v4(x: f64, y: f64, z: f64, w: f64) -> Vec4 {
    Vec4::new(fp(x), fp(y), fp(z), fp(w))
}

fn m4(c0: [f64; 4], c1: [f64; 4], c2: [f64; 4], c3: [f64; 4]) -> Mat4 {
    Mat4 {
        c0: v4(c0[0], c0[1], c0[2], c0[3]),
        c1: v4(c1[0], c1[1], c1[2], c1[3]),
        c2: v4(c2[0], c2[1], c2[2], c2[3]),
        c3: v4(c3[0], c3[1], c3[2], c3[3]),
    }
}

fn entries(m: &Mat4) -> [i64; 16] {
    [
        m.c0.x, m.c0.y, m.c0.z, m.c0.w,
        m.c1.x, m.c1.y, m.c1.z, m.c1.w,
        m.c2.x, m.c2.y, m.c2.z, m.c2.w,
        m.c3.x, m.c3.y, m.c3.z, m.c3.w,
    ]
}

fn assert_close(a: &Mat4, b: &Mat4, tol: f64) {
    let ea = entries(a);
    let eb = entries(b);
    for i in 0..16 {
        assert!(
            (to_f(ea[i]) - to_f(eb[i])).abs() <= tol,
            "entry {} differs: {} against {}",
            i,
            to_f(ea[i]),
            to_f(eb[i])
        );
    }
}

fn sample_matrix() -> Mat4 {
    m4(
        [0.6, -0.8, 0.0, 0.25],
        [0.8, 0.6, 0.0, -1.5],
        [0.0, 0.0, 1.0, 2.0],
        [1.0, 2.0, 3.0, 1.0],
    )
}

#[test]
fn vector_componentwise_operations_are_exact() {
    let a = Vec3::new(fp(1.0), fp(2.0), fp(3.0));
    let b = Vec3::new(fp(0.5), fp(-1.0), fp(4.0));
    assert_eq!(a.add(&b), Vec3::new(fp(1.5), fp(1.0), fp(7.0)));
    assert_eq!(a.diff(&b), Vec3::new(fp(0.5), fp(3.0), fp(-1.0)));
    assert_eq!(a.dot_vec3(&b), fp(0.5 - 2.0 + 12.0));
    assert_eq!(a.dot(), fp(14.0));
}

#[test]
fn cross_product_is_exact_on_the_axes() {
    let x = Vec3::new(FP_ONE, 0, 0);
    let y = Vec3::new(0, FP_ONE, 0);
    let z = Vec3::new(0, 0, FP_ONE);
    assert_eq!(x.cross(&y), z);
    assert_eq!(y.cross(&z), x);
    assert_eq!(y.cross(&x), Vec3::new(0, 0, -FP_ONE));
}

#[test]
fn length_of_a_pythagorean_triple_is_exact() {
    let v = Vec3::new(fp(3.0), fp(4.0), 0);
    assert_eq!(v.length(), fp(5.0));
}

#[test]
fn normalize_scales_to_unit_length_and_returns_the_old_length() {
    let mut v = Vec3::new(0, 0, fp(5.0));
    let len = v.normalize();
    assert_eq!(len, fp(5.0));
    assert_eq!(v, Vec3::new(0, 0, FP_ONE));
}

#[test]
fn normalize_leaves_a_zero_vector_untouched() {
    let mut v = Vec3::new_zeroed();
    let len = v.normalize();
    assert_eq!(len, 0);
    assert_eq!(v, Vec3::new_zeroed());
}

#[test]
fn vec4_through_the_identity_is_itself() {
    let v = v4(1.5, -2.0, 0.25, 1.0);
    let m = Mat4::new_identity();
    assert_eq!(v.multiply_mat4(&m), v);
}

#[test]
fn vec4_through_a_translation_moves_by_it() {
    let mut m = Mat4::new_identity();
    m.translate(&Vec3::new(fp(1.0), fp(2.0), fp(3.0)));
    let v = v4(0.5, 0.5, 0.5, 1.0);
    assert_eq!(v.multiply_mat4(&m), v4(1.5, 2.5, 3.5, 1.0));
}

#[test]
fn transpose_twice_restores_the_matrix_exactly() {
    let m = sample_matrix();
    let mut t = m;
    t.transpose();
    t.transpose();
    assert_eq!(t, m);
}

#[test]
fn transpose_swaps_rows_and_columns() {
    let mut m = m4(
        [1.0, 2.0, 3.0, 4.0],
        [5.0, 6.0, 7.0, 8.0],
        [9.0, 10.0, 11.0, 12.0],
        [13.0, 14.0, 15.0, 16.0],
    );
    m.transpose();
    let expected = m4(
        [1.0, 5.0, 9.0, 13.0],
        [2.0, 6.0, 10.0, 14.0],
        [3.0, 7.0, 11.0, 15.0],
        [4.0, 8.0, 12.0, 16.0],
    );
    assert_eq!(m, expected);
}

#[test]
fn multiplying_by_the_identity_changes_nothing() {
    let m = sample_matrix();
    let id = Mat4::new_identity();
    assert_eq!(m.multiply(&id), m);
    assert_eq!(id.multiply(&m), m);
}

#[test]
fn multiply_composes_scale_and_translation_exactly() {
    let mut scale = Mat4::new_identity();
    scale.scale(&Vec3::new(fp(2.0), fp(2.0), fp(2.0)));
    let mut shift = Mat4::new_identity();
    shift.translate(&Vec3::new(fp(1.0), fp(0.0), fp(0.0)));
    // scale * shift: first shift, then scale the result.
    let composed = scale.multiply(&shift);
    let expected = m4(
        [2.0, 0.0, 0.0, 0.0],
        [0.0, 2.0, 0.0, 0.0],
        [0.0, 0.0, 2.0, 0.0],
        [2.0, 0.0, 0.0, 1.0],
    );
    assert_eq!(composed, expected);
}

#[test]
fn translate_recomputes_only_the_translation_column() {
    let mut m = Mat4::new_identity();
    m.translate(&Vec3::new(fp(1.0), fp(2.0), fp(3.0)));
    let expected = m4(
        [1.0, 0.0, 0.0, 0.0],
        [0.0, 1.0, 0.0, 0.0],
        [0.0, 0.0, 1.0, 0.0],
        [1.0, 2.0, 3.0, 1.0],
    );
    assert_eq!(m, expected);
}

#[test]
fn scale_touches_the_first_three_columns_only() {
    let mut m = Mat4::new_identity();
    m.translate(&Vec3::new(fp(1.0), fp(1.0), fp(1.0)));
    m.scale(&Vec3::new(fp(2.0), fp(3.0), fp(4.0)));
    let expected = m4(
        [2.0, 0.0, 0.0, 0.0],
        [0.0, 3.0, 0.0, 0.0],
        [0.0, 0.0, 4.0, 0.0],
        [1.0, 1.0, 1.0, 1.0],
    );
    assert_eq!(m, expected);
}

#[test]
fn rotate_by_ninety_about_z_is_exact() {
    let mut m = Mat4::new_identity();
    m.rotate(&Vec4::new(0, 0, FP_ONE, fp(90.0)));
    let expected = m4(
        [0.0, 1.0, 0.0, 0.0],
        [-1.0, 0.0, 0.0, 0.0],
        [0.0, 0.0, 1.0, 0.0],
        [0.0, 0.0, 0.0, 1.0],
    );
    assert_eq!(m, expected);
}

#[test]
fn rotate_with_zero_angle_or_zero_axis_is_a_no_op() {
    let m = sample_matrix();
    let mut a = m;
    a.rotate(&Vec4::new(FP_ONE, 0, 0, 0));
    assert_eq!(a, m);
    let mut b = m;
    b.rotate(&Vec4::new(0, 0, 0, fp(45.0)));
    assert_eq!(b, m);
}

#[test]
fn rotate_tracks_the_real_rotation() {
    let mut m = Mat4::new_identity();
    m.rotate(&Vec4::new(0, 0, FP_ONE, fp(30.0)));
    let c = 30.0f64.to_radians().cos();
    let s = 30.0f64.to_radians().sin();
    assert!((to_f(m.c0.x) - c).abs() < 1e-3);
    assert!((to_f(m.c0.y) - s).abs() < 1e-3);
    assert!((to_f(m.c1.x) + s).abs() < 1e-3);
    assert!((to_f(m.c1.y) - c).abs() < 1e-3);
}

#[test]
fn invert_fails_on_the_zero_matrix_and_leaves_it_unchanged() {
    let mut m = Mat4::new();
    let ok = m.invert_full();
    assert!(!ok);
    assert_eq!(m, Mat4::new());
}

#[test]
fn invert_of_a_diagonal_matrix_is_exact() {
    let mut m = m4(
        [2.0, 0.0, 0.0, 0.0],
        [0.0, 4.0, 0.0, 0.0],
        [0.0, 0.0, 0.5, 0.0],
        [0.0, 0.0, 0.0, 1.0],
    );
    let ok = m.invert_full();
    assert!(ok);
    let expected = m4(
        [0.5, 0.0, 0.0, 0.0],
        [0.0, 0.25, 0.0, 0.0],
        [0.0, 0.0, 2.0, 0.0],
        [0.0, 0.0, 0.0, 1.0],
    );
    assert_eq!(m, expected);
}

#[test]
fn invert_of_a_translation_is_the_opposite_translation() {
    let mut m = Mat4::new_identity();
    m.translate(&Vec3::new(fp(1.0), fp(2.0), fp(3.0)));
    let ok = m.invert_full();
    assert!(ok);
    let mut expected = Mat4::new_identity();
    expected.translate(&Vec3::new(fp(-1.0), fp(-2.0), fp(-3.0)));
    assert_close(&m, &expected, 1e-4);
}

#[test]
fn invert_twice_restores_a_nonsingular_matrix_within_tolerance() {
    let samples = [
        m4(
            [0.6, -0.8, 0.0, 0.0],
            [0.8, 0.6, 0.0, 0.0],
            [0.0, 0.0, 1.0, 0.0],
            [0.25, -0.375, 0.125, 1.0],
        ),
        m4(
            [1.0, 0.0, 0.0, 0.0],
            [0.0, 0.8, 0.6, 0.0],
            [0.0, -0.6, 0.8, 0.0],
            [0.5, -0.5, 0.25, 1.0],
        ),
        m4(
            [2.0, 0.0, 0.0, 0.0],
            [0.0, 4.0, 0.0, 0.0],
            [0.0, 0.0, 0.5, 0.0],
            [1.0, 2.0, 3.0, 1.0],
        ),
    ];
    for m in samples.iter() {
        let mut twice = *m;
        assert!(twice.invert_full());
        assert!(twice.invert_full());
        assert_close(&twice, m, 1e-4);
    }
}

#[test]
fn copy_to_and_copy_to_mat3_copy_what_they_say() {
    let m = sample_matrix();
    let mut d = Mat4::new();
    m.copy_to(&mut d);
    assert_eq!(d, m);
    let mut u = Mat3 {
        c0: Vec3::new_zeroed(),
        c1: Vec3::new_zeroed(),
        c2: Vec3::new_zeroed(),
    };
    m.copy_to_mat3(&mut u);
    assert_eq!(u.c0, Vec3::new(m.c0.x, m.c0.y, m.c0.z));
    assert_eq!(u.c1, Vec3::new(m.c1.x, m.c1.y, m.c1.z));
    assert_eq!(u.c2, Vec3::new(m.c2.x, m.c2.y, m.c2.z));
}

#[test]
fn ortho_on_the_ndc_cube_flips_only_the_depth_axis() {
    // The box already spans [-1, 1] in every axis, so x and y map through
    // unchanged; the depth axis picks up the sign flip baked into the
    // formula's -2/(far - near).
    let mut m = Mat4::new_identity();
    m.ortho(fp(-1.0), fp(1.0), fp(-1.0), fp(1.0), fp(-1.0), fp(1.0));
    let expected = m4(
        [1.0, 0.0, 0.0, 0.0],
        [0.0, 1.0, 0.0, 0.0],
        [0.0, 0.0, -1.0, 0.0],
        [0.0, 0.0, 0.0, 1.0],
    );
    assert_eq!(m, expected);
}

#[test]
fn ortho_with_an_empty_box_is_a_no_op() {
    let m = sample_matrix();
    let mut a = m;
    a.ortho(fp(1.0), fp(1.0), fp(-1.0), fp(1.0), fp(-1.0), fp(1.0));
    assert_eq!(a, m);
}

#[test]
fn ortho_maps_a_general_box_exactly() {
    let mut m = Mat4::new_identity();
    m.ortho(fp(0.0), fp(4.0), fp(-2.0), fp(2.0), fp(1.0), fp(3.0));
    let expected = m4(
        [0.5, 0.0, 0.0, 0.0],
        [0.0, 0.5, 0.0, 0.0],
        [0.0, 0.0, -1.0, 0.0],
        [-1.0, 0.0, -2.0, 1.0],
    );
    assert_eq!(m, expected);
}
