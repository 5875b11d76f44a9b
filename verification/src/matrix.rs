//! 3x3 and 4x4 matrices of fixed-point scalars, stored column-major: `cN`
//! is the N-th column, and transforms compose by post-multiplication,
//! `M' = M * T`.

use vstd::prelude::*;
use crate::fixed::FP_ONE;
use crate::fixed::FP_TWO;
use crate::fixed::fpc;
use crate::fixed::fp_add_spec;
use crate::fixed::fp_sub_spec;
use crate::fixed::fp_neg_spec;
use crate::fixed::fp_mul_spec;
use crate::fixed::fp_div_spec;
use crate::fixed::fp_dot4_spec;
use crate::fixed::fp_dot3_add_spec;
use crate::fixed::fp_det3_spec;
use crate::fixed::fp_add;
use crate::fixed::fp_sub;
use crate::fixed::fp_neg;
use crate::fixed::fp_mul;
use crate::fixed::fp_div;
use crate::fixed::fp_dot4;
use crate::fixed::fp_dot3_add;
use crate::fixed::fp_det3;
use crate::fixed::lemma_fp_identity_ops;
use crate::trig::fp_sin_deg_spec;
use crate::trig::fp_cos_deg_spec;
use crate::trig::fp_sin_deg;
use crate::trig::fp_cos_deg;
use crate::vector::Vec3;
use crate::vector::Vec4;

verus! {

/// A 3x3 matrix of fixed-point scalars, stored as three columns.
#[derive(Clone, Copy, Debug, PartialEq, Eq, Structural)]
pub struct Mat3 {
    pub c0: Vec3,
    pub c1: Vec3,
    pub c2: Vec3,
}

/// A 4x4 matrix of fixed-point scalars, stored as four columns.
#[derive(Clone, Copy, Debug, PartialEq, Eq, Structural)]
pub struct Mat4 {
    pub c0: Vec4,
    pub c1: Vec4,
    pub c2: Vec4,
    pub c3: Vec4,
}

/// The all-zero 3x3 matrix.
pub open spec fn mat3_blank_spec() -> Mat3 {
    Mat3 {
        c0: Vec3 { x: 0, y: 0, z: 0 },
        c1: Vec3 { x: 0, y: 0, z: 0 },
        c2: Vec3 { x: 0, y: 0, z: 0 },
    }
}

/// The all-zero 4x4 matrix.
pub open spec fn mat4_blank_spec() -> Mat4 {
    Mat4 {
        c0: Vec4 { x: 0, y: 0, z: 0, w: 0 },
        c1: Vec4 { x: 0, y: 0, z: 0, w: 0 },
        c2: Vec4 { x: 0, y: 0, z: 0, w: 0 },
        c3: Vec4 { x: 0, y: 0, z: 0, w: 0 },
    }
}

/// The 4x4 identity matrix.
pub open spec fn mat4_identity_spec() -> Mat4 {
    Mat4 {
        c0: Vec4 { x: FP_ONE, y: 0, z: 0, w: 0 },
        c1: Vec4 { x: 0, y: FP_ONE, z: 0, w: 0 },
        c2: Vec4 { x: 0, y: 0, z: FP_ONE, w: 0 },
        c3: Vec4 { x: 0, y: 0, z: 0, w: FP_ONE },
    }
}

/// One entry of the matrix product `a * b`: the inner product of a row of
/// `a` (given as its four entries) with a column of `b`.
pub open spec fn mat4_mul_entry_spec(ar0: i64, ar1: i64, ar2: i64, ar3: i64, bc: Vec4) -> i64 {
    fpc(
        fp_dot4_spec(
            ar0 as int,
            bc.x as int,
            ar1 as int,
            bc.y as int,
            ar2 as int,
            bc.z as int,
            ar3 as int,
            bc.w as int,
        ),
    )
}

/// One column of the matrix product `a * b`.
pub open spec fn mat4_mul_col_spec(a: Mat4, bc: Vec4) -> Vec4 {
    Vec4 {
        x: mat4_mul_entry_spec(a.c0.x, a.c1.x, a.c2.x, a.c3.x, bc),
        y: mat4_mul_entry_spec(a.c0.y, a.c1.y, a.c2.y, a.c3.y, bc),
        z: mat4_mul_entry_spec(a.c0.z, a.c1.z, a.c2.z, a.c3.z, bc),
        w: mat4_mul_entry_spec(a.c0.w, a.c1.w, a.c2.w, a.c3.w, bc),
    }
}

/// The matrix product `a * b`.
pub open spec fn mat4_multiply_spec(a: Mat4, b: Mat4) -> Mat4 {
    Mat4 {
        c0: mat4_mul_col_spec(a, b.c0),
        c1: mat4_mul_col_spec(a, b.c1),
        c2: mat4_mul_col_spec(a, b.c2),
        c3: mat4_mul_col_spec(a, b.c3),
    }
}

/// The transpose: rows and columns swapped.
pub open spec fn mat4_transpose_spec(m: Mat4) -> Mat4 {
    Mat4 {
        c0: Vec4 { x: m.c0.x, y: m.c1.x, z: m.c2.x, w: m.c3.x },
        c1: Vec4 { x: m.c0.y, y: m.c1.y, z: m.c2.y, w: m.c3.y },
        c2: Vec4 { x: m.c0.z, y: m.c1.z, z: m.c2.z, w: m.c3.z },
        c3: Vec4 { x: m.c0.w, y: m.c1.w, z: m.c2.w, w: m.c3.w },
    }
}

/// The upper-left 3x3 block, with translation and the fourth row dropped.
pub open spec fn mat4_upper3_spec(m: Mat4) -> Mat3 {
    Mat3 {
        c0: Vec3 { x: m.c0.x, y: m.c0.y, z: m.c0.z },
        c1: Vec3 { x: m.c1.x, y: m.c1.y, z: m.c1.z },
        c2: Vec3 { x: m.c2.x, y: m.c2.y, z: m.c2.z },
    }
}

/// The translation column recomputed by `translate`:
/// `col3' = col0*v.x + col1*v.y + col2*v.z + col3`.
pub open spec fn mat4_translate_spec(m: Mat4, v: Vec3) -> Mat4 {
    Mat4 {
        c0: m.c0,
        c1: m.c1,
        c2: m.c2,
        c3: Vec4 {
            x: fpc(
                fp_dot3_add_spec(
                    m.c0.x as int,
                    v.x as int,
                    m.c1.x as int,
                    v.y as int,
                    m.c2.x as int,
                    v.z as int,
                    m.c3.x as int,
                ),
            ),
            y: fpc(
                fp_dot3_add_spec(
                    m.c0.y as int,
                    v.x as int,
                    m.c1.y as int,
                    v.y as int,
                    m.c2.y as int,
                    v.z as int,
                    m.c3.y as int,
                ),
            ),
            z: fpc(
                fp_dot3_add_spec(
                    m.c0.z as int,
                    v.x as int,
                    m.c1.z as int,
                    v.y as int,
                    m.c2.z as int,
                    v.z as int,
                    m.c3.z as int,
                ),
            ),
            w: fpc(
                fp_dot3_add_spec(
                    m.c0.w as int,
                    v.x as int,
                    m.c1.w as int,
                    v.y as int,
                    m.c2.w as int,
                    v.z as int,
                    m.c3.w as int,
                ),
            ),
        },
    }
}

/// One column scaled by a scalar factor.
pub open spec fn vec4_scale_spec(c: Vec4, s: i64) -> Vec4 {
    Vec4 {
        x: fpc(fp_mul_spec(c.x as int, s as int)),
        y: fpc(fp_mul_spec(c.y as int, s as int)),
        z: fpc(fp_mul_spec(c.z as int, s as int)),
        w: fpc(fp_mul_spec(c.w as int, s as int)),
    }
}

/// Columns 0 to 2 scaled by `v.x`, `v.y` and `v.z`; the translation column
/// is untouched.
pub open spec fn mat4_scale_spec(m: Mat4, v: Vec3) -> Mat4 {
    Mat4 {
        c0: vec4_scale_spec(m.c0, v.x),
        c1: vec4_scale_spec(m.c1, v.y),
        c2: vec4_scale_spec(m.c2, v.z),
        c3: m.c3,
    }
}

/// Inputs on which `rotate` is a no-op: a zero angle or a zero axis.
pub open spec fn rotate_degenerate_spec(v: Vec4) -> bool {
    v.w == 0 || (v.x == 0 && v.y == 0 && v.z == 0)
}

/// The Rodrigues rotation matrix for axis `(v.x, v.y, v.z)` and angle `v.w`
/// in fixed-point degrees. The axis is taken as given: a non-unit axis
/// yields the correspondingly distorted matrix.
pub open spec fn mat4_rotation_spec(v: Vec4) -> Mat4 {
    let s = fp_sin_deg_spec(v.w as int);
    let c = fp_cos_deg_spec(v.w as int);
    let xx = fp_mul_spec(v.x as int, v.x as int);
    let yy = fp_mul_spec(v.y as int, v.y as int);
    let zz = fp_mul_spec(v.z as int, v.z as int);
    let xy = fp_mul_spec(v.x as int, v.y as int);
    let yz = fp_mul_spec(v.y as int, v.z as int);
    let zx = fp_mul_spec(v.z as int, v.x as int);
    let xs = fp_mul_spec(v.x as int, s);
    let ys = fp_mul_spec(v.y as int, s);
    let zs = fp_mul_spec(v.z as int, s);
    let c1 = fp_sub_spec(FP_ONE as int, c);
    Mat4 {
        c0: Vec4 {
            x: fpc(fp_add_spec(fp_mul_spec(c1, xx), c)),
            y: fpc(fp_add_spec(fp_mul_spec(c1, xy), zs)),
            z: fpc(fp_sub_spec(fp_mul_spec(c1, zx), ys)),
            w: 0,
        },
        c1: Vec4 {
            x: fpc(fp_sub_spec(fp_mul_spec(c1, xy), zs)),
            y: fpc(fp_add_spec(fp_mul_spec(c1, yy), c)),
            z: fpc(fp_add_spec(fp_mul_spec(c1, yz), xs)),
            w: 0,
        },
        c2: Vec4 {
            x: fpc(fp_add_spec(fp_mul_spec(c1, zx), ys)),
            y: fpc(fp_sub_spec(fp_mul_spec(c1, yz), xs)),
            z: fpc(fp_add_spec(fp_mul_spec(c1, zz), c)),
            w: 0,
        },
        c3: Vec4 { x: 0, y: 0, z: 0, w: FP_ONE },
    }
}

/// What `rotate` does: a no-op on degenerate input, otherwise
/// post-multiplication by the rotation matrix.
pub open spec fn mat4_rotate_spec(m: Mat4, v: Vec4) -> Mat4 {
    if rotate_degenerate_spec(v) {
        m
    } else {
        mat4_multiply_spec(m, mat4_rotation_spec(v))
    }
}

/// Inputs on which `ortho` is a no-op: an empty box in some axis.
pub open spec fn ortho_degenerate_spec(
    left: int,
    right: int,
    bottom: int,
    top: int,
    clip_start: int,
    clip_end: int,
) -> bool {
    fp_sub_spec(right, left) == 0 || fp_sub_spec(top, bottom) == 0 || fp_sub_spec(
        clip_end,
        clip_start,
    ) == 0
}

/// The orthographic projection matrix mapping the given box onto the
/// `[-1, 1]` cube.
pub open spec fn mat4_ortho_matrix_spec(
    left: int,
    right: int,
    bottom: int,
    top: int,
    clip_start: int,
    clip_end: int,
) -> Mat4 {
    let dx = fp_sub_spec(right, left);
    let dy = fp_sub_spec(top, bottom);
    let dz = fp_sub_spec(clip_end, clip_start);
    Mat4 {
        c0: Vec4 { x: fpc(fp_div_spec(FP_TWO as int, dx)), y: 0, z: 0, w: 0 },
        c1: Vec4 { x: 0, y: fpc(fp_div_spec(FP_TWO as int, dy)), z: 0, w: 0 },
        c2: Vec4 { x: 0, y: 0, z: fpc(fp_div_spec(fp_neg_spec(FP_TWO as int), dz)), w: 0 },
        c3: Vec4 {
            x: fpc(fp_div_spec(fp_neg_spec(fp_add_spec(right, left)), dx)),
            y: fpc(fp_div_spec(fp_neg_spec(fp_add_spec(top, bottom)), dy)),
            z: fpc(fp_div_spec(fp_neg_spec(fp_add_spec(clip_end, clip_start)), dz)),
            w: FP_ONE,
        },
    }
}

/// What `ortho` does: a no-op on an empty box, otherwise post-multiplication
/// by the orthographic projection matrix.
pub open spec fn mat4_ortho_spec(
    m: Mat4,
    left: int,
    right: int,
    bottom: int,
    top: int,
    clip_start: int,
    clip_end: int,
) -> Mat4 {
    if ortho_degenerate_spec(left, right, bottom, top, clip_start, clip_end) {
        m
    } else {
        mat4_multiply_spec(m, mat4_ortho_matrix_spec(left, right, bottom, top, clip_start, clip_end))
    }
}

/// The minor determinant of three columns restricted to rows y, z, w.
pub open spec fn det3_yzw_spec(p: Vec4, q: Vec4, r: Vec4) -> int {
    fp_det3_spec(
        p.y as int,
        q.y as int,
        r.y as int,
        p.z as int,
        q.z as int,
        r.z as int,
        p.w as int,
        q.w as int,
        r.w as int,
    )
}

/// The minor determinant of three columns restricted to rows x, z, w.
pub open spec fn det3_xzw_spec(p: Vec4, q: Vec4, r: Vec4) -> int {
    fp_det3_spec(
        p.x as int,
        q.x as int,
        r.x as int,
        p.z as int,
        q.z as int,
        r.z as int,
        p.w as int,
        q.w as int,
        r.w as int,
    )
}

/// The minor determinant of three columns restricted to rows x, y, w.
pub open spec fn det3_xyw_spec(p: Vec4, q: Vec4, r: Vec4) -> int {
    fp_det3_spec(
        p.x as int,
        q.x as int,
        r.x as int,
        p.y as int,
        q.y as int,
        r.y as int,
        p.w as int,
        q.w as int,
        r.w as int,
    )
}

/// The minor determinant of three columns restricted to rows x, y, z.
pub open spec fn det3_xyz_spec(p: Vec4, q: Vec4, r: Vec4) -> int {
    fp_det3_spec(
        p.x as int,
        q.x as int,
        r.x as int,
        p.y as int,
        q.y as int,
        r.y as int,
        p.z as int,
        q.z as int,
        r.z as int,
    )
}

/// The adjugate: the matrix of signed 3x3 minor determinants, transposed.
pub open spec fn mat4_adjugate_spec(m: Mat4) -> Mat4 {
    Mat4 {
        c0: Vec4 {
            x: fpc(det3_yzw_spec(m.c1, m.c2, m.c3)),
            y: fpc(fp_neg_spec(det3_yzw_spec(m.c0, m.c2, m.c3))),
            z: fpc(det3_yzw_spec(m.c0, m.c1, m.c3)),
            w: fpc(fp_neg_spec(det3_yzw_spec(m.c0, m.c1, m.c2))),
        },
        c1: Vec4 {
            x: fpc(fp_neg_spec(det3_xzw_spec(m.c1, m.c2, m.c3))),
            y: fpc(det3_xzw_spec(m.c0, m.c2, m.c3)),
            z: fpc(fp_neg_spec(det3_xzw_spec(m.c0, m.c1, m.c3))),
            w: fpc(det3_xzw_spec(m.c0, m.c1, m.c2)),
        },
        c2: Vec4 {
            x: fpc(det3_xyw_spec(m.c1, m.c2, m.c3)),
            y: fpc(fp_neg_spec(det3_xyw_spec(m.c0, m.c2, m.c3))),
            z: fpc(det3_xyw_spec(m.c0, m.c1, m.c3)),
            w: fpc(fp_neg_spec(det3_xyw_spec(m.c0, m.c1, m.c2))),
        },
        c3: Vec4 {
            x: fpc(fp_neg_spec(det3_xyz_spec(m.c1, m.c2, m.c3))),
            y: fpc(det3_xyz_spec(m.c0, m.c2, m.c3)),
            z: fpc(fp_neg_spec(det3_xyz_spec(m.c0, m.c1, m.c3))),
            w: fpc(det3_xyz_spec(m.c0, m.c1, m.c2)),
        },
    }
}

/// The determinant, expanded along the first column against the first row
/// of the adjugate.
pub open spec fn mat4_det_spec(m: Mat4) -> int {
    let adj = mat4_adjugate_spec(m);
    fp_dot4_spec(
        m.c0.x as int,
        adj.c0.x as int,
        m.c0.y as int,
        adj.c1.x as int,
        m.c0.z as int,
        adj.c2.x as int,
        m.c0.w as int,
        adj.c3.x as int,
    )
}

/// The inverse as `invert_full` computes it when the determinant is
/// nonzero: the adjugate with every entry divided by the determinant.
pub open spec fn mat4_invert_result_spec(m: Mat4) -> Mat4 {
    let adj = mat4_adjugate_spec(m);
    let det = mat4_det_spec(m);
    Mat4 {
        c0: Vec4 {
            x: fpc(fp_div_spec(adj.c0.x as int, det)),
            y: fpc(fp_div_spec(adj.c0.y as int, det)),
            z: fpc(fp_div_spec(adj.c0.z as int, det)),
            w: fpc(fp_div_spec(adj.c0.w as int, det)),
        },
        c1: Vec4 {
            x: fpc(fp_div_spec(adj.c1.x as int, det)),
            y: fpc(fp_div_spec(adj.c1.y as int, det)),
            z: fpc(fp_div_spec(adj.c1.z as int, det)),
            w: fpc(fp_div_spec(adj.c1.w as int, det)),
        },
        c2: Vec4 {
            x: fpc(fp_div_spec(adj.c2.x as int, det)),
            y: fpc(fp_div_spec(adj.c2.y as int, det)),
            z: fpc(fp_div_spec(adj.c2.z as int, det)),
            w: fpc(fp_div_spec(adj.c2.w as int, det)),
        },
        c3: Vec4 {
            x: fpc(fp_div_spec(adj.c3.x as int, det)),
            y: fpc(fp_div_spec(adj.c3.y as int, det)),
            z: fpc(fp_div_spec(adj.c3.z as int, det)),
            w: fpc(fp_div_spec(adj.c3.w as int, det)),
        },
    }
}

fn det3_yzw(p: &Vec4, q: &Vec4, r: &Vec4) -> (d: i64)
    ensures
        d as int == det3_yzw_spec(*p, *q, *r),
{
    fp_det3(p.y, q.y, r.y, p.z, q.z, r.z, p.w, q.w, r.w)
}

fn det3_xzw(p: &Vec4, q: &Vec4, r: &Vec4) -> (d: i64)
    ensures
        d as int == det3_xzw_spec(*p, *q, *r),
{
    fp_det3(p.x, q.x, r.x, p.z, q.z, r.z, p.w, q.w, r.w)
}

fn det3_xyw(p: &Vec4, q: &Vec4, r: &Vec4) -> (d: i64)
    ensures
        d as int == det3_xyw_spec(*p, *q, *r),
{
    fp_det3(p.x, q.x, r.x, p.y, q.y, r.y, p.w, q.w, r.w)
}

fn det3_xyz(p: &Vec4, q: &Vec4, r: &Vec4) -> (d: i64)
    ensures
        d as int == det3_xyz_spec(*p, *q, *r),
{
    fp_det3(p.x, q.x, r.x, p.y, q.y, r.y, p.z, q.z, r.z)
}

impl Mat3 {
    pub fn new() -> (r: Self)
        ensures
            r == mat3_blank_spec(),
    {
        Mat3 {
            c0: Vec3 { x: 0, y: 0, z: 0 },
            c1: Vec3 { x: 0, y: 0, z: 0 },
            c2: Vec3 { x: 0, y: 0, z: 0 },
        }
    }
}

impl Default for Mat3 {
    fn default() -> (r: Self)
        ensures
            r == mat3_blank_spec(),
    {
        Mat3::new()
    }
}

impl Mat4 {
    pub fn new() -> (r: Self)
        ensures
            r == mat4_blank_spec(),
    {
        Mat4 {
            c0: Vec4 { x: 0, y: 0, z: 0, w: 0 },
            c1: Vec4 { x: 0, y: 0, z: 0, w: 0 },
            c2: Vec4 { x: 0, y: 0, z: 0, w: 0 },
            c3: Vec4 { x: 0, y: 0, z: 0, w: 0 },
        }
    }

    pub fn new_identity() -> (r: Self)
        ensures
            r == mat4_identity_spec(),
    {
        Mat4 {
            c0: Vec4 { x: FP_ONE, y: 0, z: 0, w: 0 },
            c1: Vec4 { x: 0, y: FP_ONE, z: 0, w: 0 },
            c2: Vec4 { x: 0, y: 0, z: FP_ONE, w: 0 },
            c3: Vec4 { x: 0, y: 0, z: 0, w: FP_ONE },
        }
    }

    /// Overwrite the matrix with the identity.
    pub fn identity(&mut self)
        ensures
            *final(self) == mat4_identity_spec(),
    {
        *self = Mat4::new_identity();
    }

    /// Copy this matrix into `dest`.
    pub fn copy_to(&self, dest: &mut Mat4)
        ensures
            *final(dest) == *self,
    {
        *dest = *self;
    }

    /// The matrix product `self * m`.
    pub fn multiply(&self, m: &Mat4) -> (r: Self)
        ensures
            r == mat4_multiply_spec(*self, *m),
    {
        Mat4 {
            c0: self.multiply_col(&m.c0),
            c1: self.multiply_col(&m.c1),
            c2: self.multiply_col(&m.c2),
            c3: self.multiply_col(&m.c3),
        }
    }

    fn multiply_col(&self, bc: &Vec4) -> (r: Vec4)
        ensures
            r == mat4_mul_col_spec(*self, *bc),
    {
        Vec4 {
            x: fp_dot4(self.c0.x, bc.x, self.c1.x, bc.y, self.c2.x, bc.z, self.c3.x, bc.w),
            y: fp_dot4(self.c0.y, bc.x, self.c1.y, bc.y, self.c2.y, bc.z, self.c3.y, bc.w),
            z: fp_dot4(self.c0.z, bc.x, self.c1.z, bc.y, self.c2.z, bc.z, self.c3.z, bc.w),
            w: fp_dot4(self.c0.w, bc.x, self.c1.w, bc.y, self.c2.w, bc.z, self.c3.w, bc.w),
        }
    }

    /// Recompute the translation column as
    /// `col3' = col0*v.x + col1*v.y + col2*v.z + col3`, equivalent to
    /// post-multiplying by a translation matrix.
    pub fn translate(&mut self, v: &Vec3)
        ensures
            *final(self) == mat4_translate_spec(*old(self), *v),
    {
        let c3 = Vec4 {
            x: fp_dot3_add(self.c0.x, v.x, self.c1.x, v.y, self.c2.x, v.z, self.c3.x),
            y: fp_dot3_add(self.c0.y, v.x, self.c1.y, v.y, self.c2.y, v.z, self.c3.y),
            z: fp_dot3_add(self.c0.z, v.x, self.c1.z, v.y, self.c2.z, v.z, self.c3.z),
            w: fp_dot3_add(self.c0.w, v.x, self.c1.w, v.y, self.c2.w, v.z, self.c3.w),
        };
        self.c3 = c3;
    }

    /// Scale columns 0 to 2 by `v.x`, `v.y` and `v.z`.
    pub fn scale(&mut self, v: &Vec3)
        ensures
            *final(self) == mat4_scale_spec(*old(self), *v),
    {
        self.c0 = Vec4 {
            x: fp_mul(self.c0.x, v.x),
            y: fp_mul(self.c0.y, v.x),
            z: fp_mul(self.c0.z, v.x),
            w: fp_mul(self.c0.w, v.x),
        };
        self.c1 = Vec4 {
            x: fp_mul(self.c1.x, v.y),
            y: fp_mul(self.c1.y, v.y),
            z: fp_mul(self.c1.z, v.y),
            w: fp_mul(self.c1.w, v.y),
        };
        self.c2 = Vec4 {
            x: fp_mul(self.c2.x, v.z),
            y: fp_mul(self.c2.y, v.z),
            z: fp_mul(self.c2.z, v.z),
            w: fp_mul(self.c2.w, v.z),
        };
    }

    /// Post-multiply by a Rodrigues rotation about axis `(v.x, v.y, v.z)`
    /// by `v.w` fixed-point degrees. A zero angle or a zero axis leaves the
    /// matrix untouched. The axis is not normalized here: a non-unit axis
    /// yields a correspondingly distorted matrix, as accepted input.
    pub fn rotate(&mut self, v: &Vec4)
        ensures
            *final(self) == mat4_rotate_spec(*old(self), *v),
    {
        if v.w == 0 || (v.x == 0 && v.y == 0 && v.z == 0) {
            return ;
        }
        let s = fp_sin_deg(v.w);
        let c = fp_cos_deg(v.w);
        let xx = fp_mul(v.x, v.x);
        let yy = fp_mul(v.y, v.y);
        let zz = fp_mul(v.z, v.z);
        let xy = fp_mul(v.x, v.y);
        let yz = fp_mul(v.y, v.z);
        let zx = fp_mul(v.z, v.x);
        let xs = fp_mul(v.x, s);
        let ys = fp_mul(v.y, s);
        let zs = fp_mul(v.z, s);
        let c1 = fp_sub(FP_ONE, c);
        let mat = Mat4 {
            c0: Vec4 {
                x: fp_add(fp_mul(c1, xx), c),
                y: fp_add(fp_mul(c1, xy), zs),
                z: fp_sub(fp_mul(c1, zx), ys),
                w: 0,
            },
            c1: Vec4 {
                x: fp_sub(fp_mul(c1, xy), zs),
                y: fp_add(fp_mul(c1, yy), c),
                z: fp_add(fp_mul(c1, yz), xs),
                w: 0,
            },
            c2: Vec4 {
                x: fp_add(fp_mul(c1, zx), ys),
                y: fp_sub(fp_mul(c1, yz), xs),
                z: fp_add(fp_mul(c1, zz), c),
                w: 0,
            },
            c3: Vec4 { x: 0, y: 0, z: 0, w: FP_ONE },
        };
        proof {
            assert(mat == mat4_rotation_spec(*v));
        }
        *self = self.multiply(&mat);
    }

    /// Post-multiply by the orthographic projection that maps the given box
    /// onto the `[-1, 1]` cube. A box that is empty in some axis leaves the
    /// matrix untouched.
    pub fn ortho(&mut self, left: i64, right: i64, bottom: i64, top: i64, clip_start: i64, clip_end: i64)
        ensures
            *final(self) == mat4_ortho_spec(
                *old(self),
                left as int,
                right as int,
                bottom as int,
                top as int,
                clip_start as int,
                clip_end as int,
            ),
    {
        let dx = fp_sub(right, left);
        let dy = fp_sub(top, bottom);
        let dz = fp_sub(clip_end, clip_start);
        if dx == 0 || dy == 0 || dz == 0 {
            return ;
        }
        let mat = Mat4 {
            c0: Vec4 { x: fp_div(FP_TWO, dx), y: 0, z: 0, w: 0 },
            c1: Vec4 { x: 0, y: fp_div(FP_TWO, dy), z: 0, w: 0 },
            c2: Vec4 { x: 0, y: 0, z: fp_div(fp_neg(FP_TWO), dz), w: 0 },
            c3: Vec4 {
                x: fp_div(fp_neg(fp_add(right, left)), dx),
                y: fp_div(fp_neg(fp_add(top, bottom)), dy),
                z: fp_div(fp_neg(fp_add(clip_end, clip_start)), dz),
                w: FP_ONE,
            },
        };
        proof {
            assert(mat == mat4_ortho_matrix_spec(
                left as int,
                right as int,
                bottom as int,
                top as int,
                clip_start as int,
                clip_end as int,
            ));
        }
        *self = self.multiply(&mat);
    }

    fn adjugate(&self) -> (adj: Mat4)
        ensures
            adj == mat4_adjugate_spec(*self),
    {
        Mat4 {
            c0: Vec4 {
                x: det3_yzw(&self.c1, &self.c2, &self.c3),
                y: fp_neg(det3_yzw(&self.c0, &self.c2, &self.c3)),
                z: det3_yzw(&self.c0, &self.c1, &self.c3),
                w: fp_neg(det3_yzw(&self.c0, &self.c1, &self.c2)),
            },
            c1: Vec4 {
                x: fp_neg(det3_xzw(&self.c1, &self.c2, &self.c3)),
                y: det3_xzw(&self.c0, &self.c2, &self.c3),
                z: fp_neg(det3_xzw(&self.c0, &self.c1, &self.c3)),
                w: det3_xzw(&self.c0, &self.c1, &self.c2),
            },
            c2: Vec4 {
                x: det3_xyw(&self.c1, &self.c2, &self.c3),
                y: fp_neg(det3_xyw(&self.c0, &self.c2, &self.c3)),
                z: det3_xyw(&self.c0, &self.c1, &self.c3),
                w: fp_neg(det3_xyw(&self.c0, &self.c1, &self.c2)),
            },
            c3: Vec4 {
                x: fp_neg(det3_xyz(&self.c1, &self.c2, &self.c3)),
                y: det3_xyz(&self.c0, &self.c2, &self.c3),
                z: fp_neg(det3_xyz(&self.c0, &self.c1, &self.c3)),
                w: det3_xyz(&self.c0, &self.c1, &self.c2),
            },
        }
    }

    /// Replace the matrix by its full inverse, computed from the adjugate
    /// divided by the determinant. If the determinant is exactly zero the
    /// matrix is left unmodified and the call reports failure — an expected
    /// outcome for degenerate transforms, not a programming error.
    pub fn invert_full(&mut self) -> (r: bool)
        ensures
            r == (mat4_det_spec(*old(self)) != 0),
            r ==> *final(self) == mat4_invert_result_spec(*old(self)),
            !r ==> *final(self) == *old(self),
    {
        let adj = self.adjugate();
        let det = fp_dot4(
            self.c0.x,
            adj.c0.x,
            self.c0.y,
            adj.c1.x,
            self.c0.z,
            adj.c2.x,
            self.c0.w,
            adj.c3.x,
        );
        if det != 0 {
            self.c0 = Vec4 {
                x: fp_div(adj.c0.x, det),
                y: fp_div(adj.c0.y, det),
                z: fp_div(adj.c0.z, det),
                w: fp_div(adj.c0.w, det),
            };
            self.c1 = Vec4 {
                x: fp_div(adj.c1.x, det),
                y: fp_div(adj.c1.y, det),
                z: fp_div(adj.c1.z, det),
                w: fp_div(adj.c1.w, det),
            };
            self.c2 = Vec4 {
                x: fp_div(adj.c2.x, det),
                y: fp_div(adj.c2.y, det),
                z: fp_div(adj.c2.z, det),
                w: fp_div(adj.c2.w, det),
            };
            self.c3 = Vec4 {
                x: fp_div(adj.c3.x, det),
                y: fp_div(adj.c3.y, det),
                z: fp_div(adj.c3.z, det),
                w: fp_div(adj.c3.w, det),
            };
            true
        } else {
            false
        }
    }

    /// Swap the six off-diagonal pairs in place.
    pub fn transpose(&mut self)
        ensures
            *final(self) == mat4_transpose_spec(*old(self)),
    {
        let m = *self;
        self.c0 = Vec4 { x: m.c0.x, y: m.c1.x, z: m.c2.x, w: m.c3.x };
        self.c1 = Vec4 { x: m.c0.y, y: m.c1.y, z: m.c2.y, w: m.c3.y };
        self.c2 = Vec4 { x: m.c0.z, y: m.c1.z, z: m.c2.z, w: m.c3.z };
        self.c3 = Vec4 { x: m.c0.w, y: m.c1.w, z: m.c2.w, w: m.c3.w };
    }

    /// Copy the upper-left 3x3 block into `dst`, dropping translation and
    /// the fourth row and column.
    pub fn copy_to_mat3(&self, dst: &mut Mat3)
        ensures
            *final(dst) == mat4_upper3_spec(*self),
    {
        dst.c0 = Vec3 { x: self.c0.x, y: self.c0.y, z: self.c0.z };
        dst.c1 = Vec3 { x: self.c1.x, y: self.c1.y, z: self.c1.z };
        dst.c2 = Vec3 { x: self.c2.x, y: self.c2.y, z: self.c2.z };
    }
}

/// The translation matrix: the identity with `v` in the translation column.
pub open spec fn mat4_translation_matrix_spec(v: Vec3) -> Mat4 {
    Mat4 {
        c0: Vec4 { x: FP_ONE, y: 0, z: 0, w: 0 },
        c1: Vec4 { x: 0, y: FP_ONE, z: 0, w: 0 },
        c2: Vec4 { x: 0, y: 0, z: FP_ONE, w: 0 },
        c3: Vec4 { x: v.x, y: v.y, z: v.z, w: FP_ONE },
    }
}

/// The scale matrix: `v` on the first three diagonal entries.
pub open spec fn mat4_scale_matrix_spec(v: Vec3) -> Mat4 {
    Mat4 {
        c0: Vec4 { x: v.x, y: 0, z: 0, w: 0 },
        c1: Vec4 { x: 0, y: v.y, z: 0, w: 0 },
        c2: Vec4 { x: 0, y: 0, z: v.z, w: 0 },
        c3: Vec4 { x: 0, y: 0, z: 0, w: FP_ONE },
    }
}

proof fn lemma_fp_identity_ops_all()
    ensures
        forall|a: int|
            i64::MIN as int <= a <= i64::MAX as int ==> #[trigger] fp_mul_spec(a, FP_ONE as int)
                == a && fp_mul_spec(FP_ONE as int, a) == a && fp_mul_spec(a, 0) == 0 && fp_mul_spec(
                0,
                a,
            ) == 0 && fp_add_spec(a, 0) == a && fp_add_spec(0, a) == a,
{
    assert forall|a: int|
        i64::MIN as int <= a <= i64::MAX as int implies #[trigger] fp_mul_spec(a, FP_ONE as int)
        == a && fp_mul_spec(FP_ONE as int, a) == a && fp_mul_spec(a, 0) == 0 && fp_mul_spec(0, a)
        == 0 && fp_add_spec(a, 0) == a && fp_add_spec(0, a) == a by {
        lemma_fp_identity_ops(a);
    }
}

/// Law: `translate` computes exactly the post-multiplication `m * T(v)` by
/// the translation matrix, column by column — recomputing only the
/// translation column is not an approximation.
pub proof fn lemma_translate_is_post_multiply(m: Mat4, v: Vec3)
    ensures
        mat4_translate_spec(m, v) == mat4_multiply_spec(m, mat4_translation_matrix_spec(v)),
{
    lemma_fp_identity_ops_all();
}

/// Law: `scale` computes exactly the post-multiplication `m * S(v)` by the
/// scale matrix.
pub proof fn lemma_scale_is_post_multiply(m: Mat4, v: Vec3)
    ensures
        mat4_scale_spec(m, v) == mat4_multiply_spec(m, mat4_scale_matrix_spec(v)),
{
    lemma_fp_identity_ops_all();
}

/// Law: transposing twice restores the matrix exactly. Transposition is a
/// pure permutation of the entries, with no arithmetic and so no rounding.
pub proof fn lemma_transpose_involutive(m: Mat4)
    ensures
        mat4_transpose_spec(mat4_transpose_spec(m)) == m,
{
}

/// Law: the identity matrix is a two-sided unit of matrix multiplication,
/// exactly. Multiplying by the fixed-point one and adding zero both land
/// back on the starting value, so no entry moves.
pub proof fn lemma_multiply_identity(m: Mat4)
    ensures
        mat4_multiply_spec(m, mat4_identity_spec()) == m,
        mat4_multiply_spec(mat4_identity_spec(), m) == m,
{
    lemma_fp_identity_ops_all();
}

impl Default for Mat4 {
    fn default() -> (r: Self)
        ensures
            r == mat4_blank_spec(),
    {
        Mat4::new()
    }
}

} // verus!
