//! 3- and 4-component vectors of fixed-point scalars.

use vstd::prelude::*;
use crate::fixed::fpc;
use crate::fixed::fp_add_spec;
use crate::fixed::fp_sub_spec;
use crate::fixed::fp_mul_spec;
use crate::fixed::fp_div_spec;
use crate::fixed::fp_dot4_spec;
use crate::fixed::fp_sqrt_spec;
use crate::fixed::fp_add;
use crate::fixed::fp_sub;
use crate::fixed::fp_mul;
use crate::fixed::fp_div;
use crate::fixed::fp_dot4;
use crate::fixed::fp_sqrt;
use crate::fixed::lemma_fp_square_nonneg;
use crate::matrix::Mat4;

verus! {

/// A 3-component vector of fixed-point scalars.
#[derive(Clone, Copy, Debug, PartialEq, Eq, Structural)]
pub struct Vec3 {
    pub x: i64,
    pub y: i64,
    pub z: i64,
}

/// A 4-component vector of fixed-point scalars.
#[derive(Clone, Copy, Debug, PartialEq, Eq, Structural)]
pub struct Vec4 {
    pub x: i64,
    pub y: i64,
    pub z: i64,
    pub w: i64,
}

/// The all-zero 3-vector.
pub open spec fn vec3_blank_spec() -> Vec3 {
    Vec3 { x: 0, y: 0, z: 0 }
}

/// The all-zero 4-vector.
pub open spec fn vec4_blank_spec() -> Vec4 {
    Vec4 { x: 0, y: 0, z: 0, w: 0 }
}

/// Componentwise difference.
pub open spec fn vec3_diff_spec(a: Vec3, b: Vec3) -> Vec3 {
    Vec3 {
        x: fpc(fp_sub_spec(a.x as int, b.x as int)),
        y: fpc(fp_sub_spec(a.y as int, b.y as int)),
        z: fpc(fp_sub_spec(a.z as int, b.z as int)),
    }
}

/// Componentwise sum.
pub open spec fn vec3_add_spec(a: Vec3, b: Vec3) -> Vec3 {
    Vec3 {
        x: fpc(fp_add_spec(a.x as int, b.x as int)),
        y: fpc(fp_add_spec(a.y as int, b.y as int)),
        z: fpc(fp_add_spec(a.z as int, b.z as int)),
    }
}

/// The dot product of a vector with itself: its squared length.
pub open spec fn vec3_dot_spec(v: Vec3) -> int {
    fp_add_spec(
        fp_add_spec(
            fp_mul_spec(v.x as int, v.x as int),
            fp_mul_spec(v.y as int, v.y as int),
        ),
        fp_mul_spec(v.z as int, v.z as int),
    )
}

/// The dot product of two vectors.
pub open spec fn vec3_dot_vec3_spec(a: Vec3, b: Vec3) -> int {
    fp_add_spec(
        fp_add_spec(
            fp_mul_spec(a.x as int, b.x as int),
            fp_mul_spec(a.y as int, b.y as int),
        ),
        fp_mul_spec(a.z as int, b.z as int),
    )
}

/// The cross product.
pub open spec fn vec3_cross_spec(a: Vec3, b: Vec3) -> Vec3 {
    Vec3 {
        x: fpc(fp_sub_spec(fp_mul_spec(a.y as int, b.z as int), fp_mul_spec(b.y as int, a.z as int))),
        y: fpc(fp_sub_spec(fp_mul_spec(a.z as int, b.x as int), fp_mul_spec(b.z as int, a.x as int))),
        z: fpc(fp_sub_spec(fp_mul_spec(a.x as int, b.y as int), fp_mul_spec(b.x as int, a.y as int))),
    }
}

/// The length of a vector: the square root of its squared length, rounded
/// down to the fixed-point grid.
pub open spec fn vec3_length_spec(v: Vec3) -> int {
    fp_sqrt_spec(vec3_dot_spec(v))
}

/// A vector scaled to unit length by dividing each component by the length.
/// A vector of length exactly zero is left untouched.
pub open spec fn vec3_normalize_spec(v: Vec3) -> Vec3 {
    let l = vec3_length_spec(v);
    if l == 0 {
        v
    } else {
        Vec3 {
            x: fpc(fp_div_spec(v.x as int, l)),
            y: fpc(fp_div_spec(v.y as int, l)),
            z: fpc(fp_div_spec(v.z as int, l)),
        }
    }
}

pub proof fn lemma_vec3_dot_nonneg(v: Vec3)
    ensures
        vec3_dot_spec(v) >= 0,
{
    lemma_fp_square_nonneg(v.x as int);
    lemma_fp_square_nonneg(v.y as int);
    lemma_fp_square_nonneg(v.z as int);
}

impl Vec3 {
    pub fn new(x: i64, y: i64, z: i64) -> (r: Self)
        ensures
            r == (Vec3 { x, y, z }),
    {
        Vec3 { x, y, z }
    }

    pub fn new_zeroed() -> (r: Self)
        ensures
            r == vec3_blank_spec(),
    {
        Vec3 { x: 0, y: 0, z: 0 }
    }

    pub fn diff(&self, v: &Vec3) -> (r: Vec3)
        ensures
            r == vec3_diff_spec(*self, *v),
    {
        Vec3 {
            x: fp_sub(self.x, v.x),
            y: fp_sub(self.y, v.y),
            z: fp_sub(self.z, v.z),
        }
    }

    pub fn add(&self, v: &Vec3) -> (r: Vec3)
        ensures
            r == vec3_add_spec(*self, *v),
    {
        Vec3 {
            x: fp_add(self.x, v.x),
            y: fp_add(self.y, v.y),
            z: fp_add(self.z, v.z),
        }
    }

    /// Scale the vector to unit length in place and return its previous
    /// length. A vector of length exactly zero is left untouched, so callers
    /// must not assume a unit result.
    pub fn normalize(&mut self) -> (len: i64)
        ensures
            len as int == vec3_length_spec(*old(self)),
            *final(self) == vec3_normalize_spec(*old(self)),
    {
        let len = self.length();
        if len != 0 {
            self.x = fp_div(self.x, len);
            self.y = fp_div(self.y, len);
            self.z = fp_div(self.z, len);
        }
        len
    }

    /// The dot product of the vector with itself: its squared length.
    pub fn dot(&self) -> (r: i64)
        ensures
            r as int == vec3_dot_spec(*self),
    {
        fp_add(
            fp_add(fp_mul(self.x, self.x), fp_mul(self.y, self.y)),
            fp_mul(self.z, self.z),
        )
    }

    pub fn cross(&self, v: &Vec3) -> (r: Vec3)
        ensures
            r == vec3_cross_spec(*self, *v),
    {
        Vec3 {
            x: fp_sub(fp_mul(self.y, v.z), fp_mul(v.y, self.z)),
            y: fp_sub(fp_mul(self.z, v.x), fp_mul(v.z, self.x)),
            z: fp_sub(fp_mul(self.x, v.y), fp_mul(v.x, self.y)),
        }
    }

    pub fn dot_vec3(&self, v: &Vec3) -> (r: i64)
        ensures
            r as int == vec3_dot_vec3_spec(*self, *v),
    {
        fp_add(
            fp_add(fp_mul(self.x, v.x), fp_mul(self.y, v.y)),
            fp_mul(self.z, v.z),
        )
    }

    pub fn length(&self) -> (r: i64)
        ensures
            r as int == vec3_length_spec(*self),
    {
        let d = self.dot();
        proof {
            lemma_vec3_dot_nonneg(*self);
        }
        fp_sqrt(d)
    }
}

impl Default for Vec3 {
    fn default() -> (r: Self)
        ensures
            r == vec3_blank_spec(),
    {
        Vec3::new_zeroed()
    }
}

impl From<Vec4> for Vec3 {
    /// Drop the `w` component, as after a perspective divide.
    fn from(m: Vec4) -> (r: Vec3) {
        Vec3 { x: m.x, y: m.y, z: m.z }
    }
}

impl vstd::std_specs::convert::FromSpecImpl<Vec4> for Vec3 {
    open spec fn obeys_from_spec() -> bool {
        true
    }

    open spec fn from_spec(m: Vec4) -> Vec3 {
        Vec3 { x: m.x, y: m.y, z: m.z }
    }
}

impl Vec4 {
    pub fn new(x: i64, y: i64, z: i64, w: i64) -> (r: Vec4)
        ensures
            r == (Vec4 { x, y, z, w }),
    {
        Vec4 { x, y, z, w }
    }

    pub fn new_zeroed() -> (r: Vec4)
        ensures
            r == vec4_blank_spec(),
    {
        Vec4 { x: 0, y: 0, z: 0, w: 0 }
    }

    /// Transform the vector by a matrix in the column-major convention:
    /// the result is `m * self` with `self` taken as a column vector.
    pub fn multiply_mat4(&self, m: &Mat4) -> (r: Vec4)
        ensures
            r == vec4_multiply_mat4_spec(*self, *m),
    {
        Vec4 {
            x: fp_dot4(self.x, m.c0.x, self.y, m.c1.x, self.z, m.c2.x, self.w, m.c3.x),
            y: fp_dot4(self.x, m.c0.y, self.y, m.c1.y, self.z, m.c2.y, self.w, m.c3.y),
            z: fp_dot4(self.x, m.c0.z, self.y, m.c1.z, self.z, m.c2.z, self.w, m.c3.z),
            w: fp_dot4(self.x, m.c0.w, self.y, m.c1.w, self.z, m.c2.w, self.w, m.c3.w),
        }
    }
}

/// The product `m * v`, with `v` a column vector.
pub open spec fn vec4_multiply_mat4_spec(v: Vec4, m: Mat4) -> Vec4 {
    Vec4 {
        x: fpc(
            fp_dot4_spec(
                v.x as int,
                m.c0.x as int,
                v.y as int,
                m.c1.x as int,
                v.z as int,
                m.c2.x as int,
                v.w as int,
                m.c3.x as int,
            ),
        ),
        y: fpc(
            fp_dot4_spec(
                v.x as int,
                m.c0.y as int,
                v.y as int,
                m.c1.y as int,
                v.z as int,
                m.c2.y as int,
                v.w as int,
                m.c3.y as int,
            ),
        ),
        z: fpc(
            fp_dot4_spec(
                v.x as int,
                m.c0.z as int,
                v.y as int,
                m.c1.z as int,
                v.z as int,
                m.c2.z as int,
                v.w as int,
                m.c3.z as int,
            ),
        ),
        w: fpc(
            fp_dot4_spec(
                v.x as int,
                m.c0.w as int,
                v.y as int,
                m.c1.w as int,
                v.z as int,
                m.c2.w as int,
                v.w as int,
                m.c3.w as int,
            ),
        ),
    }
}

impl Default for Vec4 {
    fn default() -> (r: Self)
        ensures
            r == vec4_blank_spec(),
    {
        Vec4::new_zeroed()
    }
}

} // verus!
