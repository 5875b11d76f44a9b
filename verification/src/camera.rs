//! Camera and projection utilities built on the matrix algebra and the
//! matrix stack: orthographic and perspective setup, view-matrix
//! construction, and the object-space/window-space conversion pair.

use vstd::prelude::*;
use crate::fixed::FP_ONE;
use crate::fixed::FP_HALF;
use crate::fixed::FP_TWO;
use crate::fixed::fpc;
use crate::fixed::fp_add_spec;
use crate::fixed::fp_sub_spec;
use crate::fixed::fp_neg_spec;
use crate::fixed::fp_mul_spec;
use crate::fixed::fp_div_spec;
use crate::fixed::int_to_fp_spec;
use crate::fixed::fp_add;
use crate::fixed::fp_sub;
use crate::fixed::fp_neg;
use crate::fixed::fp_mul;
use crate::fixed::fp_div;
use crate::fixed::int_to_fp;
use crate::matrix::Mat4;
use crate::matrix::mat4_multiply_spec;
use crate::matrix::mat4_translate_spec;
use crate::matrix::mat4_rotate_spec;
use crate::matrix::mat4_scale_spec;
use crate::matrix::mat4_ortho_spec;
use crate::matrix::mat4_det_spec;
use crate::matrix::mat4_invert_result_spec;
use crate::stack::MatrixStack;
use crate::stack::stack_update_active;
use crate::trig::fp_sin_deg_spec;
use crate::trig::fp_cos_deg_spec;
use crate::trig::fp_sin_deg;
use crate::trig::fp_cos_deg;
use crate::vector::Vec3;
use crate::vector::Vec4;
use crate::vector::vec3_diff_spec;
use crate::vector::vec3_cross_spec;
use crate::vector::vec3_normalize_spec;
use crate::vector::vec4_multiply_mat4_spec;

verus! {

/// What `set_orthographic` leaves in the active matrix: the orthographic
/// box `[-1, 1] x [-screen_ratio, screen_ratio] x [clip_start, clip_end]`,
/// then a uniform shrink by the derived factor `scale * 0.5 * aspect_ratio`
/// (skipped when that factor is zero, where no finite scale exists), then
/// an optional rotation about the Z axis by `screen_orientation` degrees.
pub open spec fn set_orthographic_spec(
    active: Mat4,
    screen_ratio: i64,
    scale: i64,
    aspect_ratio: i64,
    clip_start: i64,
    clip_end: i64,
    screen_orientation: i64,
) -> Mat4 {
    let m1 = mat4_ortho_spec(
        active,
        -65536,
        65536,
        fp_neg_spec(screen_ratio as int),
        screen_ratio as int,
        clip_start as int,
        clip_end as int,
    );
    let s = fp_mul_spec(fp_mul_spec(scale as int, FP_HALF as int), aspect_ratio as int);
    let m2 = if s == 0 {
        m1
    } else {
        mat4_scale_spec(
            m1,
            Vec3 {
                x: fpc(fp_div_spec(FP_ONE as int, s)),
                y: fpc(fp_div_spec(FP_ONE as int, s)),
                z: FP_ONE,
            },
        )
    };
    mat4_rotate_spec(m2, Vec4 { x: 0, y: 0, z: FP_ONE, w: screen_orientation })
}

/// The perspective matrix of `set_perspective` for half-angle sine `s`,
/// cotangent column scale `c`, depth extent `d` and the clip planes.
pub open spec fn perspective_matrix_spec(
    c: int,
    aspect_ratio: i64,
    clip_start: i64,
    clip_end: i64,
    d: int,
) -> Mat4 {
    Mat4 {
        c0: Vec4 { x: fpc(fp_div_spec(c, aspect_ratio as int)), y: 0, z: 0, w: 0 },
        c1: Vec4 { x: 0, y: fpc(c), z: 0, w: 0 },
        c2: Vec4 {
            x: 0,
            y: 0,
            z: fpc(fp_div_spec(fp_neg_spec(fp_add_spec(clip_end as int, clip_start as int)), d)),
            w: fpc(fp_neg_spec(FP_ONE as int)),
        },
        c3: Vec4 {
            x: 0,
            y: 0,
            z: fpc(
                fp_div_spec(
                    fp_mul_spec(
                        fp_neg_spec(FP_TWO as int),
                        fp_mul_spec(clip_start as int, clip_end as int),
                    ),
                    d,
                ),
            ),
            w: 0,
        },
    }
}

/// What `set_perspective` leaves in the active matrix: composition with a
/// symmetric frustum derived from the vertical field of view in fixed-point
/// degrees, then an optional rotation about the Z axis. When the field of
/// view, the depth extent or the aspect ratio is degenerate (a zero sine,
/// zero depth or zero aspect), no finite frustum exists and the call leaves
/// the matrix untouched.
pub open spec fn set_perspective_spec(
    active: Mat4,
    fovy: i64,
    aspect_ratio: i64,
    clip_start: i64,
    clip_end: i64,
    screen_orientation: i64,
) -> Mat4 {
    let d = fp_sub_spec(clip_end as int, clip_start as int);
    let half = fp_mul_spec(fovy as int, FP_HALF as int);
    let s = fp_sin_deg_spec(half);
    if s == 0 || d == 0 || aspect_ratio == 0 {
        active
    } else {
        let c = fp_div_spec(fp_cos_deg_spec(half), s);
        let m1 = mat4_multiply_spec(
            active,
            perspective_matrix_spec(c, aspect_ratio, clip_start, clip_end, d),
        );
        mat4_rotate_spec(m1, Vec4 { x: 0, y: 0, z: FP_ONE, w: screen_orientation })
    }
}

/// The rotation block of a view matrix: columns built from the camera basis
/// `side`, `up`, `-forward`.
pub open spec fn look_at_rotation_spec(s: Vec3, u: Vec3, f: Vec3) -> Mat4 {
    Mat4 {
        c0: Vec4 { x: s.x, y: u.x, z: fpc(fp_neg_spec(f.x as int)), w: 0 },
        c1: Vec4 { x: s.y, y: u.y, z: fpc(fp_neg_spec(f.y as int)), w: 0 },
        c2: Vec4 { x: s.z, y: u.z, z: fpc(fp_neg_spec(f.z as int)), w: 0 },
        c3: Vec4 { x: 0, y: 0, z: 0, w: FP_ONE },
    }
}

/// What `look_at` leaves in the active matrix: composition with the view
/// rotation built from `forward = normalize(center - eye)`,
/// `side = normalize(forward x up)` and `up' = side x forward`, followed by
/// a translation by `-eye`. An `up` parallel to `forward` is a degenerate
/// input that yields a degenerate matrix, not an error.
pub open spec fn look_at_spec(active: Mat4, eye: Vec3, center: Vec3, up: Vec3) -> Mat4 {
    let f = vec3_normalize_spec(vec3_diff_spec(center, eye));
    let s = vec3_normalize_spec(vec3_cross_spec(f, up));
    let u = vec3_cross_spec(s, f);
    let m1 = mat4_multiply_spec(active, look_at_rotation_spec(s, u, f));
    mat4_translate_spec(
        m1,
        Vec3 {
            x: fpc(fp_neg_spec(eye.x as int)),
            y: fpc(fp_neg_spec(eye.y as int)),
            z: fpc(fp_neg_spec(eye.z as int)),
        },
    )
}

/// What `project` returns: the point taken through modelview and projection,
/// divided by `w` (`None` exactly when `w` lands on zero), remapped from
/// `[-1, 1]` to `[0, 1]`, and then to window coordinates through the
/// viewport `[x, y, width, height]`.
pub open spec fn project_spec(
    objx: i64,
    objy: i64,
    objz: i64,
    modelview: Mat4,
    projection: Mat4,
    viewport: Seq<i32>,
) -> Option<Vec3> {
    let vin = Vec4 { x: objx, y: objy, z: objz, w: FP_ONE };
    let veye = vec4_multiply_mat4_spec(vin, modelview);
    let vclip = vec4_multiply_mat4_spec(veye, projection);
    if vclip.w == 0 {
        None
    } else {
        let nx = fp_div_spec(vclip.x as int, vclip.w as int);
        let ny = fp_div_spec(vclip.y as int, vclip.w as int);
        let nz = fp_div_spec(vclip.z as int, vclip.w as int);
        let hx = fp_add_spec(fp_mul_spec(nx, FP_HALF as int), FP_HALF as int);
        let hy = fp_add_spec(fp_mul_spec(ny, FP_HALF as int), FP_HALF as int);
        let hz = fp_add_spec(fp_mul_spec(nz, FP_HALF as int), FP_HALF as int);
        let wx = fp_add_spec(
            fp_mul_spec(hx, int_to_fp_spec(viewport[2] as int)),
            int_to_fp_spec(viewport[0] as int),
        );
        let wy = fp_add_spec(
            fp_mul_spec(hy, int_to_fp_spec(viewport[3] as int)),
            int_to_fp_spec(viewport[1] as int),
        );
        Some(Vec3 { x: fpc(wx), y: fpc(wy), z: fpc(hz) })
    }
}

/// What `unproject` returns: `None` when `projection * modelview` is
/// singular, when the viewport has zero width or height, or when the
/// transformed point's `w` lands on zero; otherwise the window point mapped
/// back through the viewport to `[-1, 1]` clip space, taken through the
/// inverse, and divided by `w`.
pub open spec fn unproject_spec(
    winx: i64,
    winy: i64,
    winz: i64,
    modelview: Mat4,
    projection: Mat4,
    viewport: Seq<i32>,
) -> Option<Vec3> {
    let pm = mat4_multiply_spec(projection, modelview);
    if mat4_det_spec(pm) == 0 {
        None
    } else if viewport[2] == 0 || viewport[3] == 0 {
        None
    } else {
        let inv = mat4_invert_result_spec(pm);
        let nx = fp_div_spec(
            fp_sub_spec(winx as int, int_to_fp_spec(viewport[0] as int)),
            int_to_fp_spec(viewport[2] as int),
        );
        let ny = fp_div_spec(
            fp_sub_spec(winy as int, int_to_fp_spec(viewport[1] as int)),
            int_to_fp_spec(viewport[3] as int),
        );
        let cx = fp_sub_spec(fp_mul_spec(nx, FP_TWO as int), FP_ONE as int);
        let cy = fp_sub_spec(fp_mul_spec(ny, FP_TWO as int), FP_ONE as int);
        let cz = fp_sub_spec(fp_mul_spec(winz as int, FP_TWO as int), FP_ONE as int);
        let vout = vec4_multiply_mat4_spec(
            Vec4 { x: fpc(cx), y: fpc(cy), z: fpc(cz), w: FP_ONE },
            inv,
        );
        if vout.w == 0 {
            None
        } else {
            Some(
                Vec3 {
                    x: fpc(fp_div_spec(vout.x as int, vout.w as int)),
                    y: fpc(fp_div_spec(vout.y as int, vout.w as int)),
                    z: fpc(fp_div_spec(vout.z as int, vout.w as int)),
                },
            )
        }
    }
}

impl MatrixStack {
    /// Post-multiply the active matrix by the orthographic projection of the
    /// given box onto the `[-1, 1]` cube. An empty box leaves the matrix
    /// untouched.
    pub fn ortho(
        &mut self,
        left: i64,
        right: i64,
        bottom: i64,
        top: i64,
        clip_start: i64,
        clip_end: i64,
    )
        requires
            old(self).wf(),
        ensures
            final(self).wf(),
            stack_update_active(
                *old(self),
                *final(self),
                mat4_ortho_spec(
                    old(self).active_matrix_spec(),
                    left as int,
                    right as int,
                    bottom as int,
                    top as int,
                    clip_start as int,
                    clip_end as int,
                ),
            ),
    {
        let mut active = self.get_active_matrix();
        active.ortho(left, right, bottom, top, clip_start, clip_end);
        self.load_matrix(&active);
    }

    /// Orthographic setup for 2D rendering: `ortho` with the near and far
    /// planes fixed at -1 and 1.
    pub fn set_orthographic_2d(&mut self, left: i64, right: i64, bottom: i64, top: i64)
        requires
            old(self).wf(),
        ensures
            final(self).wf(),
            stack_update_active(
                *old(self),
                *final(self),
                mat4_ortho_spec(
                    old(self).active_matrix_spec(),
                    left as int,
                    right as int,
                    bottom as int,
                    top as int,
                    -65536,
                    65536,
                ),
            ),
    {
        self.ortho(left, right, bottom, top, fp_neg(FP_ONE), FP_ONE);
    }

    /// Fit-to-screen orthographic setup: the `[-1, 1] x [-screen_ratio,
    /// screen_ratio]` box, a uniform shrink by `scale * 0.5 * aspect_ratio`
    /// (skipped when that factor is zero), and an optional rotation about
    /// the Z axis by `screen_orientation` fixed-point degrees.
    pub fn set_orthographic(
        &mut self,
        screen_ratio: i64,
        scale: i64,
        aspect_ratio: i64,
        clip_start: i64,
        clip_end: i64,
        screen_orientation: i64,
    )
        requires
            old(self).wf(),
        ensures
            final(self).wf(),
            stack_update_active(
                *old(self),
                *final(self),
                set_orthographic_spec(
                    old(self).active_matrix_spec(),
                    screen_ratio,
                    scale,
                    aspect_ratio,
                    clip_start,
                    clip_end,
                    screen_orientation,
                ),
            ),
    {
        let s = fp_mul(fp_mul(scale, FP_HALF), aspect_ratio);
        let mut active = self.get_active_matrix();
        active.ortho(fp_neg(FP_ONE), FP_ONE, fp_neg(screen_ratio), screen_ratio, clip_start, clip_end);
        if s != 0 {
            let inv = fp_div(FP_ONE, s);
            let factors = Vec3::new(inv, inv, FP_ONE);
            active.scale(&factors);
        }
        let spin = Vec4::new(0, 0, FP_ONE, screen_orientation);
        active.rotate(&spin);
        self.load_matrix(&active);
    }

    /// Perspective setup: post-multiply the active matrix by a symmetric
    /// frustum derived from the vertical field of view `fovy` in fixed-point
    /// degrees, then optionally rotate about the Z axis by
    /// `screen_orientation` degrees. A degenerate field of view, depth
    /// extent or aspect ratio leaves the matrix untouched.
    pub fn set_perspective(
        &mut self,
        fovy: i64,
        aspect_ratio: i64,
        clip_start: i64,
        clip_end: i64,
        screen_orientation: i64,
    )
        requires
            old(self).wf(),
        ensures
            final(self).wf(),
            stack_update_active(
                *old(self),
                *final(self),
                set_perspective_spec(
                    old(self).active_matrix_spec(),
                    fovy,
                    aspect_ratio,
                    clip_start,
                    clip_end,
                    screen_orientation,
                ),
            ),
    {
        let d = fp_sub(clip_end, clip_start);
        let half = fp_mul(fovy, FP_HALF);
        let s = fp_sin_deg(half);
        if s == 0 || d == 0 || aspect_ratio == 0 {
            let active = self.get_active_matrix();
            self.load_matrix(&active);
            return ;
        }
        let c = fp_div(fp_cos_deg(half), s);
        let mat = Mat4 {
            c0: Vec4 { x: fp_div(c, aspect_ratio), y: 0, z: 0, w: 0 },
            c1: Vec4 { x: 0, y: c, z: 0, w: 0 },
            c2: Vec4 {
                x: 0,
                y: 0,
                z: fp_div(fp_neg(fp_add(clip_end, clip_start)), d),
                w: fp_neg(FP_ONE),
            },
            c3: Vec4 {
                x: 0,
                y: 0,
                z: fp_div(fp_mul(fp_neg(FP_TWO), fp_mul(clip_start, clip_end)), d),
                w: 0,
            },
        };
        let mut active = self.get_active_matrix();
        active = active.multiply(&mat);
        let spin = Vec4::new(0, 0, FP_ONE, screen_orientation);
        active.rotate(&spin);
        self.load_matrix(&active);
    }

    /// View-matrix construction: post-multiply the active matrix by the
    /// rotation taking the camera basis to the axes, then translate by
    /// `-eye`. `up` need not be unit length or orthogonal to the view
    /// direction, but must not be parallel to it; a parallel `up` is a
    /// degenerate input that yields a degenerate matrix.
    pub fn look_at(&mut self, eye: &Vec3, center: &Vec3, up: &Vec3)
        requires
            old(self).wf(),
        ensures
            final(self).wf(),
            stack_update_active(
                *old(self),
                *final(self),
                look_at_spec(old(self).active_matrix_spec(), *eye, *center, *up),
            ),
    {
        let mut f = center.diff(eye);
        let _flen = f.normalize();
        let mut s = f.cross(up);
        let _slen = s.normalize();
        let u = s.cross(&f);
        let rot = Mat4 {
            c0: Vec4 { x: s.x, y: u.x, z: fp_neg(f.x), w: 0 },
            c1: Vec4 { x: s.y, y: u.y, z: fp_neg(f.y), w: 0 },
            c2: Vec4 { x: s.z, y: u.z, z: fp_neg(f.z), w: 0 },
            c3: Vec4 { x: 0, y: 0, z: 0, w: FP_ONE },
        };
        let mut active = self.get_active_matrix();
        active = active.multiply(&rot);
        let back = Vec3::new(fp_neg(eye.x), fp_neg(eye.y), fp_neg(eye.z));
        active.translate(&back);
        self.load_matrix(&active);
    }

}

/// Transform an object-space point to window coordinates through the given
/// modelview, projection and viewport. Returns `None` exactly when the
/// transformed point's `w` lands on zero.
pub fn project(
    objx: i64,
    objy: i64,
    objz: i64,
    modelview_matrix: &Mat4,
    projection_matrix: &Mat4,
    viewport_matrix: &[i32],
) -> (r: Option<Vec3>)
    requires
        viewport_matrix@.len() >= 4,
    ensures
        r == project_spec(
            objx,
            objy,
            objz,
            *modelview_matrix,
            *projection_matrix,
            viewport_matrix@,
        ),
{
    let vin = Vec4::new(objx, objy, objz, FP_ONE);
    let veye = vin.multiply_mat4(modelview_matrix);
    let vclip = veye.multiply_mat4(projection_matrix);
    if vclip.w == 0 {
        None
    } else {
        let nx = fp_div(vclip.x, vclip.w);
        let ny = fp_div(vclip.y, vclip.w);
        let nz = fp_div(vclip.z, vclip.w);
        let hx = fp_add(fp_mul(nx, FP_HALF), FP_HALF);
        let hy = fp_add(fp_mul(ny, FP_HALF), FP_HALF);
        let hz = fp_add(fp_mul(nz, FP_HALF), FP_HALF);
        let wx = fp_add(fp_mul(hx, int_to_fp(viewport_matrix[2] as i64)), int_to_fp(viewport_matrix[0] as i64));
        let wy = fp_add(fp_mul(hy, int_to_fp(viewport_matrix[3] as i64)), int_to_fp(viewport_matrix[1] as i64));
        Some(Vec3::new(wx, wy, hz))
    }
}

/// Map a window-space point back to object space: the inverse of `project`.
/// Returns `None` when `projection * modelview` is singular, when the
/// viewport has zero width or height, or when the transformed point's `w`
/// lands on zero.
#[verifier::rlimit(100)]
pub fn unproject(
    winx: i64,
    winy: i64,
    winz: i64,
    modelview_matrix: &Mat4,
    projection_matrix: &Mat4,
    viewport_matrix: &[i32],
) -> (r: Option<Vec3>)
    requires
        viewport_matrix@.len() >= 4,
    ensures
        r == unproject_spec(
            winx,
            winy,
            winz,
            *modelview_matrix,
            *projection_matrix,
            viewport_matrix@,
        ),
{
    let mut fin = projection_matrix.multiply(modelview_matrix);
    let invertible = fin.invert_full();
    if !invertible {
        return None;
    }
    let vx = viewport_matrix[0];
    let vy = viewport_matrix[1];
    let vw = viewport_matrix[2];
    let vh = viewport_matrix[3];
    if vw == 0 || vh == 0 {
        return None;
    }
    let fw = int_to_fp(vw as i64);
    let fh = int_to_fp(vh as i64);
    proof {
        assert(fw as int != 0 && fh as int != 0);
    }
    let nx = fp_div(fp_sub(winx, int_to_fp(vx as i64)), fw);
    let ny = fp_div(fp_sub(winy, int_to_fp(vy as i64)), fh);
    let cx = fp_sub(fp_mul(nx, FP_TWO), FP_ONE);
    let cy = fp_sub(fp_mul(ny, FP_TWO), FP_ONE);
    let cz = fp_sub(fp_mul(winz, FP_TWO), FP_ONE);
    let vin = Vec4::new(cx, cy, cz, FP_ONE);
    let vout = vin.multiply_mat4(&fin);
    if vout.w == 0 {
        None
    } else {
        Some(Vec3::new(fp_div(vout.x, vout.w), fp_div(vout.y, vout.w), fp_div(vout.z, vout.w)))
    }
}

} // verus!
