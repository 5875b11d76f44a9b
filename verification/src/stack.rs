//! The three matrix stacks — modelview, projection and texture — with a
//! current-mode selector. Each stack is a fixed-capacity sequence of
//! matrices plus an index of the active matrix; index 0 is the bottom and
//! is always valid.

use vstd::prelude::*;
use crate::matrix::Mat3;
use crate::matrix::Mat4;
use crate::matrix::mat4_identity_spec;
use crate::matrix::mat4_multiply_spec;
use crate::matrix::mat4_translate_spec;
use crate::matrix::mat4_rotate_spec;
use crate::matrix::mat4_scale_spec;
use crate::matrix::mat4_transpose_spec;
use crate::matrix::mat4_upper3_spec;
use crate::matrix::mat4_det_spec;
use crate::matrix::mat4_invert_result_spec;
use crate::vector::Vec3;
use crate::vector::Vec4;

verus! {

/// Capacity of the modelview stack.
pub const MAX_MODELVIEW_MATRIX: usize = 8;

/// Capacity of the projection stack.
pub const MAX_PROJECTION_MATRIX: usize = 2;

/// Capacity of the texture stack.
pub const MAX_TEXTURE_MATRIX: usize = 2;

/// Which stack the stack operations act on. Exactly one mode is active at
/// a time.
#[derive(Clone, Copy, Debug, PartialEq, Eq, Structural)]
pub enum MatrixMode {
    ModelView,
    Projection,
    Texture,
}

/// The failure of a stack operation. Overflow and underflow point at
/// unbalanced push/pop nesting in the calling render code: fatal for the
/// caller, since a corrupted stack index would corrupt all later rendering.
#[derive(Clone, Copy, Debug, PartialEq, Eq, Structural)]
pub enum StackError {
    Overflow,
    Underflow,
}

/// The three matrix stacks and the mode selector.
#[derive(Debug)]
pub struct MatrixStack {
    pub mode: MatrixMode,
    pub modelview: Vec<Mat4>,
    pub projection: Vec<Mat4>,
    pub texture: Vec<Mat4>,
    pub modelview_index: usize,
    pub projection_index: usize,
    pub texture_index: usize,
}

impl MatrixStack {
    /// Well-formedness: each stack holds exactly its capacity of slots and
    /// its index points into them.
    pub open spec fn wf(&self) -> bool {
        &&& self.modelview@.len() == MAX_MODELVIEW_MATRIX
        &&& self.projection@.len() == MAX_PROJECTION_MATRIX
        &&& self.texture@.len() == MAX_TEXTURE_MATRIX
        &&& self.modelview_index < MAX_MODELVIEW_MATRIX
        &&& self.projection_index < MAX_PROJECTION_MATRIX
        &&& self.texture_index < MAX_TEXTURE_MATRIX
    }

    /// The index of the active matrix of the current mode.
    pub open spec fn active_index_spec(&self) -> int {
        match self.mode {
            MatrixMode::ModelView => self.modelview_index as int,
            MatrixMode::Projection => self.projection_index as int,
            MatrixMode::Texture => self.texture_index as int,
        }
    }

    /// The capacity of the stack of the current mode.
    pub open spec fn active_capacity_spec(&self) -> int {
        match self.mode {
            MatrixMode::ModelView => MAX_MODELVIEW_MATRIX as int,
            MatrixMode::Projection => MAX_PROJECTION_MATRIX as int,
            MatrixMode::Texture => MAX_TEXTURE_MATRIX as int,
        }
    }

    /// The slots of the stack of the current mode.
    pub open spec fn active_seq_spec(&self) -> Seq<Mat4> {
        match self.mode {
            MatrixMode::ModelView => self.modelview@,
            MatrixMode::Projection => self.projection@,
            MatrixMode::Texture => self.texture@,
        }
    }

    /// The active matrix of the current mode.
    pub open spec fn active_matrix_spec(&self) -> Mat4 {
        self.active_seq_spec()[self.active_index_spec()]
    }

    /// The active modelview matrix, whatever the current mode.
    pub open spec fn modelview_matrix_spec(&self) -> Mat4 {
        self.modelview@[self.modelview_index as int]
    }

    /// The active projection matrix, whatever the current mode.
    pub open spec fn projection_matrix_spec(&self) -> Mat4 {
        self.projection@[self.projection_index as int]
    }

    /// The active texture matrix, whatever the current mode.
    pub open spec fn texture_matrix_spec(&self) -> Mat4 {
        self.texture@[self.texture_index as int]
    }

    /// Whether a push fits under the capacity of the current mode's stack.
    pub open spec fn can_push_spec(&self) -> bool {
        self.active_index_spec() + 1 < self.active_capacity_spec()
    }

    /// Whether a pop leaves the always-valid bottom entry in place.
    pub open spec fn can_pop_spec(&self) -> bool {
        self.active_index_spec() > 0
    }
}

/// `post` is `pre` with only the active matrix of the current mode replaced
/// by `m`: same mode, same indices, all other slots unchanged.
pub open spec fn stack_update_active(pre: MatrixStack, post: MatrixStack, m: Mat4) -> bool {
    &&& post.mode == pre.mode
    &&& post.modelview_index == pre.modelview_index
    &&& post.projection_index == pre.projection_index
    &&& post.texture_index == pre.texture_index
    &&& match pre.mode {
        MatrixMode::ModelView => {
            &&& post.modelview@ == pre.modelview@.update(pre.modelview_index as int, m)
            &&& post.projection@ == pre.projection@
            &&& post.texture@ == pre.texture@
        },
        MatrixMode::Projection => {
            &&& post.modelview@ == pre.modelview@
            &&& post.projection@ == pre.projection@.update(pre.projection_index as int, m)
            &&& post.texture@ == pre.texture@
        },
        MatrixMode::Texture => {
            &&& post.modelview@ == pre.modelview@
            &&& post.projection@ == pre.projection@
            &&& post.texture@ == pre.texture@.update(pre.texture_index as int, m)
        },
    }
}

/// `post` is `pre` with the active matrix of the current mode copied into
/// the slot above it and the index moved up onto the copy.
pub open spec fn stack_pushed(pre: MatrixStack, post: MatrixStack) -> bool {
    &&& post.mode == pre.mode
    &&& match pre.mode {
        MatrixMode::ModelView => {
            &&& post.modelview_index == pre.modelview_index + 1
            &&& post.modelview@ == pre.modelview@.update(
                pre.modelview_index + 1,
                pre.modelview@[pre.modelview_index as int],
            )
            &&& post.projection_index == pre.projection_index
            &&& post.texture_index == pre.texture_index
            &&& post.projection@ == pre.projection@
            &&& post.texture@ == pre.texture@
        },
        MatrixMode::Projection => {
            &&& post.projection_index == pre.projection_index + 1
            &&& post.projection@ == pre.projection@.update(
                pre.projection_index + 1,
                pre.projection@[pre.projection_index as int],
            )
            &&& post.modelview_index == pre.modelview_index
            &&& post.texture_index == pre.texture_index
            &&& post.modelview@ == pre.modelview@
            &&& post.texture@ == pre.texture@
        },
        MatrixMode::Texture => {
            &&& post.texture_index == pre.texture_index + 1
            &&& post.texture@ == pre.texture@.update(
                pre.texture_index + 1,
                pre.texture@[pre.texture_index as int],
            )
            &&& post.modelview_index == pre.modelview_index
            &&& post.projection_index == pre.projection_index
            &&& post.modelview@ == pre.modelview@
            &&& post.projection@ == pre.projection@
        },
    }
}

/// `post` is `pre` with the index of the current mode moved down one slot;
/// no matrix changes.
pub open spec fn stack_popped(pre: MatrixStack, post: MatrixStack) -> bool {
    &&& post.mode == pre.mode
    &&& post.modelview@ == pre.modelview@
    &&& post.projection@ == pre.projection@
    &&& post.texture@ == pre.texture@
    &&& match pre.mode {
        MatrixMode::ModelView => {
            &&& post.modelview_index == pre.modelview_index - 1
            &&& post.projection_index == pre.projection_index
            &&& post.texture_index == pre.texture_index
        },
        MatrixMode::Projection => {
            &&& post.projection_index == pre.projection_index - 1
            &&& post.modelview_index == pre.modelview_index
            &&& post.texture_index == pre.texture_index
        },
        MatrixMode::Texture => {
            &&& post.texture_index == pre.texture_index - 1
            &&& post.modelview_index == pre.modelview_index
            &&& post.projection_index == pre.projection_index
        },
    }
}

/// Law: a push followed by a pop restores the stack's observable state.
/// The mode, every index, the active matrix of every mode and the slots at
/// or below each index are exactly as they were before the push; only the
/// scratch slot above the restored index, never read before the next push,
/// holds the copy.
pub proof fn lemma_push_pop_restores(pre: MatrixStack, pushed: MatrixStack, popped: MatrixStack)
    requires
        pre.wf(),
        pre.can_push_spec(),
        stack_pushed(pre, pushed),
        stack_popped(pushed, popped),
    ensures
        popped.mode == pre.mode,
        popped.modelview_index == pre.modelview_index,
        popped.projection_index == pre.projection_index,
        popped.texture_index == pre.texture_index,
        popped.active_matrix_spec() == pre.active_matrix_spec(),
        popped.modelview_matrix_spec() == pre.modelview_matrix_spec(),
        popped.projection_matrix_spec() == pre.projection_matrix_spec(),
        popped.texture_matrix_spec() == pre.texture_matrix_spec(),
        forall|i: int|
            0 <= i <= pre.active_index_spec() ==> popped.active_seq_spec()[i]
                == pre.active_seq_spec()[i],
{
}

/// The normal matrix derived from a modelview matrix: the transpose of its
/// full inverse, restricted to the upper 3x3 block. If the inversion fails
/// the un-inverted matrix is used instead — a known limitation for
/// degenerate modelview transforms.
pub open spec fn normal_matrix_spec(m: Mat4) -> Mat3 {
    let inv = if mat4_det_spec(m) != 0 {
        mat4_invert_result_spec(m)
    } else {
        m
    };
    mat4_upper3_spec(mat4_transpose_spec(inv))
}

impl MatrixStack {
    /// A fresh stack set: every slot of every mode holds the identity, all
    /// indices sit at the bottom, and the modelview stack is selected.
    pub fn new() -> (s: Self)
        ensures
            s.wf(),
            s.mode == MatrixMode::ModelView,
            s.modelview_index == 0,
            s.projection_index == 0,
            s.texture_index == 0,
            forall|i: int|
                0 <= i < MAX_MODELVIEW_MATRIX ==> s.modelview@[i] == mat4_identity_spec(),
            forall|i: int|
                0 <= i < MAX_PROJECTION_MATRIX ==> s.projection@[i] == mat4_identity_spec(),
            forall|i: int| 0 <= i < MAX_TEXTURE_MATRIX ==> s.texture@[i] == mat4_identity_spec(),
    {
        let mut modelview: Vec<Mat4> = Vec::new();
        let mut projection: Vec<Mat4> = Vec::new();
        let mut texture: Vec<Mat4> = Vec::new();
        while modelview.len() < MAX_MODELVIEW_MATRIX
            invariant
                modelview@.len() <= MAX_MODELVIEW_MATRIX,
                forall|i: int| 0 <= i < modelview@.len() ==> modelview@[i] == mat4_identity_spec(),
            decreases MAX_MODELVIEW_MATRIX - modelview@.len(),
        {
            modelview.push(Mat4::new_identity());
        }
        while projection.len() < MAX_PROJECTION_MATRIX
            invariant
                projection@.len() <= MAX_PROJECTION_MATRIX,
                forall|i: int| 0 <= i < projection@.len() ==> projection@[i] == mat4_identity_spec(),
            decreases MAX_PROJECTION_MATRIX - projection@.len(),
        {
            projection.push(Mat4::new_identity());
        }
        while texture.len() < MAX_TEXTURE_MATRIX
            invariant
                texture@.len() <= MAX_TEXTURE_MATRIX,
                forall|i: int| 0 <= i < texture@.len() ==> texture@[i] == mat4_identity_spec(),
            decreases MAX_TEXTURE_MATRIX - texture@.len(),
        {
            texture.push(Mat4::new_identity());
        }
        MatrixStack {
            mode: MatrixMode::ModelView,
            modelview,
            projection,
            texture,
            modelview_index: 0,
            projection_index: 0,
            texture_index: 0,
        }
    }

    /// Select which stack the following operations act on.
    pub fn set_matrix_mode(&mut self, mode: MatrixMode)
        ensures
            final(self).mode == mode,
            final(self).modelview@ == old(self).modelview@,
            final(self).projection@ == old(self).projection@,
            final(self).texture@ == old(self).texture@,
            final(self).modelview_index == old(self).modelview_index,
            final(self).projection_index == old(self).projection_index,
            final(self).texture_index == old(self).texture_index,
    {
        self.mode = mode;
    }

    /// The active modelview matrix.
    pub fn get_modelview_matrix(&self) -> (m: &Mat4)
        requires
            self.wf(),
        ensures
            *m == self.modelview_matrix_spec(),
    {
        &self.modelview[self.modelview_index]
    }

    /// The active projection matrix.
    pub fn get_projection_matrix(&self) -> (m: &Mat4)
        requires
            self.wf(),
        ensures
            *m == self.projection_matrix_spec(),
    {
        &self.projection[self.projection_index]
    }

    /// The active texture matrix.
    pub fn get_texture_matrix(&self) -> (m: &Mat4)
        requires
            self.wf(),
        ensures
            *m == self.texture_matrix_spec(),
    {
        &self.texture[self.texture_index]
    }

    /// A copy of the active matrix of the current mode.
    pub fn get_active_matrix(&self) -> (m: Mat4)
        requires
            self.wf(),
        ensures
            m == self.active_matrix_spec(),
    {
        match self.mode {
            MatrixMode::ModelView => self.modelview[self.modelview_index],
            MatrixMode::Projection => self.projection[self.projection_index],
            MatrixMode::Texture => self.texture[self.texture_index],
        }
    }

    /// Overwrite the active matrix of the current mode.
    fn set_active(&mut self, m: Mat4)
        requires
            old(self).wf(),
        ensures
            final(self).wf(),
            stack_update_active(*old(self), *final(self), m),
    {
        match self.mode {
            MatrixMode::ModelView => {
                self.modelview[self.modelview_index] = m;
            },
            MatrixMode::Projection => {
                self.projection[self.projection_index] = m;
            },
            MatrixMode::Texture => {
                self.texture[self.texture_index] = m;
            },
        }
    }

    /// Overwrite the active matrix with the identity.
    pub fn load_identity(&mut self)
        requires
            old(self).wf(),
        ensures
            final(self).wf(),
            stack_update_active(*old(self), *final(self), mat4_identity_spec()),
    {
        self.set_active(Mat4::new_identity());
    }

    /// Copy the active matrix one slot up and move the index onto the copy.
    /// Fails with `Overflow`, leaving the stack untouched, when the stack of
    /// the current mode is full.
    pub fn push_matrix(&mut self) -> (r: Result<(), StackError>)
        requires
            old(self).wf(),
        ensures
            final(self).wf(),
            old(self).can_push_spec() ==> r == Ok::<(), StackError>(()) && stack_pushed(
                *old(self),
                *final(self),
            ),
            !old(self).can_push_spec() ==> r == Err::<(), StackError>(StackError::Overflow)
                && *final(self) == *old(self),
    {
        match self.mode {
            MatrixMode::ModelView => {
                if self.modelview_index + 1 < MAX_MODELVIEW_MATRIX {
                    let m = self.modelview[self.modelview_index];
                    self.modelview[self.modelview_index + 1] = m;
                    self.modelview_index = self.modelview_index + 1;
                    Ok(())
                } else {
                    Err(StackError::Overflow)
                }
            },
            MatrixMode::Projection => {
                if self.projection_index + 1 < MAX_PROJECTION_MATRIX {
                    let m = self.projection[self.projection_index];
                    self.projection[self.projection_index + 1] = m;
                    self.projection_index = self.projection_index + 1;
                    Ok(())
                } else {
                    Err(StackError::Overflow)
                }
            },
            MatrixMode::Texture => {
                if self.texture_index + 1 < MAX_TEXTURE_MATRIX {
                    let m = self.texture[self.texture_index];
                    self.texture[self.texture_index + 1] = m;
                    self.texture_index = self.texture_index + 1;
                    Ok(())
                } else {
                    Err(StackError::Overflow)
                }
            },
        }
    }

    /// Move the index one slot down; the matrices themselves are untouched.
    /// Fails with `Underflow`, leaving the stack untouched, at the bottom.
    pub fn pop_matrix(&mut self) -> (r: Result<(), StackError>)
        requires
            old(self).wf(),
        ensures
            final(self).wf(),
            old(self).can_pop_spec() ==> r == Ok::<(), StackError>(()) && stack_popped(
                *old(self),
                *final(self),
            ),
            !old(self).can_pop_spec() ==> r == Err::<(), StackError>(StackError::Underflow)
                && *final(self) == *old(self),
    {
        match self.mode {
            MatrixMode::ModelView => {
                if self.modelview_index > 0 {
                    self.modelview_index = self.modelview_index - 1;
                    Ok(())
                } else {
                    Err(StackError::Underflow)
                }
            },
            MatrixMode::Projection => {
                if self.projection_index > 0 {
                    self.projection_index = self.projection_index - 1;
                    Ok(())
                } else {
                    Err(StackError::Underflow)
                }
            },
            MatrixMode::Texture => {
                if self.texture_index > 0 {
                    self.texture_index = self.texture_index - 1;
                    Ok(())
                } else {
                    Err(StackError::Underflow)
                }
            },
        }
    }

    /// Replace the active matrix with a copy of `m`.
    pub fn load_matrix(&mut self, m: &Mat4)
        requires
            old(self).wf(),
        ensures
            final(self).wf(),
            stack_update_active(*old(self), *final(self), *m),
    {
        self.set_active(*m);
    }

    /// Compose the active matrix with `m`: `active := active * m`.
    pub fn multiply_matrix(&mut self, m: &Mat4)
        requires
            old(self).wf(),
        ensures
            final(self).wf(),
            stack_update_active(
                *old(self),
                *final(self),
                mat4_multiply_spec(old(self).active_matrix_spec(), *m),
            ),
    {
        let active = self.get_active_matrix();
        let result = active.multiply(m);
        self.set_active(result);
    }

    /// Post-multiply the active matrix by a translation.
    pub fn translate(&mut self, x: i64, y: i64, z: i64)
        requires
            old(self).wf(),
        ensures
            final(self).wf(),
            stack_update_active(
                *old(self),
                *final(self),
                mat4_translate_spec(old(self).active_matrix_spec(), Vec3 { x, y, z }),
            ),
    {
        let v = Vec3::new(x, y, z);
        let mut active = self.get_active_matrix();
        active.translate(&v);
        self.set_active(active);
    }

    /// Post-multiply the active matrix by a rotation of `angle` fixed-point
    /// degrees about the axis `(x, y, z)`. A zero angle or a zero axis
    /// leaves the matrix untouched.
    pub fn rotate(&mut self, angle: i64, x: i64, y: i64, z: i64)
        requires
            old(self).wf(),
        ensures
            final(self).wf(),
            stack_update_active(
                *old(self),
                *final(self),
                mat4_rotate_spec(old(self).active_matrix_spec(), Vec4 { x, y, z, w: angle }),
            ),
    {
        let v = Vec4::new(x, y, z, angle);
        let mut active = self.get_active_matrix();
        active.rotate(&v);
        self.set_active(active);
    }

    /// Scale the first three columns of the active matrix by `x`, `y`, `z`.
    pub fn scale(&mut self, x: i64, y: i64, z: i64)
        requires
            old(self).wf(),
        ensures
            final(self).wf(),
            stack_update_active(
                *old(self),
                *final(self),
                mat4_scale_spec(old(self).active_matrix_spec(), Vec3 { x, y, z }),
            ),
    {
        let v = Vec3::new(x, y, z);
        let mut active = self.get_active_matrix();
        active.scale(&v);
        self.set_active(active);
    }

    /// The combined modelview-projection matrix,
    /// `projection.active * modelview.active`, recomputed on every call.
    pub fn get_modelview_projection_matrix(&self) -> (m: Mat4)
        requires
            self.wf(),
        ensures
            m == mat4_multiply_spec(self.projection_matrix_spec(), self.modelview_matrix_spec()),
    {
        let proj = self.get_projection_matrix();
        proj.multiply(self.get_modelview_matrix())
    }

    /// The normal matrix: the transpose of the full inverse of the active
    /// modelview matrix, restricted to its upper 3x3 block. If the modelview
    /// matrix is singular its un-inverted copy is used instead.
    pub fn get_normal_matrix(&self) -> (n: Mat3)
        requires
            self.wf(),
        ensures
            n == normal_matrix_spec(self.modelview_matrix_spec()),
    {
        let mut mat = *self.get_modelview_matrix();
        let _inverted = mat.invert_full();
        mat.transpose();
        let mut normal = Mat3::new();
        mat.copy_to_mat3(&mut normal);
        normal
    }
}

} // verus!
