//! The geometry engine's matrix unit: the current projection, position,
//! direction and texture matrices, their stacks, and the clip matrix that
//! follows the position and projection.
use vstd::prelude::*;
use crate::video::video3d::math::{
    mat_after_3x3, mat_after_4x3, mat_after_scale, mat_after_trans, mat_from_4x3, mat_from_4x4, mat_identity,
    mat_product, Matrix,
};

verus! {

/// Matrix modes.
pub const PROJ_MODE: u32 = 0;
pub const POS_MODE: u32 = 1;
pub const POS_DIR_MODE: u32 = 2;
pub const TEX_MODE: u32 = 3;

/// Depth of the position and direction stacks.
pub const POS_DIR_STACK: usize = 31;

pub struct MatrixUnit {
    pub old_mode: u32,
    pub mode: u32,
    /// Set when the stack over- or underflows.
    pub stack_error: bool,
    pub current_projection: Matrix,
    pub projection_stack: Matrix,
    pub proj_pointer: usize,
    pub current_clip: Matrix,
    pub current_position: Matrix,
    pub current_direction: Matrix,
    pub position_stack: [Matrix; 31],
    pub direction_stack: [Matrix; 31],
    pub pos_dir_pointer: usize,
    pub current_texture: Matrix,
    pub tex_stack: Matrix,
    pub capture: bool,
}

/// The matrices a command changes, by mode: the projection, the position
/// (with the direction too where `dir_too` in position-and-direction
/// mode), or the texture; the clip matrix is recomputed unless the texture
/// matrix changed.
pub open spec fn transformed(
    u: MatrixUnit,
    v: MatrixUnit,
    f: spec_fn(Seq<i32>) -> Seq<i32>,
    dir_too: bool,
) -> bool {
    let m = u.mode;
    &&& v.current_projection@ == (if m == PROJ_MODE { f(u.current_projection@) } else { u.current_projection@ })
    &&& v.current_position@ == (if m == POS_MODE || m == POS_DIR_MODE {
        f(u.current_position@)
    } else {
        u.current_position@
    })
    &&& v.current_direction@ == (if m == POS_DIR_MODE && dir_too {
        f(u.current_direction@)
    } else {
        u.current_direction@
    })
    &&& v.current_texture@ == (if m == TEX_MODE { f(u.current_texture@) } else { u.current_texture@ })
    &&& v.current_clip@ == (if m == TEX_MODE {
        u.current_clip@
    } else {
        mat_product(v.current_position@, v.current_projection@)
    })
    &&& unchanged_stacks(u, v)
}

/// Everything but the current matrices stays.
pub open spec fn unchanged_stacks(u: MatrixUnit, v: MatrixUnit) -> bool {
    &&& v.old_mode == u.old_mode
    &&& v.mode == u.mode
    &&& v.stack_error == u.stack_error
    &&& v.projection_stack == u.projection_stack
    &&& v.proj_pointer == u.proj_pointer
    &&& v.position_stack == u.position_stack
    &&& v.direction_stack == u.direction_stack
    &&& v.pos_dir_pointer == u.pos_dir_pointer
    &&& v.tex_stack == u.tex_stack
    &&& v.capture == u.capture
}

/// A six-bit two's complement count, sign-extended.
pub open spec fn signed_pops(pops: u32) -> int {
    let p = pops % 64;
    if p >= 32 { p - 64 } else { p as int }
}

fn zero_matrix() -> (r: Matrix)
    ensures
        r@ == Seq::new(16, |k: int| 0i32),
{
    let r = Matrix { elements: [0i32; 16] };
    assert(r@ =~= Seq::new(16, |k: int| 0i32));
    r
}

impl MatrixUnit {
    /// The mode is one of the four, the position stack pointer at most its
    /// depth, and the projection stack one deep.
    pub open spec fn wf(&self) -> bool {
        self.mode < 4 && self.pos_dir_pointer <= POS_DIR_STACK && self.proj_pointer <= 1
    }

    /// All matrices zero, the stacks empty, projection mode.
    pub fn new() -> (r: Self)
        ensures
            r.wf(),
            r.mode == PROJ_MODE && r.old_mode == PROJ_MODE,
            !r.stack_error && !r.capture,
            r.proj_pointer == 0 && r.pos_dir_pointer == 0,
            r.current_projection@ == Seq::new(16, |k: int| 0i32),
            r.current_position@ == Seq::new(16, |k: int| 0i32),
            r.current_direction@ == Seq::new(16, |k: int| 0i32),
            r.current_texture@ == Seq::new(16, |k: int| 0i32),
            r.current_clip@ == Seq::new(16, |k: int| 0i32),
    {
        let z = zero_matrix();
        MatrixUnit {
            old_mode: 0,
            mode: 0,
            stack_error: false,
            current_projection: z,
            projection_stack: z,
            proj_pointer: 0,
            current_clip: z,
            current_position: z,
            current_direction: z,
            position_stack: [z; 31],
            direction_stack: [z; 31],
            pos_dir_pointer: 0,
            current_texture: z,
            tex_stack: z,
            capture: false,
        }
    }

    pub fn has_stack_error(&self) -> (r: bool)
        ensures
            r == self.stack_error,
    {
        self.stack_error
    }

    pub fn clear_stack_error(&mut self)
        ensures
            *final(self) == (MatrixUnit { stack_error: false, ..*old(self) }),
    {
        self.stack_error = false;
    }

    pub fn proj_stack_level(&self) -> (r: u32)
        requires
            self.wf(),
        ensures
            r == self.proj_pointer,
    {
        self.proj_pointer as u32
    }

    pub fn pos_dir_stack_level(&self) -> (r: u32)
        requires
            self.wf(),
        ensures
            r == self.pos_dir_pointer,
    {
        self.pos_dir_pointer as u32
    }

    pub fn dir_matrix(&self) -> (r: &Matrix)
        ensures
            *r == self.current_direction,
    {
        &self.current_direction
    }

    pub fn clip_matrix(&self) -> (r: &Matrix)
        ensures
            *r == self.current_clip,
    {
        &self.current_clip
    }

    pub fn tex_matrix(&self) -> (r: &Matrix)
        ensures
            *r == self.current_texture,
    {
        &self.current_texture
    }

    /// Sets the mode (two bits), keeping the one before. Takes 1 cycle.
    pub fn set_matrix_mode(&mut self, mode: u32) -> (r: isize)
        ensures
            *final(self) == (MatrixUnit { old_mode: old(self).mode, mode: mode % 4, ..*old(self) }),
            r == 1,
    {
        self.old_mode = self.mode;
        self.mode = mode % 4;
        1
    }

    fn update_clip(&mut self)
        ensures
            *final(self) == (MatrixUnit { current_clip: final(self).current_clip, ..*old(self) }),
            final(self).current_clip@ == mat_product(old(self).current_position@, old(self).current_projection@),
    {
        self.current_clip = self.current_position.mul(&self.current_projection);
    }

    /// What a push does: in projection mode the projection goes on its
    /// one-deep stack; in position (and direction) mode the position and
    /// direction go on their stacks at the pointer, which moves up; in
    /// texture mode nothing changes.
    pub open spec fn pushed(u: MatrixUnit, v: MatrixUnit) -> bool {
        let pos = u.mode == POS_MODE || u.mode == POS_DIR_MODE;
        &&& u.mode == PROJ_MODE ==> v == (MatrixUnit {
            projection_stack: u.current_projection,
            proj_pointer: 1,
            ..u
        })
        &&& pos ==> v == (MatrixUnit {
            position_stack: v.position_stack,
            direction_stack: v.direction_stack,
            pos_dir_pointer: (u.pos_dir_pointer + 1) as usize,
            ..u
        })
        &&& pos ==> v.position_stack@ == u.position_stack@.update(u.pos_dir_pointer as int, u.current_position)
        &&& pos ==> v.direction_stack@ == u.direction_stack@.update(u.pos_dir_pointer as int, u.current_direction)
        &&& u.mode == TEX_MODE ==> v == u
    }

    /// What a pop by the six-bit signed count `pops` does: the projection
    /// comes back from its stack, or the position and direction come back
    /// from the slot the pointer moves to (wrapping round the depth, and
    /// flagging an error past either end); the clip matrix follows.
    pub open spec fn popped(u: MatrixUnit, v: MatrixUnit, pops: u32) -> bool {
        &&& u.mode == PROJ_MODE ==> v == (MatrixUnit {
            proj_pointer: 0,
            current_projection: u.projection_stack,
            current_clip: v.current_clip,
            ..u
        })
        &&& u.mode == PROJ_MODE ==> v.current_clip@ == mat_product(u.current_position@, u.projection_stack@)
        &&& (u.mode == POS_MODE || u.mode == POS_DIR_MODE) ==> {
            let moved = u.pos_dir_pointer - signed_pops(pops);
            let p = ((moved as usize) % 31) as int;
            &&& v.pos_dir_pointer == p
            &&& v == (MatrixUnit {
                pos_dir_pointer: v.pos_dir_pointer,
                current_position: u.position_stack[p],
                current_direction: u.direction_stack[p],
                current_clip: v.current_clip,
                stack_error: u.stack_error || moved < 0 || moved >= 31,
                ..u
            })
            &&& v.current_clip@ == mat_product(u.position_stack[p]@, u.current_projection@)
        }
        &&& u.mode == TEX_MODE ==> v == u
    }

    /// Pushes the current matrix: the projection onto its one-deep stack,
    /// or the position and direction onto theirs. The texture matrix has
    /// no stack. Takes 17 cycles.
    pub fn push_matrix(&mut self) -> (r: isize)
        requires
            old(self).wf(),
            (old(self).mode == POS_MODE || old(self).mode == POS_DIR_MODE) ==> old(self).pos_dir_pointer < POS_DIR_STACK,
        ensures
            final(self).wf(),
            r == 17,
            Self::pushed(*old(self), *final(self)),
    {
        if self.mode == PROJ_MODE {
            self.projection_stack = self.current_projection;
            self.proj_pointer = 1;
        } else if self.mode == POS_MODE || self.mode == POS_DIR_MODE {
            let p = self.pos_dir_pointer;
            self.position_stack[p] = self.current_position;
            self.direction_stack[p] = self.current_direction;
            self.pos_dir_pointer = p + 1;
        }
        17
    }

    /// Pops: the projection back from its stack, or the position and
    /// direction from their stack moved by the six-bit signed count `pops`
    /// (the pointer wrapping round the stack's depth, and the stack error
    /// set where it moved past either end). The clip matrix follows. Takes
    /// 36 cycles.
    pub fn pop_matrix(&mut self, pops: u32) -> (r: isize)
        requires
            old(self).wf(),
        ensures
            final(self).wf(),
            r == 36,
            Self::popped(*old(self), *final(self), pops),
    {
        if self.mode == PROJ_MODE {
            self.proj_pointer = 0;
            self.current_projection = self.projection_stack;
            self.update_clip();
        } else if self.mode == POS_MODE || self.mode == POS_DIR_MODE {
            let p6 = pops % 64;
            let signed: isize = if p6 >= 32 { p6 as isize - 64 } else { p6 as isize };
            let cur = self.pos_dir_pointer as isize;
            let diff: isize = cur - signed;
            let p = (diff as usize) % 31;
            if diff < 0 || diff >= 31 {
                self.stack_error = true;
            }
            self.pos_dir_pointer = p;
            self.current_position = self.position_stack[p];
            self.current_direction = self.direction_stack[p];
            self.update_clip();
        }
        36
    }

    /// Stores the current matrix: the projection on its stack, or the
    /// position and direction at stack slot `pos`; in texture mode the
    /// direction matrix becomes the texture matrix. Takes 17 cycles.
    pub fn store_matrix(&mut self, pos: u32) -> (r: isize)
        requires
            old(self).wf(),
            (old(self).mode == POS_MODE || old(self).mode == POS_DIR_MODE) ==> pos < 31,
        ensures
            final(self).wf(),
            r == 17,
            old(self).mode == PROJ_MODE ==> *final(self) == (MatrixUnit { projection_stack: old(self).current_projection, ..*old(self) }),
            (old(self).mode == POS_MODE || old(self).mode == POS_DIR_MODE) ==> *final(self) == (MatrixUnit {
                position_stack: final(self).position_stack,
                direction_stack: final(self).direction_stack,
                ..*old(self)
            }),
            (old(self).mode == POS_MODE || old(self).mode == POS_DIR_MODE) ==> final(self).position_stack@ == old(
                self,
            ).position_stack@.update(pos as int, old(self).current_position),
            (old(self).mode == POS_MODE || old(self).mode == POS_DIR_MODE) ==> final(self).direction_stack@ == old(
                self,
            ).direction_stack@.update(pos as int, old(self).current_direction),
            old(self).mode == TEX_MODE ==> *final(self) == (MatrixUnit { current_texture: old(self).current_direction, ..*old(self) }),
    {
        if self.mode == PROJ_MODE {
            self.projection_stack = self.current_projection;
        } else if self.mode == POS_MODE || self.mode == POS_DIR_MODE {
            self.position_stack[pos as usize] = self.current_position;
            self.direction_stack[pos as usize] = self.current_direction;
        } else {
            self.current_texture = self.current_direction;
        }
        17
    }

    /// Restores the current matrix: the projection from its stack, or the
    /// position and direction from stack slot `pos`. The clip matrix
    /// follows. Takes 36 cycles.
    pub fn restore_matrix(&mut self, pos: u32) -> (r: isize)
        requires
            old(self).wf(),
            (old(self).mode == POS_MODE || old(self).mode == POS_DIR_MODE) ==> pos < 31,
        ensures
            final(self).wf(),
            r == 36,
            old(self).mode == PROJ_MODE ==> *final(self) == (MatrixUnit {
                current_projection: old(self).projection_stack,
                current_clip: final(self).current_clip,
                ..*old(self)
            }),
            old(self).mode == PROJ_MODE ==> final(self).current_clip@ == mat_product(
                old(self).current_position@,
                old(self).projection_stack@,
            ),
            (old(self).mode == POS_MODE || old(self).mode == POS_DIR_MODE) ==> *final(self) == (MatrixUnit {
                current_position: old(self).position_stack[pos as int],
                current_direction: old(self).direction_stack[pos as int],
                current_clip: final(self).current_clip,
                ..*old(self)
            }),
            (old(self).mode == POS_MODE || old(self).mode == POS_DIR_MODE) ==> final(self).current_clip@ == mat_product(
                old(self).position_stack[pos as int]@,
                old(self).current_projection@,
            ),
            old(self).mode == TEX_MODE ==> *final(self) == *old(self),
    {
        if self.mode == PROJ_MODE {
            self.current_projection = self.projection_stack;
            self.update_clip();
        } else if self.mode == POS_MODE || self.mode == POS_DIR_MODE {
            self.current_position = self.position_stack[pos as usize];
            self.current_direction = self.direction_stack[pos as usize];
            self.update_clip();
        }
        36
    }

    /// Sets the current matrix (both position and direction in that mode)
    /// to the identity. Takes 19 cycles.
    pub fn set_identity(&mut self) -> (r: isize)
        requires
            old(self).wf(),
        ensures
            final(self).wf(),
            r == 19,
            transformed(*old(self), *final(self), |m: Seq<i32>| mat_identity(), true),
    {
        let id = Matrix::identity();
        self.load(id, true);
        19
    }

    /// Sets the current matrix (or matrices) to `m` by the mode; the clip
    /// matrix follows.
    fn load(&mut self, m: Matrix, dir_too: bool)
        requires
            old(self).wf(),
        ensures
            final(self).wf(),
            transformed(*old(self), *final(self), |x: Seq<i32>| m@, dir_too),
    {
        if self.mode == PROJ_MODE {
            self.current_projection = m;
            self.update_clip();
        } else if self.mode == POS_MODE {
            self.current_position = m;
            self.update_clip();
        } else if self.mode == POS_DIR_MODE {
            self.current_position = m;
            if dir_too {
                self.current_direction = m;
            }
            self.update_clip();
        } else {
            self.current_texture = m;
        }
    }

    /// Sets the current matrix from 16 values. Takes 34 cycles.
    pub fn set_4x4(&mut self, value: &[i32]) -> (r: isize)
        requires
            old(self).wf(),
            value@.len() >= 16,
        ensures
            final(self).wf(),
            r == 34,
            transformed(*old(self), *final(self), |m: Seq<i32>| mat_from_4x4(value@), true),
    {
        let m = Matrix::from_4x4(value);
        self.load(m, true);
        34
    }

    /// Sets the current matrix from 12 values of a 4x3 matrix. Takes 30
    /// cycles.
    pub fn set_4x3(&mut self, value: &[i32]) -> (r: isize)
        requires
            old(self).wf(),
            value@.len() >= 12,
        ensures
            final(self).wf(),
            r == 30,
            transformed(*old(self), *final(self), |m: Seq<i32>| mat_from_4x3(value@), true),
    {
        let m = Matrix::from_4x3(value);
        self.load(m, true);
        30
    }

    /// Multiplies the current matrix (or matrices) by a 4x4 matrix. Takes
    /// 35 cycles, 65 where both position and direction change.
    pub fn mul_4x4(&mut self, value: &[i32]) -> (r: isize)
        requires
            old(self).wf(),
            value@.len() >= 16,
        ensures
            final(self).wf(),
            r == (if old(self).mode == POS_DIR_MODE { 65isize } else { 35isize }),
            transformed(*old(self), *final(self), |m: Seq<i32>| mat_product(value@, m), true),
    {
        if self.mode == PROJ_MODE {
            self.current_projection.mul_4x4(value);
            self.update_clip();
            35
        } else if self.mode == POS_MODE {
            self.current_position.mul_4x4(value);
            self.update_clip();
            35
        } else if self.mode == POS_DIR_MODE {
            self.current_position.mul_4x4(value);
            self.current_direction.mul_4x4(value);
            self.update_clip();
            65
        } else {
            self.current_texture.mul_4x4(value);
            35
        }
    }

    /// Multiplies the current matrix (or matrices) by a 4x3 matrix. Takes
    /// 31 cycles, 61 where both position and direction change.
    pub fn mul_4x3(&mut self, value: &[i32]) -> (r: isize)
        requires
            old(self).wf(),
            value@.len() >= 12,
        ensures
            final(self).wf(),
            r == (if old(self).mode == POS_DIR_MODE { 61isize } else { 31isize }),
            transformed(*old(self), *final(self), |m: Seq<i32>| mat_after_4x3(value@, m), true),
    {
        if self.mode == PROJ_MODE {
            self.current_projection.mul_4x3(value);
            self.update_clip();
            31
        } else if self.mode == POS_MODE {
            self.current_position.mul_4x3(value);
            self.update_clip();
            31
        } else if self.mode == POS_DIR_MODE {
            self.current_position.mul_4x3(value);
            self.current_direction.mul_4x3(value);
            self.update_clip();
            61
        } else {
            self.current_texture.mul_4x3(value);
            31
        }
    }

    /// Multiplies the current matrix (or matrices) by a 3x3 matrix. Takes
    /// 28 cycles, 58 where both position and direction change.
    pub fn mul_3x3(&mut self, value: &[i32]) -> (r: isize)
        requires
            old(self).wf(),
            value@.len() >= 9,
        ensures
            final(self).wf(),
            r == (if old(self).mode == POS_DIR_MODE { 58isize } else { 28isize }),
            transformed(*old(self), *final(self), |m: Seq<i32>| mat_after_3x3(value@, m), true),
    {
        if self.mode == PROJ_MODE {
            self.current_projection.mul_3x3(value);
            self.update_clip();
            28
        } else if self.mode == POS_MODE {
            self.current_position.mul_3x3(value);
            self.update_clip();
            28
        } else if self.mode == POS_DIR_MODE {
            self.current_position.mul_3x3(value);
            self.current_direction.mul_3x3(value);
            self.update_clip();
            58
        } else {
            self.current_texture.mul_3x3(value);
            28
        }
    }

    /// Scales the current matrix; in position-and-direction mode only the
    /// position. Takes 22 cycles.
    pub fn mul_scale(&mut self, value: &[i32]) -> (r: isize)
        requires
            old(self).wf(),
            value@.len() >= 3,
        ensures
            final(self).wf(),
            r == 22,
            transformed(*old(self), *final(self), |m: Seq<i32>| mat_after_scale(value@, m), false),
    {
        if self.mode == PROJ_MODE {
            self.current_projection.mul_scale(value);
            self.update_clip();
        } else if self.mode == POS_MODE || self.mode == POS_DIR_MODE {
            self.current_position.mul_scale(value);
            self.update_clip();
        } else {
            self.current_texture.mul_scale(value);
        }
        22
    }

    /// Translates the current matrix (or matrices). Takes 22 cycles, 52
    /// where both position and direction change.
    pub fn mul_trans(&mut self, value: &[i32]) -> (r: isize)
        requires
            old(self).wf(),
            value@.len() >= 3,
        ensures
            final(self).wf(),
            r == (if old(self).mode == POS_DIR_MODE { 52isize } else { 22isize }),
            transformed(*old(self), *final(self), |m: Seq<i32>| mat_after_trans(value@, m), true),
    {
        if self.mode == PROJ_MODE {
            self.current_projection.mul_trans(value);
            self.update_clip();
            22
        } else if self.mode == POS_MODE {
            self.current_position.mul_trans(value);
            self.update_clip();
            22
        } else if self.mode == POS_DIR_MODE {
            self.current_position.mul_trans(value);
            self.current_direction.mul_trans(value);
            self.update_clip();
            52
        } else {
            self.current_texture.mul_trans(value);
            22
        }
    }
}

/// A pop by one undoes a push: the current matrices come back, the stack
/// pointer returns, no stack error is raised, and the clip matrix is the
/// product of the restored position and projection matrices.
pub proof fn lemma_push_then_pop(u: MatrixUnit, v: MatrixUnit, w: MatrixUnit)
    requires
        u.wf(),
        u.mode != TEX_MODE,
        (u.mode == POS_MODE || u.mode == POS_DIR_MODE) ==> u.pos_dir_pointer < POS_DIR_STACK,
        MatrixUnit::pushed(u, v),
        MatrixUnit::popped(v, w, 1),
    ensures
        w.current_projection == u.current_projection,
        w.current_position == u.current_position,
        w.current_direction == u.current_direction,
        w.pos_dir_pointer == u.pos_dir_pointer,
        w.stack_error == u.stack_error,
        w.current_clip@ == mat_product(u.current_position@, u.current_projection@),
        u.mode == PROJ_MODE ==> w.proj_pointer == 0,
{
    if u.mode != PROJ_MODE {
        let p = u.pos_dir_pointer as int;
        assert(signed_pops(1) == 1);
        assert(((p as usize) % 31) as int == p);
        assert(v.position_stack@[p] == u.current_position);
        assert(v.direction_stack@[p] == u.current_direction);
    }
}

} // verus!
