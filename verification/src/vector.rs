// Vectors and matrices as the renderer exchanges them.

use crate::scalar::{is_zero, spec_is_zero, ONE, ZERO};
use vstd::prelude::*;

verus! {

/// Three scalars: a position, a direction, a rotation or a scale.
#[derive(Clone, Copy, Debug, PartialEq, Eq, Structural)]
pub struct Vec3 {
    pub x: u32,
    pub y: u32,
    pub z: u32,
}

impl Vec3 {
    pub fn new(x: u32, y: u32, z: u32) -> (v: Vec3)
        ensures
            v == (Vec3 { x, y, z }),
    {
        Vec3 { x, y, z }
    }

    /// The vector whose three components are `s`.
    pub fn splat(s: u32) -> (v: Vec3)
        ensures
            v == (Vec3 { x: s, y: s, z: s }),
    {
        Vec3 { x: s, y: s, z: s }
    }

    pub fn get_tuple(&self) -> (t: (u32, u32, u32))
        ensures
            t == (self.x, self.y, self.z),
    {
        (self.x, self.y, self.z)
    }

    pub fn get_matrix(&self) -> (m: [u32; 3])
        ensures
            m@ == seq![self.x, self.y, self.z],
    {
        let m = [self.x, self.y, self.z];
        assert(m@ =~= seq![self.x, self.y, self.z]);
        m
    }

    pub fn get(&self) -> (m: [u32; 3])
        ensures
            m@ == seq![self.x, self.y, self.z],
    {
        self.get_matrix()
    }

    pub fn from(vector: [u32; 3]) -> (v: Vec3)
        ensures
            v == (Vec3 { x: vector[0], y: vector[1], z: vector[2] }),
    {
        Vec3 { x: vector[0], y: vector[1], z: vector[2] }
    }

    /// Every component is 0.0 or -0.0: the vector has no direction.
    pub open spec fn spec_is_zero(&self) -> bool {
        spec_is_zero(self.x) && spec_is_zero(self.y) && spec_is_zero(self.z)
    }

    pub fn is_zero(&self) -> (zero: bool)
        ensures
            zero == self.spec_is_zero(),
    {
        is_zero(self.x) && is_zero(self.y) && is_zero(self.z)
    }
}

impl Default for Vec3 {
    fn default() -> (v: Vec3)
        ensures
            v == (Vec3 { x: ZERO, y: ZERO, z: ZERO }),
    {
        Vec3 { x: ZERO, y: ZERO, z: ZERO }
    }
}

/// A 4x4 matrix in column-major order: `columns[i]` is the i-th basis column,
/// four consecutive scalars, which is the layout the graphics backend reads.
#[derive(Clone, Copy, Debug)]
pub struct Mat4 {
    pub columns: [[u32; 4]; 4],
}

impl Mat4 {
    /// Scale by `scale` along the three axes, then translate by `translation`.
    pub open spec fn spec_scale_translation(scale: Vec3, translation: Vec3) -> Mat4 {
        Mat4 {
            columns: [
                [scale.x, ZERO, ZERO, ZERO],
                [ZERO, scale.y, ZERO, ZERO],
                [ZERO, ZERO, scale.z, ZERO],
                [translation.x, translation.y, translation.z, ONE],
            ],
        }
    }

    pub fn scale_translation(scale: Vec3, translation: Vec3) -> (m: Mat4)
        ensures
            m == Mat4::spec_scale_translation(scale, translation),
    {
        Mat4 {
            columns: [
                [scale.x, ZERO, ZERO, ZERO],
                [ZERO, scale.y, ZERO, ZERO],
                [ZERO, ZERO, scale.z, ZERO],
                [translation.x, translation.y, translation.z, ONE],
            ],
        }
    }

    /// The view matrix of a camera basis: `side`, `up` and `forward` are the
    /// rows of the rotation block, and `offset` is the translation.
    pub open spec fn spec_view_from_basis(side: Vec3, up: Vec3, forward: Vec3, offset: Vec3) -> Mat4 {
        Mat4 {
            columns: [
                [side.x, up.x, forward.x, ZERO],
                [side.y, up.y, forward.y, ZERO],
                [side.z, up.z, forward.z, ZERO],
                [offset.x, offset.y, offset.z, ONE],
            ],
        }
    }

    pub fn view_from_basis(side: Vec3, up: Vec3, forward: Vec3, offset: Vec3) -> (m: Mat4)
        ensures
            m == Mat4::spec_view_from_basis(side, up, forward, offset),
    {
        Mat4 {
            columns: [
                [side.x, up.x, forward.x, ZERO],
                [side.y, up.y, forward.y, ZERO],
                [side.z, up.z, forward.z, ZERO],
                [offset.x, offset.y, offset.z, ONE],
            ],
        }
    }

    /// The symmetric perspective projection with the given terms: the scale
    /// of X, which alone depends on the aspect ratio, the scale of Y, and
    /// the two terms that map depth. The W of a projected point is its Z.
    pub open spec fn spec_perspective_from_terms(
        x_scale: u32,
        y_scale: u32,
        depth_scale: u32,
        depth_offset: u32,
    ) -> Mat4 {
        Mat4 {
            columns: [
                [x_scale, ZERO, ZERO, ZERO],
                [ZERO, y_scale, ZERO, ZERO],
                [ZERO, ZERO, depth_scale, ONE],
                [ZERO, ZERO, depth_offset, ZERO],
            ],
        }
    }

    pub fn perspective_from_terms(
        x_scale: u32,
        y_scale: u32,
        depth_scale: u32,
        depth_offset: u32,
    ) -> (m: Mat4)
        ensures
            m == Mat4::spec_perspective_from_terms(x_scale, y_scale, depth_scale, depth_offset),
    {
        Mat4 {
            columns: [
                [x_scale, ZERO, ZERO, ZERO],
                [ZERO, y_scale, ZERO, ZERO],
                [ZERO, ZERO, depth_scale, ONE],
                [ZERO, ZERO, depth_offset, ZERO],
            ],
        }
    }
}

} // verus!
