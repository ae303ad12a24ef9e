use vstd::prelude::*;

verus! {

/// A three-component vector over the scalar type `S`.
#[derive(Clone, Copy, PartialEq, Eq, Structural, Debug)]
pub struct Vec3<S> {
    pub x: S,
    pub y: S,
    pub z: S,
}

/// A four-component vector over the scalar type `S`.
#[derive(Clone, Copy, PartialEq, Eq, Structural, Debug)]
pub struct Vec4<S> {
    pub x: S,
    pub y: S,
    pub z: S,
    pub w: S,
}

/// A 4x4 transform stored by columns: `x`, `y` and `z` carry rotation and scale,
/// `w` carries the translation in its first three components.
#[derive(Clone, Copy, PartialEq, Eq, Structural, Debug)]
pub struct Mat4<S> {
    pub x: Vec4<S>,
    pub y: Vec4<S>,
    pub z: Vec4<S>,
    pub w: Vec4<S>,
}

/// The identity transform written with the scalars `zero` and `one`.
pub open spec fn identity_of<S>(zero: S, one: S) -> Mat4<S> {
    Mat4 {
        x: Vec4 { x: one, y: zero, z: zero, w: zero },
        y: Vec4 { x: zero, y: one, z: zero, w: zero },
        z: Vec4 { x: zero, y: zero, z: one, w: zero },
        w: Vec4 { x: zero, y: zero, z: zero, w: one },
    }
}

/// `m` with its translation replaced by `t`; everything else of `m` is kept.
pub open spec fn translated<S>(m: Mat4<S>, t: Vec3<S>) -> Mat4<S> {
    Mat4 { w: Vec4 { x: t.x, y: t.y, z: t.z, w: m.w.w }, ..m }
}

impl<S: Copy> Vec3<S> {
    pub fn new(x: S, y: S, z: S) -> (r: Vec3<S>)
        ensures
            r == (Vec3 { x, y, z }),
    {
        Vec3 { x, y, z }
    }
}

impl<S: Copy> Mat4<S> {
    /// The identity transform, from the scalar type's zero and one.
    pub fn identity(zero: S, one: S) -> (r: Mat4<S>)
        ensures
            r == identity_of(zero, one),
    {
        Mat4 {
            x: Vec4 { x: one, y: zero, z: zero, w: zero },
            y: Vec4 { x: zero, y: one, z: zero, w: zero },
            z: Vec4 { x: zero, y: zero, z: one, w: zero },
            w: Vec4 { x: zero, y: zero, z: zero, w: one },
        }
    }

    /// This transform with its translation set to `t`, rotation and scale kept.
    pub fn with_translation(&self, t: Vec3<S>) -> (r: Mat4<S>)
        ensures
            r == translated(*self, t),
    {
        let mut m = *self;
        m.w.x = t.x;
        m.w.y = t.y;
        m.w.z = t.z;
        m
    }

    /// The translation part of this transform.
    pub fn translation(&self) -> (r: Vec3<S>)
        ensures
            r == (Vec3 { x: self.w.x, y: self.w.y, z: self.w.z }),
    {
        Vec3 { x: self.w.x, y: self.w.y, z: self.w.z }
    }
}

} // verus!
