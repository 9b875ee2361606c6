//! Vectors and matrices over the fixed-point scalars of `fx`.
//!
//! `Vec3` is the working type of the solver; `Mat3` holds a rotation
//! (column-major, like the rigid transforms it is taken from) and `Mat4` a
//! homogeneous rigid transform of which only the upper 3x3 block and the
//! translation column are ever read.  Every executable operation is pinned
//! to the spec function of the same name.

use vstd::prelude::*;

use crate::fx::{
    fx_add, fx_div, fx_mul, fx_neg, fx_sqrt, fx_sub, spec_fx_add, spec_fx_div, spec_fx_mul,
    spec_fx_neg, spec_fx_sqrt, spec_fx_sub,
};

verus! {

broadcast use crate::fx::lemma_fx_clip_bounds;

#[derive(Clone, Copy, PartialEq, Eq, Structural, Debug)]
pub struct Vec3 {
    pub x: i64,
    pub y: i64,
    pub z: i64,
}

#[derive(Clone, Copy, PartialEq, Eq, Structural, Debug)]
pub struct Vec4 {
    pub x: i64,
    pub y: i64,
    pub z: i64,
    pub w: i64,
}

/// A 3x3 matrix as three column vectors.
#[derive(Clone, Copy, PartialEq, Eq, Structural, Debug)]
pub struct Mat3 {
    pub x_axis: Vec3,
    pub y_axis: Vec3,
    pub z_axis: Vec3,
}

/// A 4x4 homogeneous transform as four column vectors.
#[derive(Clone, Copy, PartialEq, Eq, Structural, Debug)]
pub struct Mat4 {
    pub x_axis: Vec4,
    pub y_axis: Vec4,
    pub z_axis: Vec4,
    pub w_axis: Vec4,
}

pub open spec fn spec_vec3_zero() -> Vec3 {
    Vec3 { x: 0, y: 0, z: 0 }
}

pub open spec fn spec_vadd(a: Vec3, b: Vec3) -> Vec3 {
    Vec3 {
        x: spec_fx_add(a.x as int, b.x as int) as i64,
        y: spec_fx_add(a.y as int, b.y as int) as i64,
        z: spec_fx_add(a.z as int, b.z as int) as i64,
    }
}

pub open spec fn spec_vsub(a: Vec3, b: Vec3) -> Vec3 {
    Vec3 {
        x: spec_fx_sub(a.x as int, b.x as int) as i64,
        y: spec_fx_sub(a.y as int, b.y as int) as i64,
        z: spec_fx_sub(a.z as int, b.z as int) as i64,
    }
}

pub open spec fn spec_vneg(a: Vec3) -> Vec3 {
    Vec3 {
        x: spec_fx_neg(a.x as int) as i64,
        y: spec_fx_neg(a.y as int) as i64,
        z: spec_fx_neg(a.z as int) as i64,
    }
}

pub open spec fn spec_vscale(a: Vec3, s: int) -> Vec3 {
    Vec3 {
        x: spec_fx_mul(a.x as int, s) as i64,
        y: spec_fx_mul(a.y as int, s) as i64,
        z: spec_fx_mul(a.z as int, s) as i64,
    }
}

pub open spec fn spec_vdiv(a: Vec3, s: int) -> Vec3 {
    Vec3 {
        x: spec_fx_div(a.x as int, s) as i64,
        y: spec_fx_div(a.y as int, s) as i64,
        z: spec_fx_div(a.z as int, s) as i64,
    }
}

pub open spec fn spec_dot(a: Vec3, b: Vec3) -> int {
    spec_fx_add(
        spec_fx_add(
            spec_fx_mul(a.x as int, b.x as int),
            spec_fx_mul(a.y as int, b.y as int),
        ),
        spec_fx_mul(a.z as int, b.z as int),
    )
}

pub open spec fn spec_vcross(a: Vec3, b: Vec3) -> Vec3 {
    Vec3 {
        x: spec_fx_sub(
            spec_fx_mul(a.y as int, b.z as int),
            spec_fx_mul(a.z as int, b.y as int),
        ) as i64,
        y: spec_fx_sub(
            spec_fx_mul(a.z as int, b.x as int),
            spec_fx_mul(a.x as int, b.z as int),
        ) as i64,
        z: spec_fx_sub(
            spec_fx_mul(a.x as int, b.y as int),
            spec_fx_mul(a.y as int, b.x as int),
        ) as i64,
    }
}

pub open spec fn spec_vlen(a: Vec3) -> int {
    spec_fx_sqrt(spec_dot(a, a))
}

pub fn vec3(x: i64, y: i64, z: i64) -> (v: Vec3)
    ensures
        v == (Vec3 { x, y, z }),
{
    Vec3 { x, y, z }
}

impl Vec3 {
    pub fn zero() -> (v: Vec3)
        ensures
            v == spec_vec3_zero(),
    {
        Vec3 { x: 0, y: 0, z: 0 }
    }

    pub fn add(self, o: Vec3) -> (r: Vec3)
        ensures
            r == spec_vadd(self, o),
    {
        Vec3 { x: fx_add(self.x, o.x), y: fx_add(self.y, o.y), z: fx_add(self.z, o.z) }
    }

    pub fn sub(self, o: Vec3) -> (r: Vec3)
        ensures
            r == spec_vsub(self, o),
    {
        Vec3 { x: fx_sub(self.x, o.x), y: fx_sub(self.y, o.y), z: fx_sub(self.z, o.z) }
    }

    pub fn neg(self) -> (r: Vec3)
        ensures
            r == spec_vneg(self),
    {
        Vec3 { x: fx_neg(self.x), y: fx_neg(self.y), z: fx_neg(self.z) }
    }

    pub fn scale(self, s: i64) -> (r: Vec3)
        ensures
            r == spec_vscale(self, s as int),
    {
        Vec3 { x: fx_mul(self.x, s), y: fx_mul(self.y, s), z: fx_mul(self.z, s) }
    }

    pub fn divide(self, s: i64) -> (r: Vec3)
        ensures
            r == spec_vdiv(self, s as int),
    {
        Vec3 { x: fx_div(self.x, s), y: fx_div(self.y, s), z: fx_div(self.z, s) }
    }

    pub fn dot(self, o: Vec3) -> (r: i64)
        ensures
            r as int == spec_dot(self, o),
    {
        fx_add(fx_add(fx_mul(self.x, o.x), fx_mul(self.y, o.y)), fx_mul(self.z, o.z))
    }

    pub fn cross(self, o: Vec3) -> (r: Vec3)
        ensures
            r == spec_vcross(self, o),
    {
        Vec3 {
            x: fx_sub(fx_mul(self.y, o.z), fx_mul(self.z, o.y)),
            y: fx_sub(fx_mul(self.z, o.x), fx_mul(self.x, o.z)),
            z: fx_sub(fx_mul(self.x, o.y), fx_mul(self.y, o.x)),
        }
    }

    pub fn length(self) -> (r: i64)
        ensures
            r as int == spec_vlen(self),
            0 <= r,
    {
        fx_sqrt(self.dot(self))
    }
}

impl Vec4 {
    pub fn xyz(self) -> (r: Vec3)
        ensures
            r == (Vec3 { x: self.x, y: self.y, z: self.z }),
    {
        Vec3 { x: self.x, y: self.y, z: self.z }
    }
}

pub open spec fn spec_mat3_transpose(m: Mat3) -> Mat3 {
    Mat3 {
        x_axis: Vec3 { x: m.x_axis.x, y: m.y_axis.x, z: m.z_axis.x },
        y_axis: Vec3 { x: m.x_axis.y, y: m.y_axis.y, z: m.z_axis.y },
        z_axis: Vec3 { x: m.x_axis.z, y: m.y_axis.z, z: m.z_axis.z },
    }
}

pub open spec fn spec_mat3_mul_vec(m: Mat3, v: Vec3) -> Vec3 {
    spec_vadd(
        spec_vadd(spec_vscale(m.x_axis, v.x as int), spec_vscale(m.y_axis, v.y as int)),
        spec_vscale(m.z_axis, v.z as int),
    )
}

pub open spec fn spec_mat3_from_mat4(m: Mat4) -> Mat3 {
    Mat3 {
        x_axis: Vec3 { x: m.x_axis.x, y: m.x_axis.y, z: m.x_axis.z },
        y_axis: Vec3 { x: m.y_axis.x, y: m.y_axis.y, z: m.y_axis.z },
        z_axis: Vec3 { x: m.z_axis.x, y: m.z_axis.y, z: m.z_axis.z },
    }
}

impl Mat3 {
    pub fn transpose(self) -> (r: Mat3)
        ensures
            r == spec_mat3_transpose(self),
    {
        Mat3 {
            x_axis: Vec3 { x: self.x_axis.x, y: self.y_axis.x, z: self.z_axis.x },
            y_axis: Vec3 { x: self.x_axis.y, y: self.y_axis.y, z: self.z_axis.y },
            z_axis: Vec3 { x: self.x_axis.z, y: self.y_axis.z, z: self.z_axis.z },
        }
    }

    /// Matrix-times-vector: the linear combination of the columns.
    pub fn mul_vec(self, v: Vec3) -> (r: Vec3)
        ensures
            r == spec_mat3_mul_vec(self, v),
    {
        self.x_axis.scale(v.x).add(self.y_axis.scale(v.y)).add(self.z_axis.scale(v.z))
    }

    /// The upper 3x3 block of a homogeneous transform.
    pub fn from_mat4(m: Mat4) -> (r: Mat3)
        ensures
            r == spec_mat3_from_mat4(m),
    {
        Mat3 { x_axis: m.x_axis.xyz(), y_axis: m.y_axis.xyz(), z_axis: m.z_axis.xyz() }
    }
}

impl Mat4 {
    /// The identity transform, at the fixed-point unit scale.
    pub fn identity() -> (r: Mat4)
        ensures
            r == Mat4::spec_identity(),
    {
        Mat4 {
            x_axis: Vec4 { x: crate::fx::FX_ONE, y: 0, z: 0, w: 0 },
            y_axis: Vec4 { x: 0, y: crate::fx::FX_ONE, z: 0, w: 0 },
            z_axis: Vec4 { x: 0, y: 0, z: crate::fx::FX_ONE, w: 0 },
            w_axis: Vec4 { x: 0, y: 0, z: 0, w: crate::fx::FX_ONE },
        }
    }

    pub open spec fn spec_identity() -> Mat4 {
        Mat4 {
            x_axis: Vec4 { x: crate::fx::FX_ONE, y: 0, z: 0, w: 0 },
            y_axis: Vec4 { x: 0, y: crate::fx::FX_ONE, z: 0, w: 0 },
            z_axis: Vec4 { x: 0, y: 0, z: crate::fx::FX_ONE, w: 0 },
            w_axis: Vec4 { x: 0, y: 0, z: 0, w: crate::fx::FX_ONE },
        }
    }

    /// The identity rotation together with a translation.
    pub fn from_translation(t: Vec3) -> (r: Mat4)
        ensures
            r.x_axis == Mat4::spec_identity().x_axis,
            r.y_axis == Mat4::spec_identity().y_axis,
            r.z_axis == Mat4::spec_identity().z_axis,
            r.w_axis == (Vec4 { x: t.x, y: t.y, z: t.z, w: crate::fx::FX_ONE }),
    {
        Mat4 {
            x_axis: Vec4 { x: crate::fx::FX_ONE, y: 0, z: 0, w: 0 },
            y_axis: Vec4 { x: 0, y: crate::fx::FX_ONE, z: 0, w: 0 },
            z_axis: Vec4 { x: 0, y: 0, z: crate::fx::FX_ONE, w: 0 },
            w_axis: Vec4 { x: t.x, y: t.y, z: t.z, w: crate::fx::FX_ONE },
        }
    }
}

} // verus!
