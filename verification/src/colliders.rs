//! Convex collision shapes and their support functions.
//!
//! A `Collider` pairs a shape tag with a rigid placement: a rotation (and
//! its transpose, cached, since the transpose of a pure rotation is its
//! inverse), a world-space center, and the scalars the tag reads.  Its one
//! geometric operation is the support query: the boundary point farthest
//! along a given world-space direction, the primitive that drives GJK.
//!
//! The tie-break rules in the support functions (which cap of a capsule,
//! which corner of a box, the fallback for a vanishing lateral direction)
//! are deterministic and part of the contract: GJK's behaviour near
//! axis-aligned directions depends on them.

use vstd::prelude::*;

use crate::fx::{fx_add, fx_div, fx_half, fx_mul, fx_neg, fx_sqrt, fx_tdiv, spec_fx_add,
    spec_fx_div, spec_fx_mul, spec_fx_neg, spec_fx_sqrt};
use crate::linalg::{Mat3, Mat4, Vec3, spec_dot, spec_mat3_from_mat4, spec_mat3_mul_vec,
    spec_mat3_transpose, spec_vadd, spec_vscale};

verus! {

broadcast use crate::fx::lemma_fx_clip_bounds;

#[derive(PartialEq, Eq, Structural, Clone, Copy, Debug)]
pub enum ColliderType {
    Sphere,
    Capluse,
    Cylinder,
    Box,
}

pub struct Collider {
    pub typ: ColliderType,
    pub transform: Mat3,
    pub transform_transposed: Mat3,
    pub center: Vec3,
    pub radius: i64,
    pub height: i64,
    pub size: Vec3,
}

/// The fields every constructor derives from the placement transform.
pub open spec fn spec_placed(c: Collider, collider2origin: Mat4) -> bool {
    &&& c.transform == spec_mat3_from_mat4(collider2origin)
    &&& c.transform_transposed == spec_mat3_transpose(spec_mat3_from_mat4(collider2origin))
    &&& c.center == (Vec3 {
        x: collider2origin.w_axis.x,
        y: collider2origin.w_axis.y,
        z: collider2origin.w_axis.z,
    })
}

/// Support point of a sphere: walk from the center a radius along the
/// direction.  A sphere is rotation-invariant, so only the center is used.
/// A zero direction falls back to the center itself.
pub open spec fn spec_support_sphere(c: Collider, dir: Vec3) -> Vec3 {
    let len = crate::linalg::spec_vlen(dir);
    spec_vadd(spec_vscale(dir, spec_fx_div(c.radius as int, len)), c.center)
}

/// Local support vertex of a capsule: the point on the sphere of the same
/// radius, pushed up or down by the half-height along the local z-axis.
pub open spec fn spec_capsule_local(c: Collider, local_dir: Vec3) -> Vec3 {
    let s = spec_fx_sqrt(spec_dot(local_dir, local_dir));
    let v = if s == 0 {
        Vec3 { x: c.radius, y: 0, z: 0 }
    } else {
        spec_vscale(local_dir, spec_fx_div(c.radius as int, s))
    };
    let half = fx_tdiv(c.height as int, 2);
    let shift = if (v.z as int) > 0 {
        half
    } else {
        -half
    };
    Vec3 { x: v.x, y: v.y, z: spec_fx_add(v.z as int, shift) as i64 }
}

/// Local support vertex of a cylinder: the rim point under the lateral
/// direction, on the top or bottom cap by the sign of the local z.
pub open spec fn spec_cylinder_local(c: Collider, local_dir: Vec3) -> Vec3 {
    let s = spec_fx_sqrt(
        spec_fx_add(
            spec_fx_mul(local_dir.x as int, local_dir.x as int),
            spec_fx_mul(local_dir.y as int, local_dir.y as int),
        ),
    );
    let half = fx_tdiv(c.height as int, 2);
    let z = if (local_dir.z as int) < 0 {
        (-half) as i64
    } else {
        half as i64
    };
    if s == 0 {
        Vec3 { x: c.radius, y: 0, z }
    } else {
        let d = spec_fx_div(c.radius as int, s);
        Vec3 {
            x: spec_fx_mul(local_dir.x as int, d) as i64,
            y: spec_fx_mul(local_dir.y as int, d) as i64,
            z,
        }
    }
}

/// Local support vertex of a box: the half-extent corner whose signs match
/// the local direction; a component exactly zero keeps the positive sign.
pub open spec fn spec_box_local(c: Collider, local_dir: Vec3) -> Vec3 {
    let hx = fx_tdiv(c.size.x as int, 2);
    let hy = fx_tdiv(c.size.y as int, 2);
    let hz = fx_tdiv(c.size.z as int, 2);
    Vec3 {
        x: if (local_dir.x as int) < 0 {
            spec_fx_neg(hx) as i64
        } else {
            hx as i64
        },
        y: if (local_dir.y as int) < 0 {
            spec_fx_neg(hy) as i64
        } else {
            hy as i64
        },
        z: if (local_dir.z as int) < 0 {
            spec_fx_neg(hz) as i64
        } else {
            hz as i64
        },
    }
}

/// The support point of a collider along a world-space direction: the
/// local closed form under the rotated direction, mapped back to world
/// space by `rotation * local + center`.
pub open spec fn spec_support(c: Collider, dir: Vec3) -> Vec3 {
    match c.typ {
        ColliderType::Sphere => spec_support_sphere(c, dir),
        ColliderType::Capluse => {
            let local_dir = spec_mat3_mul_vec(c.transform_transposed, dir);
            spec_vadd(c.center, spec_mat3_mul_vec(c.transform, spec_capsule_local(c, local_dir)))
        },
        ColliderType::Cylinder => {
            let local_dir = spec_mat3_mul_vec(c.transform_transposed, dir);
            spec_vadd(c.center, spec_mat3_mul_vec(c.transform, spec_cylinder_local(c, local_dir)))
        },
        ColliderType::Box => {
            let local_dir = spec_mat3_mul_vec(c.transform_transposed, dir);
            spec_vadd(c.center, spec_mat3_mul_vec(c.transform, spec_box_local(c, local_dir)))
        },
    }
}

/// `p` lies within the box's half extents, in the box's local frame.
pub open spec fn spec_in_box_local(c: Collider, p: Vec3) -> bool {
    let hx = fx_tdiv(c.size.x as int, 2);
    let hy = fx_tdiv(c.size.y as int, 2);
    let hz = fx_tdiv(c.size.z as int, 2);
    &&& -hx <= p.x as int <= hx
    &&& -hy <= p.y as int <= hy
    &&& -hz <= p.z as int <= hz
}

/// Supporting-hyperplane law for the box, in the shape's local frame: the
/// local support vertex scores at least as high along the query direction
/// as any point of the box, so the hyperplane through it normal to the
/// direction supports the whole shape.
pub proof fn lemma_box_support_maximal(c: Collider, local_dir: Vec3, p: Vec3)
    requires
        c.typ == ColliderType::Box,
        c.size.x >= 0,
        c.size.y >= 0,
        c.size.z >= 0,
        spec_in_box_local(c, p),
    ensures
        spec_dot(p, local_dir) <= spec_dot(spec_box_local(c, local_dir), local_dir),
{
    let s = spec_box_local(c, local_dir);
    let hx = fx_tdiv(c.size.x as int, 2);
    let hy = fx_tdiv(c.size.y as int, 2);
    let hz = fx_tdiv(c.size.z as int, 2);
    crate::fx::lemma_tdiv_small(c.size.x as int);
    crate::fx::lemma_tdiv_small(c.size.y as int);
    crate::fx::lemma_tdiv_small(c.size.z as int);
    crate::fx::lemma_tdiv_bounds(c.size.x as int, 2);
    crate::fx::lemma_tdiv_bounds(c.size.y as int, 2);
    crate::fx::lemma_tdiv_bounds(c.size.z as int, 2);
    if (local_dir.x as int) < 0 {
        crate::fx::lemma_fx_mul_anti(-hx, p.x as int, local_dir.x as int);
    } else {
        crate::fx::lemma_fx_mul_mono(p.x as int, hx, local_dir.x as int);
    }
    if (local_dir.y as int) < 0 {
        crate::fx::lemma_fx_mul_anti(-hy, p.y as int, local_dir.y as int);
    } else {
        crate::fx::lemma_fx_mul_mono(p.y as int, hy, local_dir.y as int);
    }
    if (local_dir.z as int) < 0 {
        crate::fx::lemma_fx_mul_anti(-hz, p.z as int, local_dir.z as int);
    } else {
        crate::fx::lemma_fx_mul_mono(p.z as int, hz, local_dir.z as int);
    }
}

/// Cap-choice law for the cylinder, in the shape's local frame: the cap
/// the support vertex picks scores at least as high along the local z-axis
/// as either cap, so the sign tie-break (`z == 0` takes the upper cap) is
/// support-optimal.
pub proof fn lemma_cylinder_cap_choice_maximal(c: Collider, local_dir: Vec3)
    requires
        c.typ == ColliderType::Cylinder,
        c.height >= 0,
    ensures
        ({
            let half = fx_tdiv(c.height as int, 2);
            let v = spec_cylinder_local(c, local_dir);
            &&& spec_fx_mul(half, local_dir.z as int) <= spec_fx_mul(
                v.z as int,
                local_dir.z as int,
            )
            &&& spec_fx_mul(-half, local_dir.z as int) <= spec_fx_mul(
                v.z as int,
                local_dir.z as int,
            )
        }),
{
    let half = fx_tdiv(c.height as int, 2);
    crate::fx::lemma_tdiv_small(c.height as int);
    crate::fx::lemma_tdiv_bounds(c.height as int, 2);
    if (local_dir.z as int) < 0 {
        crate::fx::lemma_fx_mul_anti(-half, half, local_dir.z as int);
    } else {
        crate::fx::lemma_fx_mul_mono(-half, half, local_dir.z as int);
    }
}

impl Collider {
    pub fn new_sphere(collider2origin: Mat4, radius: i64) -> (c: Collider)
        ensures
            c.typ == ColliderType::Sphere,
            spec_placed(c, collider2origin),
            c.radius == radius,
            c.height == 0,
            c.size == crate::linalg::spec_vec3_zero(),
    {
        let transform = Mat3::from_mat4(collider2origin);
        Collider {
            typ: ColliderType::Sphere,
            transform,
            transform_transposed: transform.transpose(),
            center: collider2origin.w_axis.xyz(),
            radius,
            height: 0,
            size: Vec3::zero(),
        }
    }

    pub fn new_capluse(collider2origin: Mat4, radius: i64, height: i64) -> (c: Collider)
        ensures
            c.typ == ColliderType::Capluse,
            spec_placed(c, collider2origin),
            c.radius == radius,
            c.height == height,
            c.size == crate::linalg::spec_vec3_zero(),
    {
        let transform = Mat3::from_mat4(collider2origin);
        Collider {
            typ: ColliderType::Capluse,
            transform,
            transform_transposed: transform.transpose(),
            center: collider2origin.w_axis.xyz(),
            radius,
            height,
            size: Vec3::zero(),
        }
    }

    pub fn new_cylinder(collider2origin: Mat4, radius: i64, height: i64) -> (c: Collider)
        ensures
            c.typ == ColliderType::Cylinder,
            spec_placed(c, collider2origin),
            c.radius == radius,
            c.height == height,
            c.size == crate::linalg::spec_vec3_zero(),
    {
        let transform = Mat3::from_mat4(collider2origin);
        Collider {
            typ: ColliderType::Cylinder,
            transform,
            transform_transposed: transform.transpose(),
            center: collider2origin.w_axis.xyz(),
            radius,
            height,
            size: Vec3::zero(),
        }
    }

    pub fn new_box(collider2origin: Mat4, size: Vec3) -> (c: Collider)
        ensures
            c.typ == ColliderType::Box,
            spec_placed(c, collider2origin),
            c.radius == 0,
            c.height == 0,
            c.size == size,
    {
        let transform = Mat3::from_mat4(collider2origin);
        Collider {
            typ: ColliderType::Box,
            transform,
            transform_transposed: transform.transpose(),
            center: collider2origin.w_axis.xyz(),
            radius: 0,
            height: 0,
            size,
        }
    }

    /// The boundary point of the shape farthest along `dir` (the point
    /// maximizing the dot product with `dir`), by the closed form of each
    /// shape type.
    pub fn get_support_point(&self, dir: Vec3) -> (r: Vec3)
        ensures
            r == spec_support(*self, dir),
    {
        match self.typ {
            ColliderType::Sphere => {
                let len = dir.length();
                dir.scale(fx_div(self.radius, len)).add(self.center)
            },
            ColliderType::Capluse => {
                let local_dir = self.transform_transposed.mul_vec(dir);
                let s = fx_sqrt(local_dir.dot(local_dir));
                let v = if s == 0 {
                    crate::linalg::vec3(self.radius, 0, 0)
                } else {
                    local_dir.scale(fx_div(self.radius, s))
                };
                let half = fx_half(self.height);
                let shift = if v.z > 0 {
                    half
                } else {
                    fx_neg(half)
                };
                proof {
                    crate::fx::lemma_tdiv_small(self.height as int);
                }
                let local_vertex = crate::linalg::vec3(v.x, v.y, fx_add(v.z, shift));
                self.center.add(self.transform.mul_vec(local_vertex))
            },
            ColliderType::Cylinder => {
                let local_dir = self.transform_transposed.mul_vec(dir);
                let s = fx_sqrt(fx_add(fx_mul(local_dir.x, local_dir.x), fx_mul(local_dir.y,
                    local_dir.y)));
                let half = fx_half(self.height);
                proof {
                    crate::fx::lemma_tdiv_small(self.height as int);
                }
                let z = if local_dir.z < 0 {
                    fx_neg(half)
                } else {
                    half
                };
                let local_vertex = if s == 0 {
                    crate::linalg::vec3(self.radius, 0, z)
                } else {
                    let d = fx_div(self.radius, s);
                    crate::linalg::vec3(fx_mul(local_dir.x, d), fx_mul(local_dir.y, d), z)
                };
                self.center.add(self.transform.mul_vec(local_vertex))
            },
            ColliderType::Box => {
                let local_dir = self.transform_transposed.mul_vec(dir);
                let hx = fx_half(self.size.x);
                let hy = fx_half(self.size.y);
                let hz = fx_half(self.size.z);
                proof {
                    crate::fx::lemma_tdiv_small(self.size.x as int);
                    crate::fx::lemma_tdiv_small(self.size.y as int);
                    crate::fx::lemma_tdiv_small(self.size.z as int);
                }
                let local_vertex = crate::linalg::vec3(
                    if local_dir.x < 0 {
                        fx_neg(hx)
                    } else {
                        hx
                    },
                    if local_dir.y < 0 {
                        fx_neg(hy)
                    } else {
                        hy
                    },
                    if local_dir.z < 0 {
                        fx_neg(hz)
                    } else {
                        hz
                    },
                );
                self.center.add(self.transform.mul_vec(local_vertex))
            },
        }
    }
}

} // verus!
