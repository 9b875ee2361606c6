//! The GJK-Nesterov distance solver.
//!
//! One query answers whether two convex colliders overlap and, if not,
//! approximates their separation distance.  The solver walks the Minkowski
//! difference of the two shapes with repeated support queries, keeps a
//! simplex of at most four difference points, and after each new support
//! point reduces the simplex to the minimal feature closest to the origin.
//! The search direction is momentum-accelerated (Nesterov) until the
//! Frank-Wolfe duality gap shows the acceleration has stopped helping, at
//! which point the solver falls back to plain GJK.
//!
//! Every reduction is specified exactly: the contracts below pin the new
//! ray and the permutation of the simplex down to the fixed-point bit, and
//! the tetrahedron classification is a pure decision tree over signed
//! scalars, dispatched through an explicit region type.

use vstd::prelude::*;

use crate::colliders::{spec_support, Collider};
use crate::fx::{
    fx_add, fx_div, fx_from_wide, fx_max, fx_mul, fx_neg, fx_sub, spec_fx_add, spec_fx_div,
    spec_fx_max, spec_fx_mul, spec_fx_neg, spec_fx_sub, FX_ONE,
};
use crate::linalg::{
    spec_dot, spec_vadd, spec_vcross, spec_vdiv, spec_vec3_zero, spec_vlen, spec_vneg,
    spec_vscale, spec_vsub, Vec3,
};

verus! {

broadcast use crate::fx::lemma_fx_clip_bounds;

/// Sentinel separation: a lower bound above this value means no finite
/// separation is expected, and the query stops reporting it.
pub const UPPER_BOUND: i64 = 1000000000 * 1048576;

/// A vertex of the Minkowski difference: `v == s0 - s1` for a support
/// point `s0` of the first shape and `s1` of the second.  `s0` and `s1`
/// ride along through every simplex permutation so that witness points
/// could be extracted later.
#[derive(Clone, Copy, PartialEq, Eq, Structural, Debug)]
pub struct Vertex {
    pub v: Vec3,
    pub s0: Vec3,
    pub s1: Vec3,
}

pub open spec fn spec_vertex(s0: Vec3, s1: Vec3) -> Vertex {
    Vertex { v: spec_vsub(s0, s1), s0, s1 }
}

impl Vertex {
    pub fn new(s0: Vec3, s1: Vec3) -> (r: Vertex)
        ensures
            r == spec_vertex(s0, s1),
    {
        Vertex { v: s0.sub(s1), s0, s1 }
    }
}

impl Default for Vertex {
    fn default() -> (r: Vertex)
        ensures
            r == spec_vertex(spec_vec3_zero(), spec_vec3_zero()),
    {
        Vertex::new(Vec3::zero(), Vec3::zero())
    }
}

/// `v` is a vertex of the Minkowski difference of the two colliders: the
/// support point of the first along some direction's negation, paired with
/// the support point of the second along that direction.
pub open spec fn is_support_pair(c1: Collider, c2: Collider, v: Vertex) -> bool {
    exists|dir: Vec3|
        v == spec_vertex(spec_support(c1, spec_vneg(dir)), spec_support(c2, dir))
}

/// Every live entry of `s`'s simplex is a Minkowski-difference vertex of
/// the two colliders, except entries that were already live in `pre` (for
/// a fresh solver `pre.simplex_len == 0`, so every live entry is one).
pub open spec fn simplex_sourced(s: GJKNesterov, pre: GJKNesterov, c1: Collider, c2: Collider) -> bool {
    forall|j: int|
        0 <= j < s.simplex_len ==> is_support_pair(c1, c2, #[trigger] s.simplex@[j]) || (exists|k: int|
            0 <= k < pre.simplex_len && s.simplex@[j] == pre.simplex@[k])
}

/// Every live entry of `post`'s simplex was a live entry of `pre`'s: a
/// reduction only permutes and drops vertices, it invents none.
pub open spec fn keeps_entries(pre: GJKNesterov, post: GJKNesterov) -> bool {
    forall|j: int|
        0 <= j < post.simplex_len ==> exists|k: int|
            0 <= k < pre.simplex_len && #[trigger] post.simplex@[j] == pre.simplex@[k]
}

/// Per-query solver state: the simplex under construction, the current
/// best ray toward the origin, the (possibly accelerated) search
/// direction, and the two running convergence bounds.
pub struct GJKNesterov {
    pub alpha: i64,
    pub omega: i64,
    pub tolerance: i64,
    pub simplex: [Vertex; 4],
    pub simplex_len: usize,
    pub ray: Vec3,
    pub ray_len: i64,
    pub ray_dir: Vec3,
    pub support_point: Vertex,
}

/// The feature of a tetrahedron `A`-`B`-`C`-`D` (newest vertex first)
/// closest to the origin, or `Inside` when the tetrahedron contains it.
#[derive(Clone, Copy, PartialEq, Eq, Structural, Debug)]
pub enum TetraRegion {
    VertA,
    EdgeAb,
    EdgeAc,
    EdgeAd,
    FaceAbc,
    FaceAcd,
    FaceAdb,
    Inside,
}

/// The signed combination `x1*y1 + x2*y2 - x3*y3` whose sign classifies
/// the origin against an edge or face of the tetrahedron.
pub open spec fn spec_comb3(x1: int, y1: int, x2: int, y2: int, x3: int, y3: int) -> int {
    spec_fx_sub(spec_fx_add(spec_fx_mul(x1, y1), spec_fx_mul(x2, y2)), spec_fx_mul(x3, y3))
}

/// The fixed decision tree of sign tests that classifies the origin
/// against a tetrahedron's vertices, edges and faces.  The boundary
/// conventions (`<= 0` throughout) decide which lower-dimensional feature
/// wins a tie and are part of the contract.
pub open spec fn spec_tetra_region(a: Vec3, b: Vec3, c: Vec3, d: Vec3) -> TetraRegion {
    let aa = spec_dot(a, a);
    let da = spec_dot(d, a);
    let db = spec_dot(d, b);
    let dc = spec_dot(d, c);
    let dd = spec_dot(d, d);
    let da_aa = spec_fx_sub(da, aa);
    let ca = spec_dot(c, a);
    let cb = spec_dot(c, b);
    let cc = spec_dot(c, c);
    let cd = dc;
    let ca_aa = spec_fx_sub(ca, aa);
    let ba = spec_dot(b, a);
    let bb = spec_dot(b, b);
    let bc = cb;
    let bd = db;
    let ba_aa = spec_fx_sub(ba, aa);
    let ba_ca = spec_fx_sub(ba, ca);
    let ca_da = spec_fx_sub(ca, da);
    let da_ba = spec_fx_sub(da, ba);
    let a_cross_b = spec_vcross(a, b);
    let a_cross_c = spec_vcross(a, c);
    let t2 = spec_fx_neg(spec_dot(d, a_cross_b)) <= 0;
    let t3 = spec_comb3(ba, da_ba, bd, ba_aa, bb, da_aa) <= 0;
    let t4 = da_aa <= 0;
    let t5 = spec_comb3(ba, ba_ca, bb, ca_aa, bc, ba_aa) <= 0;
    let t6 = spec_comb3(ca, ba_ca, cb, ca_aa, cc, ba_aa) <= 0;
    let t7 = spec_comb3(ca, ca_da, cc, da_aa, cd, ca_aa) <= 0;
    let t8 = spec_comb3(da, da_ba, dd, ba_aa, db, da_aa) <= 0;
    let t9 = spec_comb3(da, ca_da, dc, da_aa, dd, ca_aa) <= 0;
    let t10 = spec_dot(c, a_cross_b) <= 0;
    let t11 = spec_dot(d, a_cross_c) <= 0;
    let t12 = ca_aa <= 0;
    if ba_aa <= 0 {
        if t2 {
            if t3 {
                if t4 {
                    if t5 {
                        TetraRegion::FaceAbc
                    } else {
                        TetraRegion::EdgeAb
                    }
                } else {
                    if t5 {
                        if t6 {
                            if t7 {
                                TetraRegion::FaceAcd
                            } else {
                                TetraRegion::EdgeAc
                            }
                        } else {
                            TetraRegion::FaceAbc
                        }
                    } else {
                        TetraRegion::EdgeAb
                    }
                }
            } else {
                if t8 {
                    TetraRegion::FaceAdb
                } else {
                    if t7 {
                        if t9 {
                            TetraRegion::EdgeAd
                        } else {
                            TetraRegion::FaceAcd
                        }
                    } else {
                        if t9 {
                            TetraRegion::EdgeAd
                        } else {
                            TetraRegion::EdgeAc
                        }
                    }
                }
            }
        } else {
            if t10 {
                if t5 {
                    if t6 {
                        if t7 {
                            TetraRegion::FaceAcd
                        } else {
                            TetraRegion::EdgeAc
                        }
                    } else {
                        TetraRegion::FaceAbc
                    }
                } else {
                    TetraRegion::EdgeAd
                }
            } else {
                if t11 {
                    if t7 {
                        if t9 {
                            TetraRegion::EdgeAd
                        } else {
                            TetraRegion::FaceAcd
                        }
                    } else {
                        if t12 {
                            TetraRegion::EdgeAc
                        } else {
                            TetraRegion::EdgeAd
                        }
                    }
                } else {
                    TetraRegion::Inside
                }
            }
        }
    } else {
        if t12 {
            if t11 {
                if t4 {
                    if t7 {
                        if t9 {
                            if t8 {
                                TetraRegion::FaceAdb
                            } else {
                                TetraRegion::EdgeAd
                            }
                        } else {
                            TetraRegion::FaceAcd
                        }
                    } else {
                        if t6 {
                            TetraRegion::EdgeAc
                        } else {
                            TetraRegion::FaceAbc
                        }
                    }
                } else {
                    if t6 {
                        if t7 {
                            TetraRegion::FaceAcd
                        } else {
                            TetraRegion::EdgeAc
                        }
                    } else {
                        if t10 {
                            TetraRegion::FaceAbc
                        } else {
                            TetraRegion::FaceAcd
                        }
                    }
                }
            } else {
                if t10 {
                    if t6 {
                        TetraRegion::EdgeAc
                    } else {
                        TetraRegion::FaceAbc
                    }
                } else {
                    if t2 {
                        if t8 {
                            TetraRegion::FaceAdb
                        } else {
                            TetraRegion::EdgeAd
                        }
                    } else {
                        TetraRegion::Inside
                    }
                }
            }
        } else {
            if t4 {
                if t2 {
                    if t9 {
                        if t8 {
                            TetraRegion::FaceAdb
                        } else {
                            TetraRegion::EdgeAd
                        }
                    } else {
                        if t11 {
                            TetraRegion::FaceAcd
                        } else {
                            TetraRegion::FaceAdb
                        }
                    }
                } else {
                    if t11 {
                        if t9 {
                            TetraRegion::EdgeAd
                        } else {
                            TetraRegion::FaceAcd
                        }
                    } else {
                        TetraRegion::Inside
                    }
                }
            } else {
                TetraRegion::VertA
            }
        }
    }
}

/// Everything a simplex reduction leaves untouched.
pub open spec fn reduce_frame(pre: GJKNesterov, post: GJKNesterov) -> bool {
    &&& post.alpha == pre.alpha
    &&& post.omega == pre.omega
    &&& post.tolerance == pre.tolerance
    &&& post.ray_len == pre.ray_len
    &&& post.ray_dir == pre.ray_dir
    &&& post.support_point == pre.support_point
}

/// The simplex shrank to the single vertex at `a_index`, which is also the
/// new ray.
pub open spec fn is_point_reduction(pre: GJKNesterov, post: GJKNesterov, a_index: int) -> bool {
    &&& post.ray == pre.simplex@[a_index].v
    &&& post.simplex@ == pre.simplex@.update(0, pre.simplex@[a_index])
    &&& post.simplex_len == 1
    &&& reduce_frame(pre, post)
}

/// The projection of the origin onto the segment `a`-`b`, written over the
/// dot products the reduction computes.
pub open spec fn spec_segment_ray(a: Vec3, b: Vec3, ab: Vec3, ab_dot_a0: int) -> Vec3 {
    spec_vdiv(
        spec_vadd(spec_vscale(a, spec_dot(ab, b)), spec_vscale(b, ab_dot_a0)),
        spec_dot(ab, ab),
    )
}

/// The simplex shrank to the segment `b_index`,`a_index` (oldest first)
/// and the new ray is the origin's projection onto it.
pub open spec fn is_segment_reduction(
    pre: GJKNesterov,
    post: GJKNesterov,
    a_index: int,
    b_index: int,
    ab: Vec3,
    ab_dot_a0: int,
) -> bool {
    &&& post.ray == spec_segment_ray(pre.simplex@[a_index].v, pre.simplex@[b_index].v, ab, ab_dot_a0)
    &&& post.simplex@ == pre.simplex@.update(0, pre.simplex@[b_index]).update(
        1,
        pre.simplex@[a_index],
    )
    &&& post.simplex_len == 2
    &&& reduce_frame(pre, post)
}

/// The simplex became the triangle at the three indices (winding chosen by
/// the sign of `abc_dot_a0` so the next reduction sees a consistent
/// orientation) and the ray the origin's projection onto its plane.  A
/// face with `abc_dot_a0 == 0` keeps the order and a zero ray: the origin
/// lies on the face's plane.
pub open spec fn is_triangle_reduction(
    pre: GJKNesterov,
    post: GJKNesterov,
    a_index: int,
    b_index: int,
    c_index: int,
    abc: Vec3,
    abc_dot_a0: int,
) -> bool {
    let sa = pre.simplex@[a_index];
    let sb = pre.simplex@[b_index];
    let sc = pre.simplex@[c_index];
    &&& post.simplex_len == 3
    &&& reduce_frame(pre, post)
    &&& if abc_dot_a0 == 0 {
        &&& post.simplex@ == pre.simplex@.update(0, sc).update(1, sb).update(2, sa)
        &&& post.ray == spec_vec3_zero()
    } else {
        &&& if abc_dot_a0 > 0 {
            post.simplex@ == pre.simplex@.update(0, sc).update(1, sb).update(2, sa)
        } else {
            post.simplex@ == pre.simplex@.update(0, sb).update(1, sc).update(2, sa)
        }
        &&& post.ray == spec_vscale(abc, spec_fx_div(spec_fx_neg(abc_dot_a0), spec_dot(abc, abc)))
    }
}

/// The signed combination `x1*y1 + x2*y2 - x3*y3` of the tetrahedron
/// classification.
fn comb3(x1: i64, y1: i64, x2: i64, y2: i64, x3: i64, y3: i64) -> (r: i64)
    ensures
        r as int == spec_comb3(x1 as int, y1 as int, x2 as int, y2 as int, x3 as int, y3 as int),
{
    fx_sub(fx_add(fx_mul(x1, y1), fx_mul(x2, y2)), fx_mul(x3, y3))
}

/// Classify the origin against the tetrahedron `a`-`b`-`c`-`d` by the
/// fixed decision tree of sign tests.
fn tetra_region(a: Vec3, b: Vec3, c: Vec3, d: Vec3) -> (r: TetraRegion)
    ensures
        r == spec_tetra_region(a, b, c, d),
{
    let aa = a.dot(a);
    let da = d.dot(a);
    let db = d.dot(b);
    let dc = d.dot(c);
    let dd = d.dot(d);
    let da_aa = fx_sub(da, aa);
    let ca = c.dot(a);
    let cb = c.dot(b);
    let cc = c.dot(c);
    let cd = dc;
    let ca_aa = fx_sub(ca, aa);
    let ba = b.dot(a);
    let bb = b.dot(b);
    let bc = cb;
    let bd = db;
    let ba_aa = fx_sub(ba, aa);
    let ba_ca = fx_sub(ba, ca);
    let ca_da = fx_sub(ca, da);
    let da_ba = fx_sub(da, ba);
    let a_cross_b = a.cross(b);
    let a_cross_c = a.cross(c);
    let t2 = fx_neg(d.dot(a_cross_b)) <= 0;
    let t3 = comb3(ba, da_ba, bd, ba_aa, bb, da_aa) <= 0;
    let t4 = da_aa <= 0;
    let t5 = comb3(ba, ba_ca, bb, ca_aa, bc, ba_aa) <= 0;
    let t6 = comb3(ca, ba_ca, cb, ca_aa, cc, ba_aa) <= 0;
    let t7 = comb3(ca, ca_da, cc, da_aa, cd, ca_aa) <= 0;
    let t8 = comb3(da, da_ba, dd, ba_aa, db, da_aa) <= 0;
    let t9 = comb3(da, ca_da, dc, da_aa, dd, ca_aa) <= 0;
    let t10 = c.dot(a_cross_b) <= 0;
    let t11 = d.dot(a_cross_c) <= 0;
    let t12 = ca_aa <= 0;
    if ba_aa <= 0 {
        if t2 {
            if t3 {
                if t4 {
                    if t5 {
                        TetraRegion::FaceAbc
                    } else {
                        TetraRegion::EdgeAb
                    }
                } else {
                    if t5 {
                        if t6 {
                            if t7 {
                                TetraRegion::FaceAcd
                            } else {
                                TetraRegion::EdgeAc
                            }
                        } else {
                            TetraRegion::FaceAbc
                        }
                    } else {
                        TetraRegion::EdgeAb
                    }
                }
            } else {
                if t8 {
                    TetraRegion::FaceAdb
                } else {
                    if t7 {
                        if t9 {
                            TetraRegion::EdgeAd
                        } else {
                            TetraRegion::FaceAcd
                        }
                    } else {
                        if t9 {
                            TetraRegion::EdgeAd
                        } else {
                            TetraRegion::EdgeAc
                        }
                    }
                }
            }
        } else {
            if t10 {
                if t5 {
                    if t6 {
                        if t7 {
                            TetraRegion::FaceAcd
                        } else {
                            TetraRegion::EdgeAc
                        }
                    } else {
                        TetraRegion::FaceAbc
                    }
                } else {
                    TetraRegion::EdgeAd
                }
            } else {
                if t11 {
                    if t7 {
                        if t9 {
                            TetraRegion::EdgeAd
                        } else {
                            TetraRegion::FaceAcd
                        }
                    } else {
                        if t12 {
                            TetraRegion::EdgeAc
                        } else {
                            TetraRegion::EdgeAd
                        }
                    }
                } else {
                    TetraRegion::Inside
                }
            }
        }
    } else {
        if t12 {
            if t11 {
                if t4 {
                    if t7 {
                        if t9 {
                            if t8 {
                                TetraRegion::FaceAdb
                            } else {
                                TetraRegion::EdgeAd
                            }
                        } else {
                            TetraRegion::FaceAcd
                        }
                    } else {
                        if t6 {
                            TetraRegion::EdgeAc
                        } else {
                            TetraRegion::FaceAbc
                        }
                    }
                } else {
                    if t6 {
                        if t7 {
                            TetraRegion::FaceAcd
                        } else {
                            TetraRegion::EdgeAc
                        }
                    } else {
                        if t10 {
                            TetraRegion::FaceAbc
                        } else {
                            TetraRegion::FaceAcd
                        }
                    }
                }
            } else {
                if t10 {
                    if t6 {
                        TetraRegion::EdgeAc
                    } else {
                        TetraRegion::FaceAbc
                    }
                } else {
                    if t2 {
                        if t8 {
                            TetraRegion::FaceAdb
                        } else {
                            TetraRegion::EdgeAd
                        }
                    } else {
                        TetraRegion::Inside
                    }
                }
            }
        } else {
            if t4 {
                if t2 {
                    if t9 {
                        if t8 {
                            TetraRegion::FaceAdb
                        } else {
                            TetraRegion::EdgeAd
                        }
                    } else {
                        if t11 {
                            TetraRegion::FaceAcd
                        } else {
                            TetraRegion::FaceAdb
                        }
                    }
                } else {
                    if t11 {
                        if t9 {
                            TetraRegion::EdgeAd
                        } else {
                            TetraRegion::FaceAcd
                        }
                    } else {
                        TetraRegion::Inside
                    }
                }
            } else {
                TetraRegion::VertA
            }
        }
    }
}

impl GJKNesterov {
    /// Validity of a solver between queries: a meaningful tolerance, a
    /// nonnegative ray length, and room to push one more support point.
    pub open spec fn wf(self) -> bool {
        &&& 0 < self.tolerance <= UPPER_BOUND
        &&& self.simplex_len <= 3
        &&& self.ray_len >= 0
    }

    /// Shrink the simplex to the single vertex at `a_index`.
    fn origen_to_point(&mut self, a_index: usize, a: Vec3)
        requires
            a_index < 4,
            a == old(self).simplex@[a_index as int].v,
        ensures
            is_point_reduction(*old(self), *final(self), a_index as int),
    {
        self.ray = a;
        self.simplex[0] = self.simplex[a_index];
        self.simplex_len = 1;
    }

    /// Shrink the simplex to the segment `a`-`b` and project the origin
    /// onto it.
    fn origen_to_segment(
        &mut self,
        a_index: usize,
        b_index: usize,
        a: Vec3,
        b: Vec3,
        ab: Vec3,
        ab_dot_a0: i64,
    )
        requires
            a_index < 4,
            b_index < 4,
            a == old(self).simplex@[a_index as int].v,
            b == old(self).simplex@[b_index as int].v,
        ensures
            is_segment_reduction(
                *old(self),
                *final(self),
                a_index as int,
                b_index as int,
                ab,
                ab_dot_a0 as int,
            ),
    {
        self.ray = a.scale(ab.dot(b)).add(b.scale(ab_dot_a0)).divide(ab.dot(ab));
        let sb = self.simplex[b_index];
        let sa = self.simplex[a_index];
        self.simplex[0] = sb;
        self.simplex[1] = sa;
        self.simplex_len = 2;
    }

    /// Shrink the simplex to a triangle, reordered so its winding stays
    /// consistent, and project the origin onto its plane.  Returns whether
    /// the origin lies exactly on that plane (a degenerate face).
    fn origen_to_triangle(
        &mut self,
        a_index: usize,
        b_index: usize,
        c_index: usize,
        abc: Vec3,
        abc_dot_a0: i64,
    ) -> (r: bool)
        requires
            a_index < 4,
            b_index < 4,
            c_index < 4,
        ensures
            is_triangle_reduction(
                *old(self),
                *final(self),
                a_index as int,
                b_index as int,
                c_index as int,
                abc,
                abc_dot_a0 as int,
            ),
            r == (abc_dot_a0 == 0),
    {
        if abc_dot_a0 == 0 {
            let sc = self.simplex[c_index];
            let sb = self.simplex[b_index];
            let sa = self.simplex[a_index];
            self.simplex[0] = sc;
            self.simplex[1] = sb;
            self.simplex[2] = sa;
            self.simplex_len = 3;
            self.ray = Vec3::zero();
            return true;
        }
        let sa = self.simplex[a_index];
        let sb = self.simplex[b_index];
        let sc = self.simplex[c_index];
        if abc_dot_a0 > 0 {
            self.simplex[0] = sc;
            self.simplex[1] = sb;
        } else {
            self.simplex[0] = sb;
            self.simplex[1] = sc;
        }
        self.simplex[2] = sa;
        self.simplex_len = 3;
        self.ray = abc.scale(fx_div(fx_neg(abc_dot_a0), abc.dot(abc)));
        false
    }

    /// Reduce a two-vertex simplex: keep the newest vertex alone when the
    /// origin lies behind it, else the projected segment.  Returns whether
    /// the newest vertex is exactly the origin.
    fn project_line_origen(&mut self) -> (r: bool)
        requires
            old(self).simplex_len == 2,
        ensures
            keeps_entries(*old(self), *final(self)),
            ({
                let a = old(self).simplex@[1].v;
                let b = old(self).simplex@[0].v;
                let ab = spec_vsub(b, a);
                let d = spec_dot(ab, spec_vneg(a));
                &&& d == 0 ==> is_point_reduction(*old(self), *final(self), 1) && r == (a
                    == spec_vec3_zero())
                &&& d < 0 ==> is_point_reduction(*old(self), *final(self), 1) && !r
                &&& d > 0 ==> is_segment_reduction(*old(self), *final(self), 1, 0, ab, d) && !r
            }),
    {
        let a = self.simplex[1].v;
        let b = self.simplex[0].v;
        let ab = b.sub(a);
        let d = ab.dot(a.neg());
        if d == 0 {
            // Either the support step made no progress or the newest
            // vertex is the origin itself; in both cases it is closest.
            self.origen_to_point(1, a);
            return a == Vec3::zero();
        }
        if d < 0 {
            self.origen_to_point(1, a);
        } else {
            self.origen_to_segment(1, 0, a, b, ab, d);
        }
        false
    }

    /// Reduce a three-vertex simplex: classify the origin against the
    /// triangle's edge half-spaces in a fixed priority (edge `AC`, vertex
    /// `A`, edge `AB`, else the face) and keep the matching feature.
    /// Returns whether the origin lies exactly on the face's plane.
    fn project_triangle_origen(&mut self) -> (r: bool)
        requires
            old(self).simplex_len == 3,
        ensures
            keeps_entries(*old(self), *final(self)),
            ({
                let a = old(self).simplex@[2].v;
                let b = old(self).simplex@[1].v;
                let c = old(self).simplex@[0].v;
                let ab = spec_vsub(b, a);
                let ac = spec_vsub(c, a);
                let abc = spec_vcross(ab, ac);
                let edge_ac2o = spec_dot(spec_vcross(abc, ac), spec_vneg(a));
                let towards_c = spec_dot(ac, spec_vneg(a));
                let towards_b = spec_dot(ab, spec_vneg(a));
                let edge_ab2o = spec_dot(spec_vcross(ab, abc), spec_vneg(a));
                let face_d = spec_dot(abc, spec_vneg(a));
                &&& edge_ac2o >= 0 && towards_c >= 0 ==> is_segment_reduction(
                    *old(self),
                    *final(self),
                    2,
                    0,
                    ac,
                    towards_c,
                ) && !r
                &&& edge_ac2o >= 0 && towards_c < 0 && towards_b < 0 ==> is_point_reduction(
                    *old(self),
                    *final(self),
                    2,
                ) && !r
                &&& edge_ac2o >= 0 && towards_c < 0 && towards_b >= 0 ==> is_segment_reduction(
                    *old(self),
                    *final(self),
                    2,
                    1,
                    ab,
                    towards_b,
                ) && !r
                &&& edge_ac2o < 0 && edge_ab2o >= 0 && towards_b < 0 ==> is_point_reduction(
                    *old(self),
                    *final(self),
                    2,
                ) && !r
                &&& edge_ac2o < 0 && edge_ab2o >= 0 && towards_b >= 0 ==> is_segment_reduction(
                    *old(self),
                    *final(self),
                    2,
                    1,
                    ab,
                    towards_b,
                ) && !r
                &&& edge_ac2o < 0 && edge_ab2o < 0 ==> is_triangle_reduction(
                    *old(self),
                    *final(self),
                    2,
                    1,
                    0,
                    abc,
                    face_d,
                ) && r == (face_d == 0)
            }),
    {
        let a = self.simplex[2].v;
        let b = self.simplex[1].v;
        let c = self.simplex[0].v;
        let ab = b.sub(a);
        let ac = c.sub(a);
        let abc = ab.cross(ac);
        let edge_ac2o = abc.cross(ac).dot(a.neg());
        if edge_ac2o >= 0 {
            let towards_c = ac.dot(a.neg());
            if towards_c >= 0 {
                self.origen_to_segment(2, 0, a, c, ac, towards_c);
            } else {
                let towards_b = ab.dot(a.neg());
                if towards_b < 0 {
                    self.origen_to_point(2, a);
                } else {
                    self.origen_to_segment(2, 1, a, b, ab, towards_b);
                }
            }
        } else {
            let edge_ab2o = ab.cross(abc).dot(a.neg());
            if edge_ab2o >= 0 {
                let towards_b = ab.dot(a.neg());
                if towards_b < 0 {
                    self.origen_to_point(2, a);
                } else {
                    self.origen_to_segment(2, 1, a, b, ab, towards_b);
                }
            } else {
                return self.origen_to_triangle(2, 1, 0, abc, abc.dot(a.neg()));
            }
        }
        false
    }

    /// Reduce a four-vertex simplex: classify the origin by the decision
    /// tree and keep the closest vertex, edge or face, or report that the
    /// tetrahedron contains the origin (the shapes intersect).
    fn project_tetra_to_origen(&mut self) -> (r: bool)
        requires
            old(self).simplex_len == 4,
        ensures
            keeps_entries(*old(self), *final(self)),
            ({
                let a = old(self).simplex@[3].v;
                let b = old(self).simplex@[2].v;
                let c = old(self).simplex@[1].v;
                let d = old(self).simplex@[0].v;
                let aa = spec_dot(a, a);
                let region = spec_tetra_region(a, b, c, d);
                &&& region == TetraRegion::VertA ==> is_point_reduction(
                    *old(self),
                    *final(self),
                    3,
                ) && !r
                &&& region == TetraRegion::EdgeAb ==> is_segment_reduction(
                    *old(self),
                    *final(self),
                    3,
                    2,
                    spec_vsub(b, a),
                    spec_fx_neg(spec_fx_sub(spec_dot(b, a), aa)),
                ) && !r
                &&& region == TetraRegion::EdgeAc ==> is_segment_reduction(
                    *old(self),
                    *final(self),
                    3,
                    1,
                    spec_vsub(c, a),
                    spec_fx_neg(spec_fx_sub(spec_dot(c, a), aa)),
                ) && !r
                &&& region == TetraRegion::EdgeAd ==> is_segment_reduction(
                    *old(self),
                    *final(self),
                    3,
                    0,
                    spec_vsub(d, a),
                    spec_fx_neg(spec_fx_sub(spec_dot(d, a), aa)),
                ) && !r
                &&& region == TetraRegion::FaceAbc ==> is_triangle_reduction(
                    *old(self),
                    *final(self),
                    3,
                    2,
                    1,
                    spec_vcross(spec_vsub(b, a), spec_vsub(c, a)),
                    spec_fx_neg(spec_dot(c, spec_vcross(a, b))),
                ) && !r
                &&& region == TetraRegion::FaceAcd ==> is_triangle_reduction(
                    *old(self),
                    *final(self),
                    3,
                    1,
                    0,
                    spec_vcross(spec_vsub(c, a), spec_vsub(d, a)),
                    spec_fx_neg(spec_dot(d, spec_vcross(a, c))),
                ) && !r
                &&& region == TetraRegion::FaceAdb ==> is_triangle_reduction(
                    *old(self),
                    *final(self),
                    3,
                    0,
                    2,
                    spec_vcross(spec_vsub(d, a), spec_vsub(b, a)),
                    spec_dot(d, spec_vcross(a, b)),
                ) && !r
                &&& region == TetraRegion::Inside ==> final(self).ray == spec_vec3_zero()
                    && final(self).simplex@ == old(self).simplex@ && final(self).simplex_len
                    == old(self).simplex_len && reduce_frame(*old(self), *final(self)) && r
            }),
            !r ==> final(self).simplex_len <= 3,
    {
        let a = self.simplex[3].v;
        let b = self.simplex[2].v;
        let c = self.simplex[1].v;
        let d = self.simplex[0].v;
        let aa = a.dot(a);
        let da_aa = fx_sub(d.dot(a), aa);
        let ca_aa = fx_sub(c.dot(a), aa);
        let ba_aa = fx_sub(b.dot(a), aa);
        let a_cross_b = a.cross(b);
        let a_cross_c = a.cross(c);
        match tetra_region(a, b, c, d) {
            TetraRegion::VertA => {
                self.origen_to_point(3, a);
                false
            },
            TetraRegion::EdgeAb => {
                self.origen_to_segment(3, 2, a, b, b.sub(a), fx_neg(ba_aa));
                false
            },
            TetraRegion::EdgeAc => {
                self.origen_to_segment(3, 1, a, c, c.sub(a), fx_neg(ca_aa));
                false
            },
            TetraRegion::EdgeAd => {
                self.origen_to_segment(3, 0, a, d, d.sub(a), fx_neg(da_aa));
                false
            },
            TetraRegion::FaceAbc => {
                self.origen_to_triangle(3, 2, 1, b.sub(a).cross(c.sub(a)), fx_neg(c.dot(
                    a_cross_b,
                )));
                false
            },
            TetraRegion::FaceAcd => {
                self.origen_to_triangle(3, 1, 0, c.sub(a).cross(d.sub(a)), fx_neg(d.dot(
                    a_cross_c,
                )));
                false
            },
            TetraRegion::FaceAdb => {
                self.origen_to_triangle(3, 0, 2, d.sub(a).cross(b.sub(a)), d.dot(a_cross_b));
                false
            },
            TetraRegion::Inside => {
                self.ray = Vec3::zero();
                true
            },
        }
    }

    /// A fresh solver for one query.  The caller's direction guess seeds
    /// the ray; a near-zero guess (shorter than the tolerance) falls back
    /// to the x-axis unit.
    pub fn new(ray_guess: Option<Vec3>, tolerance: i64) -> (s: GJKNesterov)
        requires
            0 < tolerance <= UPPER_BOUND,
        ensures
            s.wf(),
            s.tolerance == tolerance,
            s.alpha == 0,
            s.omega == 0,
            s.simplex_len == 0,
            ({
                let g = if ray_guess is Some {
                    ray_guess->0
                } else {
                    Vec3 { x: FX_ONE, y: 0, z: 0 }
                };
                if spec_vlen(g) < tolerance {
                    s.ray == (Vec3 { x: FX_ONE, y: 0, z: 0 }) && s.ray_len == FX_ONE
                } else {
                    s.ray == g && s.ray_len == spec_vlen(g)
                }
            }),
            s.ray_dir == s.ray,
            s.support_point == (Vertex { v: s.ray, s0: s.ray, s1: s.ray }),
    {
        let default_vertex = Vertex::default();
        let simplex = [default_vertex, default_vertex, default_vertex, default_vertex];
        let mut ray = match ray_guess {
            Some(g) => g,
            None => crate::linalg::vec3(FX_ONE, 0, 0),
        };
        let mut ray_len = ray.length();
        if ray_len < tolerance {
            ray = crate::linalg::vec3(FX_ONE, 0, 0);
            ray_len = FX_ONE;
        }
        let ray_dir = ray;
        let support_point = Vertex { v: ray, s0: ray, s1: ray };
        GJKNesterov {
            alpha: 0,
            omega: 0,
            tolerance,
            simplex,
            simplex_len: 0,
            ray,
            ray_len,
            ray_dir,
            support_point,
        }
    }

    /// Track the running maximum of the per-iteration lower bounds and
    /// test the relative convergence criterion against the current ray.
    fn check_convergence(&mut self) -> (r: bool)
        ensures
            final(self).alpha as int == spec_fx_max(old(self).alpha as int, old(self).omega as int),
            final(self).omega == old(self).omega,
            final(self).tolerance == old(self).tolerance,
            final(self).simplex@ == old(self).simplex@,
            final(self).simplex_len == old(self).simplex_len,
            final(self).ray == old(self).ray,
            final(self).ray_len == old(self).ray_len,
            final(self).ray_dir == old(self).ray_dir,
            final(self).support_point == old(self).support_point,
            r == (spec_fx_sub(
                spec_fx_sub(
                    old(self).ray_len as int,
                    spec_fx_max(old(self).alpha as int, old(self).omega as int),
                ),
                spec_fx_mul(old(self).tolerance as int, old(self).ray_len as int),
            ) <= 0),
    {
        self.alpha = fx_max(self.alpha, self.omega);
        let diff = fx_sub(self.ray_len, self.alpha);
        fx_sub(diff, fx_mul(self.tolerance, self.ray_len)) <= 0
    }

    /// Run the query against a pair of colliders.
    ///
    /// Returns `(inside, distance, iterations)`: whether the shapes
    /// overlap (or are within the tolerance of one another), the
    /// approximate separation otherwise, and the index of the last
    /// iteration the solver ran.  Running out of iterations is not an
    /// error; the last state is reported as-is, which is the one exit on
    /// which `inside` may disagree with `distance < tolerance`.
    ///
    /// The contract ties the answer to the two colliders: every live
    /// simplex entry and the support point the query worked with are
    /// Minkowski-difference vertices of this pair, and the reported
    /// distance is the final state's own value — zero or the ray's length
    /// on an overlap verdict, the ray's length or the last lower bound on
    /// a separation verdict.
    #[verifier::rlimit(100)]
    pub fn distance_nesterov_accelerated(
        &mut self,
        collider1: &Collider,
        collider2: &Collider,
        max_iterations: usize,
    ) -> (r: (bool, i64, usize))
        requires
            old(self).wf(),
        ensures
            final(self).tolerance == old(self).tolerance,
            r.1 >= 0,
            r.0 ==> r.1 < old(self).tolerance,
            r.2 + 1 < max_iterations ==> (r.0 <==> r.1 < old(self).tolerance),
            max_iterations > 0 ==> r.2 < max_iterations,
            max_iterations == 0 ==> r == (false, 0i64, 0usize),
            simplex_sourced(*final(self), *old(self), *collider1, *collider2),
            final(self).support_point == old(self).support_point || is_support_pair(
                *collider1,
                *collider2,
                final(self).support_point,
            ),
            max_iterations > 0 && old(self).ray_len >= old(self).tolerance ==> is_support_pair(
                *collider1,
                *collider2,
                final(self).support_point,
            ),
            r.0 ==> r.1 == 0 || r.1 == final(self).ray_len,
            !r.0 && r.2 + 1 < max_iterations ==> r.1 == final(self).ray_len
                || r.1 == final(self).omega,
            !r.0 ==> (final(self).ray == old(self).ray && final(self).ray_len == old(self).ray_len)
                || final(self).ray_len as int == spec_vlen(final(self).ray),
    {
        let mut use_nesterov_acceleration = true;
        let mut inside = false;
        let mut distance: i64 = 0;
        let mut interation: usize = 0;
        let mut done = false;
        let mut i: usize = 0;
        while i < max_iterations && !done
            invariant
                i <= max_iterations,
                self.tolerance == old(self).tolerance,
                0 < self.tolerance <= UPPER_BOUND,
                self.ray_len >= 0,
                !done ==> self.simplex_len <= 3,
                !done ==> !inside && distance == 0,
                done ==> distance >= 0 && (inside <==> distance < self.tolerance),
                i == 0 ==> interation == 0 && !done,
                i > 0 ==> interation == i - 1,
                i == 0 ==> self.ray_len == old(self).ray_len,
                done ==> i >= 1,
                simplex_sourced(*self, *old(self), *collider1, *collider2),
                self.support_point == old(self).support_point || is_support_pair(
                    *collider1,
                    *collider2,
                    self.support_point,
                ),
                i > 0 && old(self).ray_len >= old(self).tolerance ==> is_support_pair(
                    *collider1,
                    *collider2,
                    self.support_point,
                ),
                done && inside ==> distance == 0 || distance == self.ray_len,
                done && !inside ==> distance == self.ray_len || distance == self.omega,
                !done || !inside ==> (self.ray == old(self).ray && self.ray_len == old(self).ray_len)
                    || self.ray_len as int == spec_vlen(self.ray),
            decreases max_iterations - i,
        {
            interation = i;
            if self.ray_len < self.tolerance {
                distance = 0;
                inside = true;
                done = true;
            } else {
                if use_nesterov_acceleration {
                    let momentum = fx_div(
                        fx_from_wide(i as u128 + 1),
                        fx_from_wide(i as u128 + 3),
                    );
                    let y = self.ray.scale(momentum).add(
                        self.support_point.v.scale(fx_sub(FX_ONE, momentum)),
                    );
                    self.ray_dir = self.ray_dir.scale(momentum).add(
                        y.scale(fx_sub(FX_ONE, momentum)),
                    );
                } else {
                    self.ray_dir = self.ray;
                }
                let s0 = collider1.get_support_point(self.ray_dir.neg());
                let s1 = collider2.get_support_point(self.ray_dir);
                self.support_point = Vertex::new(s0, s1);
                proof {
                    let rd = self.ray_dir;
                    assert(self.support_point == spec_vertex(
                        spec_support(*collider1, spec_vneg(rd)),
                        spec_support(*collider2, rd),
                    ));
                    assert(is_support_pair(*collider1, *collider2, self.support_point));
                }
                let ghost before_push = *self;
                self.simplex[self.simplex_len] = self.support_point;
                self.simplex_len = self.simplex_len + 1;
                proof {
                    assert forall|j: int| 0 <= j < self.simplex_len implies is_support_pair(
                        *collider1,
                        *collider2,
                        #[trigger] self.simplex@[j],
                    ) || (exists|k: int|
                        0 <= k < old(self).simplex_len
                            && self.simplex@[j] == old(self).simplex@[k]) by {
                        if j < self.simplex_len - 1 {
                            assert(self.simplex@[j] == before_push.simplex@[j]);
                        } else {
                            assert(self.simplex@[j] == self.support_point);
                        }
                    }
                }
                self.omega = fx_div(
                    self.ray_dir.dot(self.support_point.v),
                    self.ray_dir.length(),
                );
                if self.omega > UPPER_BOUND {
                    distance = self.omega;
                    inside = false;
                    done = true;
                } else {
                    let mut retry_without_acceleration = false;
                    if use_nesterov_acceleration {
                        let frank_wolfe_duality_gap = fx_mul(
                            2 * FX_ONE,
                            self.ray.dot(self.ray.sub(self.support_point.v)),
                        );
                        if fx_sub(frank_wolfe_duality_gap, self.tolerance) <= 0 {
                            use_nesterov_acceleration = false;
                            self.simplex_len = self.simplex_len - 1;
                            retry_without_acceleration = true;
                        }
                    }
                    if !retry_without_acceleration {
                        let cv_check_passed = self.check_convergence();
                        if i > 0 && cv_check_passed {
                            self.simplex_len = self.simplex_len - 1;
                            if use_nesterov_acceleration {
                                use_nesterov_acceleration = false;
                            } else {
                                distance = self.ray_len;
                                if distance < self.tolerance {
                                    inside = true;
                                }
                                done = true;
                            }
                        } else {
                            let ghost before_reduce = *self;
                            match self.simplex_len {
                                1 => {
                                    self.ray = self.support_point.v;
                                },
                                2 => {
                                    inside = self.project_line_origen();
                                },
                                3 => {
                                    inside = self.project_triangle_origen();
                                },
                                4 => {
                                    inside = self.project_tetra_to_origen();
                                },
                                _ => {},
                            }
                            proof {
                                assert forall|j: int|
                                    0 <= j < self.simplex_len implies is_support_pair(
                                    *collider1,
                                    *collider2,
                                    #[trigger] self.simplex@[j],
                                ) || (exists|k: int|
                                    0 <= k < old(self).simplex_len
                                        && self.simplex@[j] == old(self).simplex@[k]) by {
                                    let k0 = choose|k0: int|
                                        0 <= k0 < before_reduce.simplex_len
                                            && self.simplex@[j] == before_reduce.simplex@[k0];
                                    assert(self.simplex@[j] == before_reduce.simplex@[k0]);
                                }
                            }
                            if !inside {
                                self.ray_len = self.ray.length();
                            }
                            if inside || self.ray_len == 0 {
                                distance = 0;
                                inside = true;
                                done = true;
                            }
                        }
                    }
                }
            }
            i = i + 1;
        }
        (inside, distance, interation)
    }
}

} // verus!
