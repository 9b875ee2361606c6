//! A narrow-phase collision query over convex shapes in 3D: given two
//! convex colliders (sphere, capsule, cylinder or box, each under a rigid
//! transform), decide whether they overlap and, if not, approximate their
//! separation distance with the GJK algorithm under Nesterov momentum
//! acceleration.
//!
//! All geometry is carried out in deterministic fixed-point arithmetic
//! (`fx`), so every support query, every simplex reduction and the solver
//! loop itself have exact contracts: the result of each step is pinned by
//! a spec function, the reported distance is proved nonnegative, and a
//! collision verdict is proved consistent with the distance and the
//! tolerance on every convergent exit.
//!
//! - [`linalg`]: vectors and rigid transforms over the fixed-point scalars.
//! - [`colliders`]: the shape types and their support functions.
//! - [`gjk`]: the simplex reductions and the solver.

pub mod colliders;
pub mod fx;
pub mod gjk;
pub mod linalg;
