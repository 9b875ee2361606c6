use gjk::colliders::{Collider, ColliderType};
use gjk::fx::FX_ONE;
use gjk::linalg::{vec3, Mat4, Vec3, Vec4};

fn fx(v: f64) -> i64 {
    (v * FX_ONE as f64).round() as i64
}

fn approx(a: i64, b: f64, slack: f64) -> bool {
    (a - fx(b)).abs() <= fx(slack).abs()
}

fn at(x: f64, y: f64, z: f64) -> Mat4 {
    Mat4::from_translation(vec3(fx(x), fx(y), fx(z)))
}

/// A rotation of 90 degrees about the z-axis, as a homogeneous transform.
fn rot_z_90() -> Mat4 {
    Mat4 {
        x_axis: Vec4 { x: 0, y: FX_ONE, z: 0, w: 0 },
        y_axis: Vec4 { x: -FX_ONE, y: 0, z: 0, w: 0 },
        z_axis: Vec4 { x: 0, y: 0, z: FX_ONE, w: 0 },
        w_axis: Vec4 { x: 0, y: 0, z: 0, w: FX_ONE },
    }
}

#[test]
fn sphere_support_points() {
    let s = Collider::new_sphere(at(1.0, 0.0, 0.0), fx(2.0));
    assert!(s.typ == ColliderType::Sphere);
    let p = s.get_support_point(vec3(fx(10.0), 0, 0));
    assert!(approx(p.x, 3.0, 1e-4));
    assert!(approx(p.y, 0.0, 1e-4));
    assert!(approx(p.z, 0.0, 1e-4));
    let q = s.get_support_point(vec3(0, fx(-0.5), 0));
    assert!(approx(q.x, 1.0, 1e-4));
    assert!(approx(q.y, -2.0, 1e-4));
    assert!(approx(q.z, 0.0, 1e-4));
}

#[test]
fn identity_transform_places_the_shape_at_the_origin() {
    let b = Collider::new_box(Mat4::identity(), vec3(fx(2.0), fx(2.0), fx(2.0)));
    let p = b.get_support_point(vec3(fx(1.0), fx(1.0), fx(1.0)));
    assert_eq!(p, vec3(fx(1.0), fx(1.0), fx(1.0)));
    let q = b.get_support_point(vec3(fx(-1.0), fx(-1.0), fx(-1.0)));
    assert_eq!(q, vec3(fx(-1.0), fx(-1.0), fx(-1.0)));
}

#[test]
fn sphere_support_zero_direction_falls_back_to_center() {
    let s = Collider::new_sphere(at(3.0, -1.0, 0.5), fx(2.0));
    let p = s.get_support_point(vec3(0, 0, 0));
    assert_eq!(p, vec3(fx(3.0), fx(-1.0), fx(0.5)));
}

#[test]
fn capsule_support_points() {
    // Radius 1, full length 2 along the local z-axis.
    let c = Collider::new_capluse(at(0.0, 0.0, 0.0), fx(1.0), fx(2.0));
    assert!(c.typ == ColliderType::Capluse);
    let top = c.get_support_point(vec3(0, 0, fx(1.0)));
    assert!(approx(top.x, 0.0, 1e-4));
    assert!(approx(top.y, 0.0, 1e-4));
    assert!(approx(top.z, 2.0, 1e-4));
    let bottom = c.get_support_point(vec3(0, 0, fx(-1.0)));
    assert!(approx(bottom.z, -2.0, 1e-4));
    // A lateral direction: z lands exactly on 0 and takes the lower cap.
    let side = c.get_support_point(vec3(fx(1.0), 0, 0));
    assert!(approx(side.x, 1.0, 1e-4));
    assert!(approx(side.z, -1.0, 1e-4));
}

#[test]
fn cylinder_support_points() {
    let c = Collider::new_cylinder(at(0.0, 0.0, 0.0), fx(1.0), fx(2.0));
    assert!(c.typ == ColliderType::Cylinder);
    let p = c.get_support_point(vec3(fx(1.0), 0, fx(0.25)));
    assert!(approx(p.x, 1.0, 1e-4));
    assert!(approx(p.y, 0.0, 1e-4));
    assert!(approx(p.z, 1.0, 1e-4));
    // z exactly zero counts as the positive branch.
    let q = c.get_support_point(vec3(0, fx(-1.0), 0));
    assert!(approx(q.y, -1.0, 1e-4));
    assert!(approx(q.z, 1.0, 1e-4));
    // No lateral component: the rim point falls back to the local x-axis.
    let r = c.get_support_point(vec3(0, 0, fx(-3.0)));
    assert!(approx(r.x, 1.0, 1e-4));
    assert!(approx(r.y, 0.0, 1e-4));
    assert!(approx(r.z, -1.0, 1e-4));
}

#[test]
fn box_support_points() {
    let b = Collider::new_box(at(0.0, 0.0, 0.0), vec3(fx(2.0), fx(4.0), fx(6.0)));
    assert!(b.typ == ColliderType::Box);
    let p = b.get_support_point(vec3(fx(1.0), fx(-1.0), fx(1.0)));
    assert_eq!(p, vec3(fx(1.0), fx(-2.0), fx(3.0)));
    // A zero component keeps the positive sign.
    let q = b.get_support_point(vec3(fx(-1.0), 0, 0));
    assert_eq!(q, vec3(fx(-1.0), fx(2.0), fx(3.0)));
}

#[test]
fn rotated_box_support_uses_the_local_frame() {
    // The box is 2 long in local x and 4 long in local y; rotated a
    // quarter turn about z, its world extents swap.
    let b = Collider::new_box(rot_z_90(), vec3(fx(2.0), fx(4.0), fx(2.0)));
    let p = b.get_support_point(vec3(fx(1.0), fx(1.0), 0));
    assert!(approx(p.x, 2.0, 1e-4));
    assert!(approx(p.y, 1.0, 1e-4));
}

#[test]
fn support_maximizes_dot_product_over_sampled_boundary() {
    // The supporting-hyperplane property, checked by dense sampling for
    // each shape type: no sampled boundary point scores higher along the
    // query direction than the support point (up to fixed-point rounding).
    let shapes = [
        Collider::new_sphere(at(0.5, -0.25, 1.0), fx(1.5)),
        Collider::new_capluse(at(-1.0, 0.5, 0.0), fx(0.75), fx(2.0)),
        Collider::new_cylinder(at(0.0, 1.0, -0.5), fx(1.25), fx(1.5)),
        Collider::new_box(at(1.0, 0.0, 0.0), vec3(fx(2.0), fx(1.0), fx(3.0))),
    ];
    let slack = fx(2e-3);
    for shape in shapes.iter() {
        let mut dirs: Vec<Vec3> = Vec::new();
        for i in 0..26 {
            let theta = (i as f64) * 0.241;
            let phi = (i as f64) * 0.113 - 1.5;
            dirs.push(vec3(
                fx(theta.cos() * phi.cos()),
                fx(theta.sin() * phi.cos()),
                fx(phi.sin()),
            ));
        }
        for dir in dirs.iter() {
            let support = shape.get_support_point(*dir);
            let best = dot(support, *dir);
            // Boundary samples: the support points of many other
            // directions all lie on the shape's boundary.
            for probe in dirs.iter() {
                let p = shape.get_support_point(*probe);
                assert!(dot(p, *dir) <= best + slack, "{:?} {:?}", p, support);
            }
        }
    }
}

fn dot(a: Vec3, b: Vec3) -> i64 {
    let ax = a.x as i128;
    let ay = a.y as i128;
    let az = a.z as i128;
    ((ax * b.x as i128 + ay * b.y as i128 + az * b.z as i128) / FX_ONE as i128) as i64
}
