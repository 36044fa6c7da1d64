//! The library is generic over its scalar; a floating-point scalar, the usual
//! choice when driving a real engine, works as well as the built-in
//! fixed-point one.

use specs_physics::{BodyStatus, Force3, PhysicsBodyBuilder, Scalar, Vector3};

#[derive(Clone, Copy, Debug, PartialEq)]
struct Real(f64);

impl Scalar for Real {
    // the four specification-level items are erased from verified code and
    // never called at run time; for a float scalar the intended meanings are
    // the plain float operations
    fn spec_zero() -> Real {
        Real(0.0)
    }

    fn spec_default_mass() -> Real {
        Real(1.2)
    }

    fn add_req(self, _rhs: Real) -> bool {
        true
    }

    fn spec_add(self, rhs: Real) -> Real {
        Real(self.0 + rhs.0)
    }

    fn zero() -> Real {
        Real(0.0)
    }

    fn default_mass() -> Real {
        Real(1.2)
    }

    fn add(self, rhs: Real) -> Real {
        Real(self.0 + rhs.0)
    }
}

fn force(x: f64, y: f64, z: f64) -> Force3<Real> {
    Force3 {
        linear: Vector3 { x: Real(x), y: Real(y), z: Real(z) },
        angular: Vector3 { x: Real(0.0), y: Real(0.0), z: Real(0.0) },
    }
}

#[test]
fn float_builder_default_mass_is_1_point_2() {
    let body = PhysicsBodyBuilder::<Real>::from(BodyStatus::Dynamic).build();
    assert_eq!(body.mass, Real(1.2));
    assert_eq!(body.gravity_enabled, false);
}

#[test]
fn float_force_scenario_records_exact_sum() {
    let mut body = PhysicsBodyBuilder::<Real>::from(BodyStatus::Dynamic).build();
    let mut engine_body = body.to_rigid_body_desc().build();

    body.apply_external_force(&force(1.0, 0.0, 0.0));
    body.apply_external_force(&force(0.0, 2.0, 0.0));
    body.apply_to_physics_world(&mut engine_body);
    assert_eq!(engine_body.applied_force, force(1.0, 2.0, 0.0));

    body.apply_to_physics_world(&mut engine_body);
    assert_eq!(engine_body.applied_force, force(0.0, 0.0, 0.0));
}
