use specs_physics::{
    BodyStatus, Fixed, Force3, Matrix3, PhysicsBody, PhysicsBodyBuilder, Point3, RigidBody,
    RigidBodyDesc, Vector3, Velocity3,
};

// scalars are fixed point in tenths: Fixed(10) is the number 1
fn v3(x: i64, y: i64, z: i64) -> Vector3<Fixed> {
    Vector3 { x: Fixed(x), y: Fixed(y), z: Fixed(z) }
}

fn force(x: i64, y: i64, z: i64) -> Force3<Fixed> {
    Force3 { linear: v3(x, y, z), angular: v3(0, 0, 0) }
}

fn diagonal(d: i64) -> Matrix3<Fixed> {
    Matrix3 {
        m11: Fixed(d), m12: Fixed(0), m13: Fixed(0),
        m21: Fixed(0), m22: Fixed(d), m23: Fixed(0),
        m31: Fixed(0), m32: Fixed(0), m33: Fixed(d),
    }
}

fn fresh_dynamic_body() -> PhysicsBody<Fixed> {
    PhysicsBodyBuilder::<Fixed>::from(BodyStatus::Dynamic).build()
}

fn engine_body_for(body: &PhysicsBody<Fixed>) -> RigidBody<Fixed> {
    body.to_rigid_body_desc().build()
}

#[test]
fn force_scenario_two_applications_then_two_pushes() {
    // apply (1,0,0) then (0,2,0); the recording engine body must receive
    // exactly (1,2,0), and a second push with no new force exactly (0,0,0)
    let mut body = fresh_dynamic_body();
    let mut engine_body = engine_body_for(&body);

    body.apply_external_force(&force(10, 0, 0));
    body.apply_external_force(&force(0, 20, 0));
    assert_eq!(*body.check_external_force(), force(10, 20, 0));

    body.apply_to_physics_world(&mut engine_body);
    assert_eq!(engine_body.applied_force, force(10, 20, 0));
    assert_eq!(*body.check_external_force(), force(0, 0, 0));

    body.apply_to_physics_world(&mut engine_body);
    assert_eq!(engine_body.applied_force, force(0, 0, 0));
}

#[test]
fn force_accumulation_sums_torque_too() {
    let mut body = fresh_dynamic_body();
    let f1 = Force3 { linear: v3(1, 2, 3), angular: v3(4, 5, 6) };
    let f2 = Force3 { linear: v3(10, 20, 30), angular: v3(40, 50, 60) };
    body.apply_external_force(&f1).apply_external_force(&f2);
    assert_eq!(
        *body.check_external_force(),
        Force3 { linear: v3(11, 22, 33), angular: v3(44, 55, 66) }
    );
}

#[test]
fn push_sends_rotation_locks_exactly() {
    // set rotations_kinematic to (true,false,false) via the builder; after a
    // push the engine body's recorded flags equal (true,false,false) exactly
    let mut body = PhysicsBodyBuilder::<Fixed>::from(BodyStatus::Dynamic)
        .rotations_kinematic(Vector3 { x: true, y: false, z: false })
        .build();
    let mut engine_body = engine_body_for(&body);
    assert_eq!(engine_body.rotations_kinematic, Vector3 { x: false, y: false, z: false });

    body.apply_to_physics_world(&mut engine_body);
    assert_eq!(engine_body.rotations_kinematic, Vector3 { x: true, y: false, z: false });
}

#[test]
fn push_overwrites_every_engine_field() {
    let mut body = PhysicsBodyBuilder::<Fixed>::from(BodyStatus::Kinematic)
        .gravity_enabled(true)
        .velocity(Velocity3 { linear: v3(10, 0, 0), angular: v3(0, 0, 30) })
        .angular_inertia(diagonal(20))
        .mass(Fixed(55))
        .local_center_of_mass(Point3 { x: Fixed(1), y: Fixed(0), z: Fixed(0) })
        .build();
    // an engine body created with entirely different values
    let mut engine_body = RigidBodyDesc::<Fixed>::new().build();

    body.apply_to_physics_world(&mut engine_body);
    assert_eq!(engine_body.gravity_enabled, true);
    assert_eq!(engine_body.body_status, BodyStatus::Kinematic);
    assert_eq!(engine_body.velocity, Velocity3 { linear: v3(10, 0, 0), angular: v3(0, 0, 30) });
    assert_eq!(engine_body.angular_inertia, diagonal(20));
    assert_eq!(engine_body.mass, Fixed(55));
    assert_eq!(engine_body.local_center_of_mass, Point3 { x: Fixed(1), y: Fixed(0), z: Fixed(0) });
}

#[test]
fn push_reads_but_never_writes_mirror_fields() {
    let velocity = Velocity3 { linear: v3(7, 8, 9), angular: v3(1, 1, 1) };
    let mut body = PhysicsBodyBuilder::<Fixed>::from(BodyStatus::Dynamic)
        .velocity(velocity)
        .angular_inertia(diagonal(42))
        .mass(Fixed(33))
        .build();
    let mut engine_body = engine_body_for(&body);

    body.apply_to_physics_world(&mut engine_body);
    assert_eq!(body.velocity, velocity);
    assert_eq!(body.mass, Fixed(33));
    assert_eq!(body.angular_inertia, diagonal(42));
}

#[test]
fn pull_overwrites_simulated_state() {
    let mut body = fresh_dynamic_body();
    let mut engine_body = engine_body_for(&body);
    engine_body.gravity_enabled = true;
    engine_body.body_status = BodyStatus::Static;
    engine_body.velocity = Velocity3 { linear: v3(3, 2, 1), angular: v3(0, 9, 0) };
    engine_body.angular_inertia = diagonal(77);
    engine_body.mass = Fixed(99);

    body.update_from_physics_world(&engine_body);
    assert_eq!(body.gravity_enabled, true);
    assert_eq!(body.body_status, BodyStatus::Static);
    assert_eq!(body.velocity, Velocity3 { linear: v3(3, 2, 1), angular: v3(0, 9, 0) });
    assert_eq!(body.angular_inertia, diagonal(77));
    assert_eq!(body.mass, Fixed(99));
}

#[test]
fn pull_preserves_locally_authoritative_fields() {
    let com = Point3 { x: Fixed(4), y: Fixed(5), z: Fixed(6) };
    let locks = Vector3 { x: false, y: true, z: false };
    let mut body = PhysicsBodyBuilder::<Fixed>::from(BodyStatus::Dynamic)
        .local_center_of_mass(com)
        .rotations_kinematic(locks)
        .build();
    body.apply_external_force(&force(1, 1, 1));
    let mut engine_body = engine_body_for(&body);
    engine_body.local_center_of_mass = Point3 { x: Fixed(0), y: Fixed(0), z: Fixed(0) };
    engine_body.rotations_kinematic = Vector3 { x: true, y: true, z: true };

    body.update_from_physics_world(&engine_body);
    assert_eq!(body.local_center_of_mass, com);
    assert_eq!(body.rotations_kinematic, locks);
    assert_eq!(*body.check_external_force(), force(1, 1, 1));
}

#[test]
fn pull_twice_without_step_is_idempotent() {
    let mut engine_body = RigidBodyDesc::<Fixed>::new()
        .velocity(Velocity3 { linear: v3(5, 5, 5), angular: v3(0, 1, 0) })
        .mass(Fixed(21))
        .angular_inertia(diagonal(3))
        .build();
    engine_body.gravity_enabled = true;

    let mut body = fresh_dynamic_body();
    body.update_from_physics_world(&engine_body);
    let after_first = body;
    body.update_from_physics_world(&engine_body);
    assert_eq!(body, after_first);
}

#[test]
fn descriptor_twice_is_identical_and_mutates_nothing() {
    let body = PhysicsBodyBuilder::<Fixed>::from(BodyStatus::Dynamic)
        .gravity_enabled(true)
        .velocity(Velocity3 { linear: v3(1, 1, 1), angular: v3(0, 0, 0) })
        .angular_inertia(diagonal(30))
        .mass(Fixed(13))
        .local_center_of_mass(Point3 { x: Fixed(0), y: Fixed(0), z: Fixed(0) })
        .build();
    let before = body;
    let d1 = body.to_rigid_body_desc();
    let d2 = body.to_rigid_body_desc();
    assert_eq!(d1, d2);
    assert_eq!(body, before);
}

#[test]
fn descriptor_carries_the_physical_parameters() {
    let velocity = Velocity3 { linear: v3(1, 2, 3), angular: v3(4, 5, 6) };
    let com = Point3 { x: Fixed(7), y: Fixed(8), z: Fixed(9) };
    let mut body = PhysicsBodyBuilder::<Fixed>::from(BodyStatus::Static)
        .gravity_enabled(true)
        .velocity(velocity)
        .angular_inertia(diagonal(11))
        .mass(Fixed(12))
        .local_center_of_mass(com)
        .build();
    let desc = body.to_rigid_body_desc();
    assert_eq!(desc.gravity_enabled, true);
    assert_eq!(desc.body_status, BodyStatus::Static);
    assert_eq!(desc.velocity, velocity);
    assert_eq!(desc.angular_inertia, diagonal(11));
    assert_eq!(desc.mass, Fixed(12));
    assert_eq!(desc.local_center_of_mass, com);

    // the descriptor ignores the accumulator: applying a force changes nothing
    body.apply_external_force(&force(100, 0, 0));
    assert_eq!(body.to_rigid_body_desc(), desc);
}

#[test]
fn engine_creation_defaults() {
    let desc = RigidBodyDesc::<Fixed>::new();
    assert_eq!(desc.gravity_enabled, true);
    assert_eq!(desc.body_status, BodyStatus::Dynamic);
    assert_eq!(desc.mass, Fixed(0));

    let engine_body = desc.build();
    assert_eq!(engine_body.rotations_kinematic, Vector3 { x: false, y: false, z: false });
    assert_eq!(engine_body.applied_force, force(0, 0, 0));
}
