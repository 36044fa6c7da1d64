use vstd::prelude::*;
use crate::math::{Scalar, Vector3, Point3, Matrix3, Velocity3, Force3, force_sum};
use crate::object::{BodyStatus, BodyHandle, RigidBody, RigidBodyDesc};

verus! {

/// The per-entity component mirroring one rigid body of the engine: the
/// desired physical parameters, the accumulated not-yet-consumed external
/// force, and — once the entity has been created engine-side — the opaque
/// handle of the engine object.
///
/// After a push the public fields are the last known intended state; after a
/// pull they are the last known simulated state.
#[derive(Clone, Copy, Debug, PartialEq, Eq)]
pub struct PhysicsBody<N> {
    pub(crate) handle: Option<BodyHandle>,
    pub gravity_enabled: bool,
    pub body_status: BodyStatus,
    pub velocity: Velocity3<N>,
    pub angular_inertia: Matrix3<N>,
    pub mass: N,
    pub local_center_of_mass: Point3<N>,
    pub rotations_kinematic: Vector3<bool>,
    external_forces: Force3<N>,
}

/// The specification-level value of a `PhysicsBody`, with every field — the
/// private force accumulator included — laid open so that contracts can
/// state exactly which fields an operation reads and writes.
pub struct BodyView<N> {
    pub handle: Option<BodyHandle>,
    pub gravity_enabled: bool,
    pub body_status: BodyStatus,
    pub velocity: Velocity3<N>,
    pub angular_inertia: Matrix3<N>,
    pub mass: N,
    pub local_center_of_mass: Point3<N>,
    pub rotations_kinematic: Vector3<bool>,
    pub external_forces: Force3<N>,
}

impl<N> View for PhysicsBody<N> {
    type V = BodyView<N>;

    closed spec fn view(&self) -> BodyView<N> {
        BodyView {
            handle: self.handle,
            gravity_enabled: self.gravity_enabled,
            body_status: self.body_status,
            velocity: self.velocity,
            angular_inertia: self.angular_inertia,
            mass: self.mass,
            local_center_of_mass: self.local_center_of_mass,
            rotations_kinematic: self.rotations_kinematic,
            external_forces: self.external_forces,
        }
    }
}

/// The component after one force application: only the accumulator moves, by
/// vector addition.
pub open spec fn with_force_applied<N: Scalar>(v: BodyView<N>, force: Force3<N>) -> BodyView<N> {
    BodyView { external_forces: v.external_forces.spec_add(force), ..v }
}

/// The component after its accumulator has been drained: the accumulator is
/// zero and every other field is kept. This is also exactly what a push does
/// to the component.
pub open spec fn drained<N: Scalar>(v: BodyView<N>) -> BodyView<N> {
    BodyView { external_forces: Force3::spec_zero(), ..v }
}

/// The creation descriptor a component yields: its physical parameters,
/// independent of the accumulator, the rotation locks and the handle.
pub open spec fn descriptor_of<N: Scalar>(v: BodyView<N>) -> RigidBodyDesc<N> {
    RigidBodyDesc {
        gravity_enabled: v.gravity_enabled,
        body_status: v.body_status,
        velocity: v.velocity,
        angular_inertia: v.angular_inertia,
        mass: v.mass,
        local_center_of_mass: v.local_center_of_mass,
    }
}

/// The engine-side body after a push of component `v`: every engine field is
/// overwritten from the component, and the drained accumulator is submitted
/// as the one-shot force for the upcoming step. The result does not depend
/// on the engine body's previous state.
pub open spec fn pushed_engine_body<N: Scalar>(v: BodyView<N>) -> RigidBody<N> {
    RigidBody {
        gravity_enabled: v.gravity_enabled,
        body_status: v.body_status,
        velocity: v.velocity,
        angular_inertia: v.angular_inertia,
        mass: v.mass,
        local_center_of_mass: v.local_center_of_mass,
        rotations_kinematic: v.rotations_kinematic,
        applied_force: v.external_forces,
    }
}

/// The component after a pull from engine body `rb`: gravity flag, status,
/// velocity, and the engine's local-inertia report (mass and tensor) are
/// overwritten; the locally authoritative fields — centre of mass, rotation
/// locks, handle — and the already-consumed accumulator are kept.
pub open spec fn pulled<N: Scalar>(v: BodyView<N>, rb: RigidBody<N>) -> BodyView<N> {
    BodyView {
        gravity_enabled: rb.gravity_enabled,
        body_status: rb.body_status,
        velocity: rb.velocity,
        angular_inertia: rb.angular_inertia,
        mass: rb.mass,
        ..v
    }
}

/// The component after the forces `fs` have been applied one at a time.
pub open spec fn applied_all<N: Scalar>(v: BodyView<N>, fs: Seq<Force3<N>>) -> BodyView<N>
    decreases fs.len(),
{
    if fs.len() == 0 {
        v
    } else {
        with_force_applied(applied_all(v, fs.drop_last()), fs.last())
    }
}

impl<N: Scalar> PhysicsBody<N> {
    /// Read-only peek at the force accumulated since the last drain; consumes
    /// nothing.
    pub fn check_external_force(&self) -> (r: &Force3<N>)
        ensures
            *r == self@.external_forces,
    {
        &self.external_forces
    }

    /// Adds a force/torque contribution to the accumulator; contributions are
    /// additive and nothing but the accumulator moves.
    pub fn apply_external_force(&mut self, force: &Force3<N>) -> (ret: &mut Self)
        requires
            old(self)@.external_forces.add_req(*force),
        ensures
            ret@ == with_force_applied(old(self)@, *force),
            *final(self) == *final(ret),
    {
        self.external_forces = self.external_forces.add(*force);
        self
    }

    /// The creation descriptor for a new engine-side rigid body with this
    /// component's values. Reads only the physical parameters: neither the
    /// accumulator nor the rotation locks nor the handle.
    pub fn to_rigid_body_desc(&self) -> (r: RigidBodyDesc<N>)
        ensures
            r == descriptor_of(self@),
    {
        RigidBodyDesc::new()
            .gravity_enabled(self.gravity_enabled)
            .status(self.body_status)
            .velocity(self.velocity)
            .angular_inertia(self.angular_inertia)
            .mass(self.mass)
            .local_center_of_mass(self.local_center_of_mass)
    }

    /// Push: overwrites the engine body's state from this component and
    /// submits the drained accumulator as a one-shot force for the upcoming
    /// step. The force is drained and submitted after mass and inertia have
    /// been updated, so the engine interprets it against the parameters
    /// pushed in this same call. On the component itself only the
    /// accumulator changes: it is consumed, exactly once.
    pub fn apply_to_physics_world(&mut self, rigid_body: &mut RigidBody<N>) -> (ret: &mut Self)
        ensures
            ret@ == drained(old(self)@),
            *final(self) == *final(ret),
            *final(rigid_body) == pushed_engine_body(old(self)@),
    {
        rigid_body.enable_gravity(self.gravity_enabled);
        rigid_body.set_status(self.body_status);
        rigid_body.set_velocity(self.velocity);
        rigid_body.set_angular_inertia(self.angular_inertia);
        rigid_body.set_mass(self.mass);
        rigid_body.set_local_center_of_mass(self.local_center_of_mass);
        let drained_force = self.drain_external_force();
        rigid_body.apply_force(&drained_force);
        rigid_body.set_rotations_kinematic(self.rotations_kinematic);
        self
    }

    /// Pull: overwrites gravity flag, status, velocity, and — from the
    /// engine's local-inertia report — mass and inertia tensor with the
    /// engine-computed state. Centre of mass, rotation locks, handle and
    /// accumulator stay untouched.
    pub fn update_from_physics_world(&mut self, rigid_body: &RigidBody<N>) -> (ret: &mut Self)
        ensures
            ret@ == pulled(old(self)@, *rigid_body),
            *final(self) == *final(ret),
    {
        self.gravity_enabled = rigid_body.gravity_enabled();
        self.body_status = rigid_body.status();

        self.velocity = *rigid_body.velocity();

        let local_inertia = rigid_body.local_inertia();
        self.angular_inertia = local_inertia.angular;
        self.mass = local_inertia.linear;
        self
    }

    /// Atomically reads the accumulator, resets it to zero and returns the
    /// read value: each accumulated force is consumed exactly once.
    fn drain_external_force(&mut self) -> (r: Force3<N>)
        ensures
            r == old(self)@.external_forces,
            final(self)@ == drained(old(self)@),
    {
        let value = self.external_forces;
        self.external_forces = Force3::zero();
        value
    }
}

/// The defaulted builder state for a given body status: gravity disabled,
/// zero velocity, zero inertia tensor, the default mass, centre of mass at
/// the origin, and no rotation lock.
pub open spec fn default_builder<N: Scalar>(body_status: BodyStatus) -> BuilderView<N> {
    BuilderView {
        gravity_enabled: false,
        body_status,
        velocity: Velocity3::spec_zero(),
        angular_inertia: Matrix3::spec_zeros(),
        mass: N::spec_default_mass(),
        local_center_of_mass: Point3::spec_origin(),
        rotations_kinematic: Vector3 { x: false, y: false, z: false },
    }
}

/// The component a builder yields: the builder's values, no handle yet, and
/// an empty force accumulator.
pub open spec fn built_body<N: Scalar>(v: BuilderView<N>) -> BodyView<N> {
    BodyView {
        handle: None,
        gravity_enabled: v.gravity_enabled,
        body_status: v.body_status,
        velocity: v.velocity,
        angular_inertia: v.angular_inertia,
        mass: v.mass,
        local_center_of_mass: v.local_center_of_mass,
        rotations_kinematic: v.rotations_kinematic,
        external_forces: Force3::spec_zero(),
    }
}

/// Builder for `PhysicsBody` components: constructed from the one required
/// input (the body status) with every other field defaulted, then customised
/// through fluent setters, and finished with `build`.
pub struct PhysicsBodyBuilder<N> {
    gravity_enabled: bool,
    body_status: BodyStatus,
    velocity: Velocity3<N>,
    angular_inertia: Matrix3<N>,
    mass: N,
    local_center_of_mass: Point3<N>,
    rotations_kinematic: Vector3<bool>,
}

/// The specification-level value of a `PhysicsBodyBuilder`.
pub struct BuilderView<N> {
    pub gravity_enabled: bool,
    pub body_status: BodyStatus,
    pub velocity: Velocity3<N>,
    pub angular_inertia: Matrix3<N>,
    pub mass: N,
    pub local_center_of_mass: Point3<N>,
    pub rotations_kinematic: Vector3<bool>,
}

impl<N> View for PhysicsBodyBuilder<N> {
    type V = BuilderView<N>;

    closed spec fn view(&self) -> BuilderView<N> {
        BuilderView {
            gravity_enabled: self.gravity_enabled,
            body_status: self.body_status,
            velocity: self.velocity,
            angular_inertia: self.angular_inertia,
            mass: self.mass,
            local_center_of_mass: self.local_center_of_mass,
            rotations_kinematic: self.rotations_kinematic,
        }
    }
}

impl<N: Scalar> From<BodyStatus> for PhysicsBodyBuilder<N> {
    /// Creates a new builder from the given body status, with every other
    /// field defaulted.
    fn from(body_status: BodyStatus) -> (r: Self)
        ensures
            r@ == default_builder::<N>(body_status),
    {
        PhysicsBodyBuilder {
            gravity_enabled: false,
            body_status,
            velocity: Velocity3::zero(),
            angular_inertia: Matrix3::zeros(),
            mass: N::default_mass(),
            local_center_of_mass: Point3::origin(),
            rotations_kinematic: Vector3::new(false, false, false),
        }
    }
}

impl<N: Scalar> vstd::std_specs::convert::FromSpecImpl<BodyStatus> for PhysicsBodyBuilder<N> {
    open spec fn obeys_from_spec() -> bool {
        true
    }

    closed spec fn from_spec(body_status: BodyStatus) -> Self {
        PhysicsBodyBuilder {
            gravity_enabled: false,
            body_status,
            velocity: Velocity3::spec_zero(),
            angular_inertia: Matrix3::spec_zeros(),
            mass: N::spec_default_mass(),
            local_center_of_mass: Point3::spec_origin(),
            rotations_kinematic: Vector3 { x: false, y: false, z: false },
        }
    }
}

impl<N: Scalar> PhysicsBodyBuilder<N> {
    /// Sets the `gravity_enabled` value of the builder.
    pub fn gravity_enabled(self, gravity_enabled: bool) -> (r: Self)
        ensures
            r@ == (BuilderView { gravity_enabled, ..self@ }),
    {
        PhysicsBodyBuilder { gravity_enabled, ..self }
    }

    /// Sets the `velocity` value of the builder.
    pub fn velocity(self, velocity: Velocity3<N>) -> (r: Self)
        ensures
            r@ == (BuilderView { velocity, ..self@ }),
    {
        PhysicsBodyBuilder { velocity, ..self }
    }

    /// Sets the `angular_inertia` value of the builder.
    pub fn angular_inertia(self, angular_inertia: Matrix3<N>) -> (r: Self)
        ensures
            r@ == (BuilderView { angular_inertia, ..self@ }),
    {
        PhysicsBodyBuilder { angular_inertia, ..self }
    }

    /// Sets the `mass` value of the builder.
    pub fn mass(self, mass: N) -> (r: Self)
        ensures
            r@ == (BuilderView { mass, ..self@ }),
    {
        PhysicsBodyBuilder { mass, ..self }
    }

    /// Sets the `local_center_of_mass` value of the builder.
    pub fn local_center_of_mass(self, local_center_of_mass: Point3<N>) -> (r: Self)
        ensures
            r@ == (BuilderView { local_center_of_mass, ..self@ }),
    {
        PhysicsBodyBuilder { local_center_of_mass, ..self }
    }

    /// Sets the per-axis rotation locks of the builder.
    pub fn rotations_kinematic(self, rotations_kinematic: Vector3<bool>) -> (r: Self)
        ensures
            r@ == (BuilderView { rotations_kinematic, ..self@ }),
    {
        PhysicsBodyBuilder { rotations_kinematic, ..self }
    }

    /// Locks or frees all three rotation axes at once.
    pub fn lock_rotations(self, lock_rotations: bool) -> (r: Self)
        ensures
            r@ == (BuilderView {
                rotations_kinematic: (Vector3 {
                    x: lock_rotations,
                    y: lock_rotations,
                    z: lock_rotations,
                }),
                ..self@
            }),
    {
        PhysicsBodyBuilder {
            rotations_kinematic: Vector3::new(lock_rotations, lock_rotations, lock_rotations),
            ..self
        }
    }

    /// Builds the component from the values set in the builder: always a
    /// structurally complete component, with no handle and an empty force
    /// accumulator.
    pub fn build(self) -> (r: PhysicsBody<N>)
        ensures
            r@ == built_body(self@),
    {
        PhysicsBody {
            handle: None,
            gravity_enabled: self.gravity_enabled,
            body_status: self.body_status,
            velocity: self.velocity,
            angular_inertia: self.angular_inertia,
            mass: self.mass,
            local_center_of_mass: self.local_center_of_mass,
            external_forces: Force3::zero(),
            rotations_kinematic: self.rotations_kinematic,
        }
    }
}

/// Force drain exactness: starting from an empty accumulator, applying any
/// forces `fs` one at a time changes nothing but the accumulator, which then
/// holds exactly their vector sum; the next push hands the engine exactly
/// that sum and leaves the accumulator empty again.
pub proof fn lemma_force_drain_exactness<N: Scalar>(v: BodyView<N>, fs: Seq<Force3<N>>)
    requires
        v.external_forces == Force3::<N>::spec_zero(),
    ensures
        applied_all(v, fs) == (BodyView { external_forces: force_sum(fs), ..v }),
        pushed_engine_body(applied_all(v, fs)).applied_force == force_sum(fs),
        drained(applied_all(v, fs)) == v,
    decreases fs.len(),
{
    if fs.len() > 0 {
        lemma_force_drain_exactness(v, fs.drop_last());
    }
}

/// Idempotent pull: pulling twice from the same engine body without an
/// intervening step yields the same component state as pulling once.
pub proof fn lemma_pull_idempotent<N: Scalar>(v: BodyView<N>, rb: RigidBody<N>)
    ensures
        pulled(pulled(v, rb), rb) == pulled(v, rb),
{
}

/// Descriptor purity: the descriptor is a function of the component value
/// alone, so two constructions from the same unmodified component agree.
pub proof fn lemma_descriptor_pure<N: Scalar>(
    v: BodyView<N>,
    d1: RigidBodyDesc<N>,
    d2: RigidBodyDesc<N>,
)
    requires
        d1 == descriptor_of(v),
        d2 == descriptor_of(v),
    ensures
        d1 == d2,
{
}

/// The descriptor depends on none of the synchronisation bookkeeping:
/// changing the accumulator, the rotation locks or the handle leaves it
/// unchanged.
pub proof fn lemma_descriptor_ignores_sync_fields<N: Scalar>(
    v: BodyView<N>,
    external_forces: Force3<N>,
    rotations_kinematic: Vector3<bool>,
    handle: Option<BodyHandle>,
)
    ensures
        descriptor_of(BodyView { external_forces, rotations_kinematic, handle, ..v })
            == descriptor_of(v),
{
}

/// Push/pull field partitioning, pull half: a pull never alters the centre
/// of mass, the rotation locks, the handle, or the accumulator.
pub proof fn lemma_pull_preserves_local_fields<N: Scalar>(v: BodyView<N>, rb: RigidBody<N>)
    ensures
        pulled(v, rb).local_center_of_mass == v.local_center_of_mass,
        pulled(v, rb).rotations_kinematic == v.rotations_kinematic,
        pulled(v, rb).handle == v.handle,
        pulled(v, rb).external_forces == v.external_forces,
{
}

/// Push/pull field partitioning, push half: a push only sends the mirror
/// fields, it never writes them — on the component it resets the
/// accumulator and changes nothing else.
pub proof fn lemma_push_preserves_mirror_fields<N: Scalar>(v: BodyView<N>)
    ensures
        drained(v) == (BodyView { external_forces: Force3::<N>::spec_zero(), ..v }),
        drained(v).velocity == v.velocity,
        drained(v).mass == v.mass,
        drained(v).angular_inertia == v.angular_inertia,
        drained(v).handle == v.handle,
{
}

/// The engine handle is engine-owned and this layer never writes it: a
/// freshly built component has none, and force application, push and pull
/// all keep whatever handle the component carries.
pub proof fn lemma_handle_never_written<N: Scalar>(
    v: BodyView<N>,
    force: Force3<N>,
    rb: RigidBody<N>,
    builder: BuilderView<N>,
)
    ensures
        with_force_applied(v, force).handle == v.handle,
        drained(v).handle == v.handle,
        pulled(v, rb).handle == v.handle,
        built_body(builder).handle is None,
{
}

/// Builder defaults: a builder made from any body status, built unmodified,
/// yields gravity disabled, zero velocity, zero inertia tensor, the default
/// mass, centre of mass at the origin, no rotation lock, no handle, and an
/// empty force accumulator.
pub proof fn lemma_builder_defaults<N: Scalar>(body_status: BodyStatus)
    ensures
        ({
            let b = built_body(default_builder::<N>(body_status));
            &&& b.gravity_enabled == false
            &&& b.body_status == body_status
            &&& b.velocity == Velocity3::<N>::spec_zero()
            &&& b.angular_inertia == Matrix3::<N>::spec_zeros()
            &&& b.mass == N::spec_default_mass()
            &&& b.local_center_of_mass == Point3::<N>::spec_origin()
            &&& b.rotations_kinematic == (Vector3 { x: false, y: false, z: false })
            &&& b.handle is None
            &&& b.external_forces == Force3::<N>::spec_zero()
        }),
{
}

} // verus!
