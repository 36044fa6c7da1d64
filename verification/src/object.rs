use vstd::prelude::*;
use crate::math::{Scalar, Vector3, Point3, Matrix3, Velocity3, Force3, Inertia3};

verus! {

/// How the engine's solver treats a body: integrated freely (`Dynamic`),
/// immovable (`Static`), or moved only by direct writes (`Kinematic`).
#[derive(Clone, Copy, Debug, PartialEq, Eq, Structural)]
pub enum BodyStatus {
    Dynamic,
    Static,
    Kinematic,
}

/// An opaque, engine-issued reference identifying one simulated body inside
/// the engine's object graph. The engine owns the handle's lifecycle; this
/// layer only stores and copies it.
#[derive(Clone, Copy, Debug, PartialEq, Eq, Hash, Structural)]
pub struct BodyHandle(pub u64);

/// A plain data structure describing the initial parameters of a rigid body,
/// consumed once by the engine's creation operation.
#[derive(Clone, Copy, Debug, PartialEq, Eq)]
pub struct RigidBodyDesc<N> {
    pub gravity_enabled: bool,
    pub body_status: BodyStatus,
    pub velocity: Velocity3<N>,
    pub angular_inertia: Matrix3<N>,
    pub mass: N,
    pub local_center_of_mass: Point3<N>,
}

impl<N: Scalar> RigidBodyDesc<N> {
    /// The engine's creation defaults: a dynamic, gravity-affected body at
    /// rest with zero mass and inertia.
    pub open spec fn spec_new() -> RigidBodyDesc<N> {
        RigidBodyDesc {
            gravity_enabled: true,
            body_status: BodyStatus::Dynamic,
            velocity: Velocity3::spec_zero(),
            angular_inertia: Matrix3::spec_zeros(),
            mass: N::spec_zero(),
            local_center_of_mass: Point3::spec_origin(),
        }
    }

    pub fn new() -> (r: RigidBodyDesc<N>)
        ensures
            r == Self::spec_new(),
    {
        RigidBodyDesc {
            gravity_enabled: true,
            body_status: BodyStatus::Dynamic,
            velocity: Velocity3::zero(),
            angular_inertia: Matrix3::zeros(),
            mass: N::zero(),
            local_center_of_mass: Point3::origin(),
        }
    }

    /// Sets the `gravity_enabled` value of the descriptor.
    pub fn gravity_enabled(self, gravity_enabled: bool) -> (r: RigidBodyDesc<N>)
        ensures
            r == (RigidBodyDesc { gravity_enabled, ..self }),
    {
        RigidBodyDesc { gravity_enabled, ..self }
    }

    /// Sets the `body_status` value of the descriptor.
    pub fn status(self, body_status: BodyStatus) -> (r: RigidBodyDesc<N>)
        ensures
            r == (RigidBodyDesc { body_status, ..self }),
    {
        RigidBodyDesc { body_status, ..self }
    }

    /// Sets the `velocity` value of the descriptor.
    pub fn velocity(self, velocity: Velocity3<N>) -> (r: RigidBodyDesc<N>)
        ensures
            r == (RigidBodyDesc { velocity, ..self }),
    {
        RigidBodyDesc { velocity, ..self }
    }

    /// Sets the `angular_inertia` value of the descriptor.
    pub fn angular_inertia(self, angular_inertia: Matrix3<N>) -> (r: RigidBodyDesc<N>)
        ensures
            r == (RigidBodyDesc { angular_inertia, ..self }),
    {
        RigidBodyDesc { angular_inertia, ..self }
    }

    /// Sets the `mass` value of the descriptor.
    pub fn mass(self, mass: N) -> (r: RigidBodyDesc<N>)
        ensures
            r == (RigidBodyDesc { mass, ..self }),
    {
        RigidBodyDesc { mass, ..self }
    }

    /// Sets the `local_center_of_mass` value of the descriptor.
    pub fn local_center_of_mass(self, local_center_of_mass: Point3<N>) -> (r: RigidBodyDesc<N>)
        ensures
            r == (RigidBodyDesc { local_center_of_mass, ..self }),
    {
        RigidBodyDesc { local_center_of_mass, ..self }
    }

    /// The body the engine creates from this descriptor: no rotation axis is
    /// kinematic yet, and no one-shot force is pending.
    pub open spec fn spec_build(self) -> RigidBody<N> {
        RigidBody {
            gravity_enabled: self.gravity_enabled,
            body_status: self.body_status,
            velocity: self.velocity,
            angular_inertia: self.angular_inertia,
            mass: self.mass,
            local_center_of_mass: self.local_center_of_mass,
            rotations_kinematic: Vector3 { x: false, y: false, z: false },
            applied_force: Force3::spec_zero(),
        }
    }

    /// Creates the engine-side body this descriptor describes.
    pub fn build(&self) -> (r: RigidBody<N>)
        ensures
            r == self.spec_build(),
    {
        RigidBody {
            gravity_enabled: self.gravity_enabled,
            body_status: self.body_status,
            velocity: self.velocity,
            angular_inertia: self.angular_inertia,
            mass: self.mass,
            local_center_of_mass: self.local_center_of_mass,
            rotations_kinematic: Vector3::new(false, false, false),
            applied_force: Force3::zero(),
        }
    }
}

/// The mutable view of one created body inside the engine, reduced to the
/// state this layer reads and writes. The engine's solver owns everything
/// else (contacts, sleeping, broad-phase residency) and integrates these
/// fields when it steps; between steps they are plain data.
#[derive(Clone, Copy, Debug, PartialEq, Eq)]
pub struct RigidBody<N> {
    pub gravity_enabled: bool,
    pub body_status: BodyStatus,
    pub velocity: Velocity3<N>,
    pub angular_inertia: Matrix3<N>,
    pub mass: N,
    pub local_center_of_mass: Point3<N>,
    pub rotations_kinematic: Vector3<bool>,
    /// The one-shot force submitted for the upcoming step; the engine
    /// consumes it when stepping and it never persists across steps.
    pub applied_force: Force3<N>,
}

impl<N: Scalar> RigidBody<N> {
    /// Switches the global gravity force on or off for this body.
    pub fn enable_gravity(&mut self, enabled: bool)
        ensures
            *final(self) == (RigidBody { gravity_enabled: enabled, ..*old(self) }),
    {
        self.gravity_enabled = enabled;
    }

    /// Sets how the solver treats this body.
    pub fn set_status(&mut self, body_status: BodyStatus)
        ensures
            *final(self) == (RigidBody { body_status, ..*old(self) }),
    {
        self.body_status = body_status;
    }

    /// Overwrites the body's linear and angular velocity.
    pub fn set_velocity(&mut self, velocity: Velocity3<N>)
        ensures
            *final(self) == (RigidBody { velocity, ..*old(self) }),
    {
        self.velocity = velocity;
    }

    /// Overwrites the body's angular-inertia tensor.
    pub fn set_angular_inertia(&mut self, angular_inertia: Matrix3<N>)
        ensures
            *final(self) == (RigidBody { angular_inertia, ..*old(self) }),
    {
        self.angular_inertia = angular_inertia;
    }

    /// Overwrites the body's mass.
    pub fn set_mass(&mut self, mass: N)
        ensures
            *final(self) == (RigidBody { mass, ..*old(self) }),
    {
        self.mass = mass;
    }

    /// Overwrites the body-local centre of mass.
    pub fn set_local_center_of_mass(&mut self, local_center_of_mass: Point3<N>)
        ensures
            *final(self) == (RigidBody { local_center_of_mass, ..*old(self) }),
    {
        self.local_center_of_mass = local_center_of_mass;
    }

    /// Marks, per axis, which angular degrees of freedom the solver must
    /// treat as kinematic rather than solver-driven.
    pub fn set_rotations_kinematic(&mut self, rotations_kinematic: Vector3<bool>)
        ensures
            *final(self) == (RigidBody { rotations_kinematic, ..*old(self) }),
    {
        self.rotations_kinematic = rotations_kinematic;
    }

    /// Submits a one-shot force for the upcoming step, replacing any force
    /// already pending for that step.
    pub fn apply_force(&mut self, force: &Force3<N>)
        ensures
            *final(self) == (RigidBody { applied_force: *force, ..*old(self) }),
    {
        self.applied_force = *force;
    }

    /// Whether gravity acts on this body.
    pub fn gravity_enabled(&self) -> (r: bool)
        ensures
            r == self.gravity_enabled,
    {
        self.gravity_enabled
    }

    /// How the solver currently treats this body.
    pub fn status(&self) -> (r: BodyStatus)
        ensures
            r == self.body_status,
    {
        self.body_status
    }

    /// The body's current velocity.
    pub fn velocity(&self) -> (r: &Velocity3<N>)
        ensures
            *r == self.velocity,
    {
        &self.velocity
    }

    /// The body's current local inertia: mass as the linear part, the
    /// angular-inertia tensor as the angular part.
    pub fn local_inertia(&self) -> (r: Inertia3<N>)
        ensures
            r == (Inertia3 { linear: self.mass, angular: self.angular_inertia }),
    {
        Inertia3 { linear: self.mass, angular: self.angular_inertia }
    }
}

} // verus!
