//! Synchronisation layer between a data-oriented entity store and an external
//! rigid-body physics engine.
//!
//! Entities carry a [`PhysicsBody`] component describing the desired physical
//! behaviour of a single rigid body together with an accumulator of external
//! forces, and a placement component implementing [`Position`]. The engine
//! owns the authoritative simulation state; this crate provides the verified
//! data transformations between the two: descriptor construction at creation
//! time, the per-tick push of local state (draining accumulated forces
//! exactly once) into the engine-side body, and the per-tick pull of
//! engine-computed state back into the component.

pub mod math;
pub mod object;
pub mod bodies;
pub mod position;

pub use math::{Scalar, Fixed, Vector3, Point3, Matrix3, Quaternion, Isometry3, Velocity3, Force3, Inertia3};
pub use object::{BodyStatus, BodyHandle, RigidBody, RigidBodyDesc};
pub use bodies::{PhysicsBody, PhysicsBodyBuilder, BodyView, BuilderView};
pub use position::{Position, SimplePosition};
