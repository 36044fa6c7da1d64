use vstd::prelude::*;
use crate::math::{Scalar, Isometry3};

verus! {

/// Capability contract for "has a rigid 3D transform": any concrete placement
/// component a store attaches to an entity can satisfy it. The synchronising
/// driver positions engine bodies from it before stepping and writes the
/// simulated poses back through it afterwards.
///
/// The spec function `pose` is the component's abstract transform; the three
/// executable methods are pinned to it.
pub trait Position<N: Scalar>: Sized {
    /// The rigid transform the component currently holds.
    spec fn pose(&self) -> Isometry3<N>;

    /// Read access to the transform.
    fn isometry(&self) -> (r: &Isometry3<N>)
        ensures
            *r == self.pose(),
    ;

    /// Mutable access to the transform.
    fn isometry_mut(&mut self) -> (r: &mut Isometry3<N>)
        ensures
            *r == old(self).pose(),
            final(self).pose() == *final(r),
    ;

    /// Copies rotation and translation — and deliberately nothing else — from
    /// `isometry` into the component's transform.
    fn set_isometry(&mut self, isometry: &Isometry3<N>) -> (r: &mut Self)
        ensures
            r.pose() == *isometry,
            *final(self) == *final(r),
    ;
}

/// Minimal built-in placement component: wraps a single transform and exposes
/// it directly, for callers who do not need a richer component.
#[derive(Clone, Copy, Debug, PartialEq, Eq)]
pub struct SimplePosition<N>(pub Isometry3<N>);

impl<N: Scalar> Position<N> for SimplePosition<N> {
    open spec fn pose(&self) -> Isometry3<N> {
        self.0
    }

    fn isometry(&self) -> (r: &Isometry3<N>) {
        &self.0
    }

    fn isometry_mut(&mut self) -> (r: &mut Isometry3<N>) {
        &mut self.0
    }

    fn set_isometry(&mut self, isometry: &Isometry3<N>) -> (r: &mut Self) {
        self.0.rotation = isometry.rotation;
        self.0.translation = isometry.translation;
        self
    }
}

} // verus!
