use vstd::prelude::*;

verus! {

/// A scalar number type for physical quantities.
///
/// The synchronisation layer never does real arithmetic of its own: it only
/// copies scalars, adds them when accumulating external forces, and
/// materialises two constants (zero, and the conventional default mass of a
/// freshly built body). Each executable operation is pinned to a
/// specification-level counterpart so that contracts can speak about exact
/// values whatever the concrete scalar representation is.
pub trait Scalar: Copy + Sized {
    /// The value `zero` returns.
    spec fn spec_zero() -> Self;

    /// The value `default_mass` returns.
    spec fn spec_default_mass() -> Self;

    /// Whether `add` may be called: for bounded representations, whether the
    /// exact sum of the two values is representable.
    spec fn add_req(self, rhs: Self) -> bool;

    /// The value `add` returns.
    spec fn spec_add(self, rhs: Self) -> Self;

    /// The additive identity.
    fn zero() -> (r: Self)
        ensures
            r == Self::spec_zero(),
    ;

    /// The mass a newly built body gets when the builder is not told
    /// otherwise: the number 1.2, in whatever way the scalar type encodes it.
    fn default_mass() -> (r: Self)
        ensures
            r == Self::spec_default_mass(),
    ;

    /// Exact addition.
    fn add(self, rhs: Self) -> (r: Self)
        requires
            self.add_req(rhs),
        ensures
            r == self.spec_add(rhs),
    ;
}

/// A decimal fixed-point scalar: a quantity counted in tenths of a unit, so
/// `Fixed(12)` denotes the number 1.2. One fractional decimal digit suffices
/// to represent exactly every constant this layer itself introduces.
#[derive(Clone, Copy, Debug, PartialEq, Eq, Structural)]
pub struct Fixed(pub i64);

impl Scalar for Fixed {
    open spec fn spec_zero() -> Fixed {
        Fixed(0)
    }

    open spec fn spec_default_mass() -> Fixed {
        Fixed(12)
    }

    open spec fn add_req(self, rhs: Fixed) -> bool {
        i64::MIN <= self.0 + rhs.0 <= i64::MAX
    }

    open spec fn spec_add(self, rhs: Fixed) -> Fixed {
        Fixed((self.0 + rhs.0) as i64)
    }

    fn zero() -> (r: Fixed) {
        Fixed(0)
    }

    fn default_mass() -> (r: Fixed) {
        Fixed(12)
    }

    fn add(self, rhs: Fixed) -> (r: Fixed) {
        Fixed(self.0 + rhs.0)
    }
}

/// A vector with three named components.
#[derive(Clone, Copy, Debug, PartialEq, Eq)]
pub struct Vector3<T> {
    pub x: T,
    pub y: T,
    pub z: T,
}

impl<T> Vector3<T> {
    pub fn new(x: T, y: T, z: T) -> (r: Vector3<T>)
        ensures
            r == (Vector3 { x, y, z }),
    {
        Vector3 { x, y, z }
    }
}

impl<N: Scalar> Vector3<N> {
    /// The zero vector.
    pub open spec fn spec_zeros() -> Vector3<N> {
        Vector3 { x: N::spec_zero(), y: N::spec_zero(), z: N::spec_zero() }
    }

    /// Whether the componentwise sum of `self` and `rhs` is representable.
    pub open spec fn add_req(self, rhs: Vector3<N>) -> bool {
        self.x.add_req(rhs.x) && self.y.add_req(rhs.y) && self.z.add_req(rhs.z)
    }

    /// The componentwise sum of `self` and `rhs`.
    pub open spec fn spec_add(self, rhs: Vector3<N>) -> Vector3<N> {
        Vector3 { x: self.x.spec_add(rhs.x), y: self.y.spec_add(rhs.y), z: self.z.spec_add(rhs.z) }
    }

    pub fn zeros() -> (r: Vector3<N>)
        ensures
            r == Self::spec_zeros(),
    {
        Vector3 { x: N::zero(), y: N::zero(), z: N::zero() }
    }

    pub fn add(self, rhs: Vector3<N>) -> (r: Vector3<N>)
        requires
            self.add_req(rhs),
        ensures
            r == self.spec_add(rhs),
    {
        Vector3 { x: self.x.add(rhs.x), y: self.y.add(rhs.y), z: self.z.add(rhs.z) }
    }
}

/// A point in 3-space, used for body-local positions such as the centre of
/// mass.
#[derive(Clone, Copy, Debug, PartialEq, Eq)]
pub struct Point3<N> {
    pub x: N,
    pub y: N,
    pub z: N,
}

impl<N: Scalar> Point3<N> {
    /// The origin.
    pub open spec fn spec_origin() -> Point3<N> {
        Point3 { x: N::spec_zero(), y: N::spec_zero(), z: N::spec_zero() }
    }

    pub fn origin() -> (r: Point3<N>)
        ensures
            r == Self::spec_origin(),
    {
        Point3 { x: N::zero(), y: N::zero(), z: N::zero() }
    }
}

/// A 3x3 matrix, used for the angular-inertia tensor. Row-major field
/// naming: `m23` is row 2, column 3.
#[derive(Clone, Copy, Debug, PartialEq, Eq)]
pub struct Matrix3<N> {
    pub m11: N,
    pub m12: N,
    pub m13: N,
    pub m21: N,
    pub m22: N,
    pub m23: N,
    pub m31: N,
    pub m32: N,
    pub m33: N,
}

impl<N: Scalar> Matrix3<N> {
    /// The zero matrix.
    pub open spec fn spec_zeros() -> Matrix3<N> {
        Matrix3 {
            m11: N::spec_zero(),
            m12: N::spec_zero(),
            m13: N::spec_zero(),
            m21: N::spec_zero(),
            m22: N::spec_zero(),
            m23: N::spec_zero(),
            m31: N::spec_zero(),
            m32: N::spec_zero(),
            m33: N::spec_zero(),
        }
    }

    pub fn zeros() -> (r: Matrix3<N>)
        ensures
            r == Self::spec_zeros(),
    {
        Matrix3 {
            m11: N::zero(),
            m12: N::zero(),
            m13: N::zero(),
            m21: N::zero(),
            m22: N::zero(),
            m23: N::zero(),
            m31: N::zero(),
            m32: N::zero(),
            m33: N::zero(),
        }
    }
}

/// A rotation stored as quaternion coordinates. This layer only ever copies
/// rotations; it neither normalises nor composes them.
#[derive(Clone, Copy, Debug, PartialEq, Eq)]
pub struct Quaternion<N> {
    pub x: N,
    pub y: N,
    pub z: N,
    pub w: N,
}

/// A rigid transform: a rotation followed by a translation. Deliberately
/// nothing else (no scale), so that copying one between components can never
/// corrupt non-isometric data.
#[derive(Clone, Copy, Debug, PartialEq, Eq)]
pub struct Isometry3<N> {
    pub rotation: Quaternion<N>,
    pub translation: Vector3<N>,
}

/// A rigid-body velocity: paired linear and angular parts.
#[derive(Clone, Copy, Debug, PartialEq, Eq)]
pub struct Velocity3<N> {
    pub linear: Vector3<N>,
    pub angular: Vector3<N>,
}

impl<N: Scalar> Velocity3<N> {
    /// The velocity of a body at rest.
    pub open spec fn spec_zero() -> Velocity3<N> {
        Velocity3 { linear: Vector3::spec_zeros(), angular: Vector3::spec_zeros() }
    }

    pub fn zero() -> (r: Velocity3<N>)
        ensures
            r == Self::spec_zero(),
    {
        Velocity3 { linear: Vector3::zeros(), angular: Vector3::zeros() }
    }

    /// A purely linear velocity with the given components.
    pub fn linear(x: N, y: N, z: N) -> (r: Velocity3<N>)
        ensures
            r == (Velocity3 { linear: Vector3 { x, y, z }, angular: Vector3::spec_zeros() }),
    {
        Velocity3 { linear: Vector3 { x, y, z }, angular: Vector3::zeros() }
    }
}

/// A force/torque contribution on a rigid body: a linear force paired with an
/// angular torque.
#[derive(Clone, Copy, Debug, PartialEq, Eq)]
pub struct Force3<N> {
    pub linear: Vector3<N>,
    pub angular: Vector3<N>,
}

impl<N: Scalar> Force3<N> {
    /// The zero force.
    pub open spec fn spec_zero() -> Force3<N> {
        Force3 { linear: Vector3::spec_zeros(), angular: Vector3::spec_zeros() }
    }

    /// Whether the vector sum of `self` and `rhs` is representable.
    pub open spec fn add_req(self, rhs: Force3<N>) -> bool {
        self.linear.add_req(rhs.linear) && self.angular.add_req(rhs.angular)
    }

    /// The vector sum of `self` and `rhs`.
    pub open spec fn spec_add(self, rhs: Force3<N>) -> Force3<N> {
        Force3 { linear: self.linear.spec_add(rhs.linear), angular: self.angular.spec_add(rhs.angular) }
    }

    pub fn zero() -> (r: Force3<N>)
        ensures
            r == Self::spec_zero(),
    {
        Force3 { linear: Vector3::zeros(), angular: Vector3::zeros() }
    }

    pub fn add(self, rhs: Force3<N>) -> (r: Force3<N>)
        requires
            self.add_req(rhs),
        ensures
            r == self.spec_add(rhs),
    {
        Force3 { linear: self.linear.add(rhs.linear), angular: self.angular.add(rhs.angular) }
    }
}

/// The vector sum of a sequence of forces, summed left to right from zero.
pub open spec fn force_sum<N: Scalar>(fs: Seq<Force3<N>>) -> Force3<N>
    decreases fs.len(),
{
    if fs.len() == 0 {
        Force3::spec_zero()
    } else {
        force_sum(fs.drop_last()).spec_add(fs.last())
    }
}

/// A body's local inertia as the engine reports it: the linear part is the
/// mass, the angular part the inertia tensor.
#[derive(Clone, Copy, Debug, PartialEq, Eq)]
pub struct Inertia3<N> {
    pub linear: N,
    pub angular: Matrix3<N>,
}

} // verus!
