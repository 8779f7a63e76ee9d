//! Exact fixed-point physical quantities and the wrench algebra.
//!
//! Verified code carries no floating-point values, so every physical
//! magnitude is held as an exact integer count of micro-units: a
//! [`Force`] component is a number of micronewtons, a [`Torque`]
//! component a number of micronewton-metres.  Keeping force and torque
//! as distinct types means quantities of different dimensions can never
//! be added or subtracted by accident; the arithmetic that is offered
//! is exactly the dimension-consistent part.

use vstd::prelude::*;

verus! {

/// How many integer steps make up one physical unit (newton or
/// newton-metre).  One step is therefore a micro-unit.
pub const MICRO_STEPS_PER_UNIT: i64 = 1_000_000;

/// A force along one axis, held exactly as an integer number of
/// micronewtons.
#[derive(Clone, Copy, Debug, PartialEq, Eq, Structural)]
pub struct Force {
    /// The magnitude in units of 1e-6 newton.
    pub micronewtons: i64,
}

/// A torque about one axis, held exactly as an integer number of
/// micronewton-metres.
#[derive(Clone, Copy, Debug, PartialEq, Eq, Structural)]
pub struct Torque {
    /// The magnitude in units of 1e-6 newton-metre.
    pub micronewton_meters: i64,
}

impl Force {
    /// The value of `self + rhs`, truncated to the machine word.
    pub open spec fn spec_add(self, rhs: Force) -> Force {
        Force { micronewtons: (self.micronewtons + rhs.micronewtons) as i64 }
    }

    /// The value of `self - rhs`, truncated to the machine word.
    pub open spec fn spec_sub(self, rhs: Force) -> Force {
        Force { micronewtons: (self.micronewtons - rhs.micronewtons) as i64 }
    }

    pub fn new(micronewtons: i64) -> (r: Force)
        ensures
            r.micronewtons == micronewtons,
    {
        Force { micronewtons }
    }

    pub fn zero() -> (r: Force)
        ensures
            r.micronewtons == 0,
    {
        Force { micronewtons: 0 }
    }

    pub fn add(self, rhs: Force) -> (r: Force)
        requires
            i64::MIN <= self.micronewtons + rhs.micronewtons <= i64::MAX,
        ensures
            r.micronewtons == self.micronewtons + rhs.micronewtons,
            r == self.spec_add(rhs),
    {
        Force { micronewtons: self.micronewtons + rhs.micronewtons }
    }

    pub fn sub(self, rhs: Force) -> (r: Force)
        requires
            i64::MIN <= self.micronewtons - rhs.micronewtons <= i64::MAX,
        ensures
            r.micronewtons == self.micronewtons - rhs.micronewtons,
            r == self.spec_sub(rhs),
    {
        Force { micronewtons: self.micronewtons - rhs.micronewtons }
    }
}

impl Torque {
    /// The value of `self + rhs`, truncated to the machine word.
    pub open spec fn spec_add(self, rhs: Torque) -> Torque {
        Torque { micronewton_meters: (self.micronewton_meters + rhs.micronewton_meters) as i64 }
    }

    /// The value of `self - rhs`, truncated to the machine word.
    pub open spec fn spec_sub(self, rhs: Torque) -> Torque {
        Torque { micronewton_meters: (self.micronewton_meters - rhs.micronewton_meters) as i64 }
    }

    pub fn new(micronewton_meters: i64) -> (r: Torque)
        ensures
            r.micronewton_meters == micronewton_meters,
    {
        Torque { micronewton_meters }
    }

    pub fn zero() -> (r: Torque)
        ensures
            r.micronewton_meters == 0,
    {
        Torque { micronewton_meters: 0 }
    }

    pub fn add(self, rhs: Torque) -> (r: Torque)
        requires
            i64::MIN <= self.micronewton_meters + rhs.micronewton_meters <= i64::MAX,
        ensures
            r.micronewton_meters == self.micronewton_meters + rhs.micronewton_meters,
            r == self.spec_add(rhs),
    {
        Torque { micronewton_meters: self.micronewton_meters + rhs.micronewton_meters }
    }

    pub fn sub(self, rhs: Torque) -> (r: Torque)
        requires
            i64::MIN <= self.micronewton_meters - rhs.micronewton_meters <= i64::MAX,
        ensures
            r.micronewton_meters == self.micronewton_meters - rhs.micronewton_meters,
            r == self.spec_sub(rhs),
    {
        Torque { micronewton_meters: self.micronewton_meters - rhs.micronewton_meters }
    }
}

/// A fixed container of exactly three values of one quantity type, in
/// axis order x, y, z.
#[derive(Clone, Copy, Debug, PartialEq, Eq, Structural)]
pub struct Triplet<T> {
    pub x: T,
    pub y: T,
    pub z: T,
}

impl<T> Triplet<T> {
    pub fn new(x: T, y: T, z: T) -> (r: Triplet<T>)
        ensures
            r.x == x,
            r.y == y,
            r.z == z,
    {
        Triplet { x, y, z }
    }
}

/// A wrench: a three-axis force paired with a three-axis torque.
#[derive(Clone, Copy, Debug, PartialEq, Eq, Structural)]
pub struct Wrench {
    /// The force part, axes x, y, z.
    pub force: Triplet<Force>,
    /// The torque part, axes x, y, z.
    pub torque: Triplet<Torque>,
}

/// The wrench whose six components are all zero.
pub open spec fn spec_zeroed() -> Wrench {
    Wrench {
        force: Triplet {
            x: Force { micronewtons: 0 },
            y: Force { micronewtons: 0 },
            z: Force { micronewtons: 0 },
        },
        torque: Triplet {
            x: Torque { micronewton_meters: 0 },
            y: Torque { micronewton_meters: 0 },
            z: Torque { micronewton_meters: 0 },
        },
    }
}

/// Axis-wise sum of two wrenches: force with force, torque with
/// torque, each axis on its own.
pub open spec fn spec_add(a: Wrench, b: Wrench) -> Wrench {
    Wrench {
        force: Triplet {
            x: a.force.x.spec_add(b.force.x),
            y: a.force.y.spec_add(b.force.y),
            z: a.force.z.spec_add(b.force.z),
        },
        torque: Triplet {
            x: a.torque.x.spec_add(b.torque.x),
            y: a.torque.y.spec_add(b.torque.y),
            z: a.torque.z.spec_add(b.torque.z),
        },
    }
}

/// Axis-wise difference of two wrenches.
pub open spec fn spec_sub(a: Wrench, b: Wrench) -> Wrench {
    Wrench {
        force: Triplet {
            x: a.force.x.spec_sub(b.force.x),
            y: a.force.y.spec_sub(b.force.y),
            z: a.force.z.spec_sub(b.force.z),
        },
        torque: Triplet {
            x: a.torque.x.spec_sub(b.torque.x),
            y: a.torque.y.spec_sub(b.torque.y),
            z: a.torque.z.spec_sub(b.torque.z),
        },
    }
}

impl Wrench {
    /// The component on axis `i`, as a mathematical integer.  Axes are
    /// numbered 0..6 in the order force x, y, z, then torque x, y, z.
    pub open spec fn axis(self, i: int) -> int {
        if i == 0 {
            self.force.x.micronewtons as int
        } else if i == 1 {
            self.force.y.micronewtons as int
        } else if i == 2 {
            self.force.z.micronewtons as int
        } else if i == 3 {
            self.torque.x.micronewton_meters as int
        } else if i == 4 {
            self.torque.y.micronewton_meters as int
        } else {
            self.torque.z.micronewton_meters as int
        }
    }

    /// True when every axis sum of `a + b` fits the machine word, so
    /// that addition is exact.
    pub open spec fn add_fits(a: Wrench, b: Wrench) -> bool {
        &&& i64::MIN <= a.force.x.micronewtons + b.force.x.micronewtons <= i64::MAX
        &&& i64::MIN <= a.force.y.micronewtons + b.force.y.micronewtons <= i64::MAX
        &&& i64::MIN <= a.force.z.micronewtons + b.force.z.micronewtons <= i64::MAX
        &&& i64::MIN <= a.torque.x.micronewton_meters + b.torque.x.micronewton_meters <= i64::MAX
        &&& i64::MIN <= a.torque.y.micronewton_meters + b.torque.y.micronewton_meters <= i64::MAX
        &&& i64::MIN <= a.torque.z.micronewton_meters + b.torque.z.micronewton_meters <= i64::MAX
    }

    /// True when every axis difference of `a - b` fits the machine
    /// word, so that subtraction is exact.
    pub open spec fn sub_fits(a: Wrench, b: Wrench) -> bool {
        &&& i64::MIN <= a.force.x.micronewtons - b.force.x.micronewtons <= i64::MAX
        &&& i64::MIN <= a.force.y.micronewtons - b.force.y.micronewtons <= i64::MAX
        &&& i64::MIN <= a.force.z.micronewtons - b.force.z.micronewtons <= i64::MAX
        &&& i64::MIN <= a.torque.x.micronewton_meters - b.torque.x.micronewton_meters <= i64::MAX
        &&& i64::MIN <= a.torque.y.micronewton_meters - b.torque.y.micronewton_meters <= i64::MAX
        &&& i64::MIN <= a.torque.z.micronewton_meters - b.torque.z.micronewton_meters <= i64::MAX
    }

    pub fn new(force: Triplet<Force>, torque: Triplet<Torque>) -> (r: Wrench)
        ensures
            r.force == force,
            r.torque == torque,
    {
        Wrench { force, torque }
    }

    /// The wrench with zero force and zero torque on every axis.
    pub fn zeroed() -> (r: Wrench)
        ensures
            r == spec_zeroed(),
    {
        Wrench {
            force: Triplet { x: Force::zero(), y: Force::zero(), z: Force::zero() },
            torque: Triplet { x: Torque::zero(), y: Torque::zero(), z: Torque::zero() },
        }
    }

    /// Axis-wise exact addition; each output axis is the sum of the
    /// same axis of the two inputs and of nothing else.
    pub fn add(self, rhs: Wrench) -> (r: Wrench)
        requires
            Wrench::add_fits(self, rhs),
        ensures
            r == spec_add(self, rhs),
            forall|i: int| 0 <= i < 6 ==> r.axis(i) == self.axis(i) + rhs.axis(i),
    {
        Wrench {
            force: Triplet {
                x: self.force.x.add(rhs.force.x),
                y: self.force.y.add(rhs.force.y),
                z: self.force.z.add(rhs.force.z),
            },
            torque: Triplet {
                x: self.torque.x.add(rhs.torque.x),
                y: self.torque.y.add(rhs.torque.y),
                z: self.torque.z.add(rhs.torque.z),
            },
        }
    }

    /// Axis-wise exact subtraction; each output axis is the difference
    /// of the same axis of the two inputs and of nothing else.
    pub fn sub(self, rhs: Wrench) -> (r: Wrench)
        requires
            Wrench::sub_fits(self, rhs),
        ensures
            r == spec_sub(self, rhs),
            forall|i: int| 0 <= i < 6 ==> r.axis(i) == self.axis(i) - rhs.axis(i),
    {
        Wrench {
            force: Triplet {
                x: self.force.x.sub(rhs.force.x),
                y: self.force.y.sub(rhs.force.y),
                z: self.force.z.sub(rhs.force.z),
            },
            torque: Triplet {
                x: self.torque.x.sub(rhs.torque.x),
                y: self.torque.y.sub(rhs.torque.y),
                z: self.torque.z.sub(rhs.torque.z),
            },
        }
    }
}

/// The zero wrench is the additive identity: `zeroed() + w == w` on
/// either side, for every wrench `w`.
pub proof fn lemma_zero_add(w: Wrench)
    ensures
        spec_add(spec_zeroed(), w) == w,
        spec_add(w, spec_zeroed()) == w,
{
}

/// Subtracting a wrench from itself gives the zero wrench:
/// `w - w == zeroed()` for every wrench `w`.
pub proof fn lemma_sub_self(w: Wrench)
    ensures
        spec_sub(w, w) == spec_zeroed(),
{
}

/// Wrench addition is commutative.
pub proof fn lemma_add_comm(a: Wrench, b: Wrench)
    ensures
        spec_add(a, b) == spec_add(b, a),
{
}

/// Wrench addition is associative whenever the sums fit the machine
/// word.
pub proof fn lemma_add_assoc(a: Wrench, b: Wrench, c: Wrench)
    requires
        Wrench::add_fits(a, b),
        Wrench::add_fits(b, c),
        Wrench::add_fits(spec_add(a, b), c),
    ensures
        spec_add(spec_add(a, b), c) == spec_add(a, spec_add(b, c)),
{
}

/// Addition and subtraction are axis-wise: the component of the result
/// on axis `i` is determined by the components of the operands on axis
/// `i` alone, so changing one axis of an input can never affect any
/// other axis of the result.
pub proof fn lemma_axiswise(a: Wrench, b: Wrench, i: int)
    requires
        0 <= i < 6,
    ensures
        i64::MIN <= a.axis(i) + b.axis(i) <= i64::MAX ==> spec_add(a, b).axis(i) == a.axis(i)
            + b.axis(i),
        i64::MIN <= a.axis(i) - b.axis(i) <= i64::MAX ==> spec_sub(a, b).axis(i) == a.axis(i)
            - b.axis(i),
{
}

} // verus!
