//! The six axes of the arm and their fixed defaults.

use vstd::prelude::*;

use crate::frame::FrameId;

verus! {

/// One of the six independently addressed motor controllers.
#[derive(Copy, Clone, Debug, PartialEq, Eq, Structural, PartialOrd, Ord, Hash)]
pub enum Axis {
    X,
    Y,
    Z,
    A,
    B,
    C,
}

/// The axes in their bus order.
pub open spec fn spec_all_axes() -> Seq<Axis> {
    seq![Axis::X, Axis::Y, Axis::Z, Axis::A, Axis::B, Axis::C]
}

impl Axis {
    /// The axis's bus address, 1 to 6.
    pub open spec fn spec_address(self) -> u16 {
        match self {
            Axis::X => 1,
            Axis::Y => 2,
            Axis::Z => 3,
            Axis::A => 4,
            Axis::B => 5,
            Axis::C => 6,
        }
    }

    pub open spec fn spec_id(self) -> FrameId {
        FrameId::Standard(self.spec_address())
    }

    pub open spec fn spec_default_speed(self) -> u16 {
        match self {
            Axis::X | Axis::Y | Axis::Z => 300,
            Axis::A | Axis::B | Axis::C => 500,
        }
    }

    pub open spec fn spec_default_accel(self) -> u8 {
        match self {
            Axis::X | Axis::Y | Axis::Z => 176,
            Axis::A => 216,
            Axis::B | Axis::C => 236,
        }
    }

    /// The standard identifier that addresses this axis on the bus.
    pub fn id(&self) -> (r: FrameId)
        ensures
            r == self.spec_id(),
            r.is_valid(),
    {
        match *self {
            Axis::X => FrameId::Standard(1),
            Axis::Y => FrameId::Standard(2),
            Axis::Z => FrameId::Standard(3),
            Axis::A => FrameId::Standard(4),
            Axis::B => FrameId::Standard(5),
            Axis::C => FrameId::Standard(6),
        }
    }

    /// Speed used for moves when none is given, in RPM.
    pub fn default_speed(&self) -> (r: u16)
        ensures
            r == self.spec_default_speed(),
    {
        match *self {
            Axis::X => 300,
            Axis::Y => 300,
            Axis::Z => 300,
            Axis::A => 500,
            Axis::B => 500,
            Axis::C => 500,
        }
    }

    /// Raw acceleration used for moves when none is given.
    pub fn default_accel(&self) -> (r: u8)
        ensures
            r == self.spec_default_accel(),
    {
        match *self {
            Axis::X => 176,
            Axis::Y => 176,
            Axis::Z => 176,
            Axis::A => 216,
            Axis::B => 236,
            Axis::C => 236,
        }
    }
}

/// The axes an operation runs on: all six when `all` is set, else those given.
pub fn select_axes(all: bool, axes: &Vec<Axis>) -> (r: Vec<Axis>)
    ensures
        all ==> r@ == spec_all_axes(),
        !all ==> r@ == axes@,
{
    if all {
        let r = vec![Axis::X, Axis::Y, Axis::Z, Axis::A, Axis::B, Axis::C];
        assert(r@ =~= spec_all_axes());
        r
    } else {
        axes.clone()
    }
}

} // verus!
