//! The six planes of a view frustum and where each comes from.
//!
//! A plane is read off a combined projection-view matrix by taking row 3
//! and adding or subtracting one of the rows 0 to 2 (Gribb and Hartmann).
//! This module holds that table; the arithmetic on the rows is the
//! caller's.

use vstd::prelude::*;

verus! {

/// One of the six planes that bound a view frustum.
#[derive(Copy, Clone, Debug, PartialEq, Eq, Structural)]
pub enum FrustumPlaneType {
    Near,
    Far,
    Left,
    Right,
    Top,
    Bottom,
}

impl FrustumPlaneType {
    /// The plane's place in the order near, far, left, right, top, bottom.
    pub open spec fn spec_index(self) -> int {
        match self {
            FrustumPlaneType::Near => 0,
            FrustumPlaneType::Far => 1,
            FrustumPlaneType::Left => 2,
            FrustumPlaneType::Right => 3,
            FrustumPlaneType::Top => 4,
            FrustumPlaneType::Bottom => 5,
        }
    }

    /// The plane at place `index`, if there is one.
    pub open spec fn spec_from_index(index: int) -> Option<Self> {
        if index == 0 {
            Some(FrustumPlaneType::Near)
        } else if index == 1 {
            Some(FrustumPlaneType::Far)
        } else if index == 2 {
            Some(FrustumPlaneType::Left)
        } else if index == 3 {
            Some(FrustumPlaneType::Right)
        } else if index == 4 {
            Some(FrustumPlaneType::Top)
        } else if index == 5 {
            Some(FrustumPlaneType::Bottom)
        } else {
            None
        }
    }

    /// The matrix row that is combined with row 3 to give the plane:
    /// row 2 for near and far, row 0 for left and right, row 1 for top and
    /// bottom.
    pub open spec fn spec_row(self) -> int {
        match self {
            FrustumPlaneType::Near | FrustumPlaneType::Far => 2,
            FrustumPlaneType::Left | FrustumPlaneType::Right => 0,
            FrustumPlaneType::Top | FrustumPlaneType::Bottom => 1,
        }
    }

    /// Whether that row is added to row 3 (near, left, bottom) or
    /// subtracted from it (far, right, top).
    pub open spec fn spec_adds(self) -> bool {
        match self {
            FrustumPlaneType::Near | FrustumPlaneType::Left | FrustumPlaneType::Bottom => true,
            FrustumPlaneType::Far | FrustumPlaneType::Right | FrustumPlaneType::Top => false,
        }
    }

    /// The six planes, each at its index.
    pub fn all() -> (planes: [FrustumPlaneType; 6])
        ensures
            forall|i: int| 0 <= i < 6 ==> Self::spec_from_index(i) == Some(#[trigger] planes[i]),
    {
        [
            FrustumPlaneType::Near,
            FrustumPlaneType::Far,
            FrustumPlaneType::Left,
            FrustumPlaneType::Right,
            FrustumPlaneType::Top,
            FrustumPlaneType::Bottom,
        ]
    }

    /// The index of the plane in an array of six.
    pub fn index(self) -> (index: usize)
        ensures
            index == self.spec_index(),
            index < 6,
    {
        match self {
            FrustumPlaneType::Near => 0,
            FrustumPlaneType::Far => 1,
            FrustumPlaneType::Left => 2,
            FrustumPlaneType::Right => 3,
            FrustumPlaneType::Top => 4,
            FrustumPlaneType::Bottom => 5,
        }
    }

    /// The plane stored at `index` of an array of six; `None` from 6 on.
    pub fn from_index(index: usize) -> (plane: Option<Self>)
        ensures
            plane == Self::spec_from_index(index as int),
            plane is Some <==> index < 6,
    {
        match index {
            0 => Some(FrustumPlaneType::Near),
            1 => Some(FrustumPlaneType::Far),
            2 => Some(FrustumPlaneType::Left),
            3 => Some(FrustumPlaneType::Right),
            4 => Some(FrustumPlaneType::Top),
            5 => Some(FrustumPlaneType::Bottom),
            _ => None,
        }
    }

    /// The matrix row that is combined with row 3.
    pub fn row(self) -> (row: usize)
        ensures
            row == self.spec_row(),
            row < 3,
    {
        match self {
            FrustumPlaneType::Near | FrustumPlaneType::Far => 2,
            FrustumPlaneType::Left | FrustumPlaneType::Right => 0,
            FrustumPlaneType::Top | FrustumPlaneType::Bottom => 1,
        }
    }

    /// Whether the row is added to row 3 rather than subtracted from it.
    pub fn adds(self) -> (adds: bool)
        ensures
            adds == self.spec_adds(),
    {
        match self {
            FrustumPlaneType::Near | FrustumPlaneType::Left | FrustumPlaneType::Bottom => true,
            FrustumPlaneType::Far | FrustumPlaneType::Right | FrustumPlaneType::Top => false,
        }
    }

    /// Planes and the indices 0 to 5 stand one for one.
    pub proof fn lemma_index_round_trip(self, index: int)
        ensures
            0 <= self.spec_index() < 6,
            Self::spec_from_index(self.spec_index()) == Some(self),
            0 <= index < 6 <==> Self::spec_from_index(index) is Some,
            Self::spec_from_index(index) matches Some(plane) ==> plane.spec_index() == index,
    {
    }

    /// Each of the rows 0 to 2 gives two planes, one by adding and one by
    /// subtracting: a plane is known by its row and its sign.
    pub proof fn lemma_row_and_sign(self, other: Self, row: int, adds: bool)
        ensures
            0 <= self.spec_row() < 3,
            self.spec_row() == other.spec_row() && self.spec_adds() == other.spec_adds() ==> self
                == other,
            0 <= row < 3 ==> exists|plane: Self|
                #[trigger] plane.spec_row() == row && plane.spec_adds() == adds,
    {
        if 0 <= row < 3 {
            let plane = if row == 2 {
                if adds {
                    FrustumPlaneType::Near
                } else {
                    FrustumPlaneType::Far
                }
            } else if row == 0 {
                if adds {
                    FrustumPlaneType::Left
                } else {
                    FrustumPlaneType::Right
                }
            } else {
                if adds {
                    FrustumPlaneType::Bottom
                } else {
                    FrustumPlaneType::Top
                }
            };
            assert(plane.spec_row() == row && plane.spec_adds() == adds);
        }
    }
}

} // verus!
