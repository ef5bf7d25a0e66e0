use vstd::prelude::*;

verus! {

/// One of the three world axes.
#[derive(Debug, Clone, Copy, PartialEq, Eq, Structural)]
pub enum Axis {
    X,
    Y,
    Z,
}

impl Axis {
    /// Component index of the axis in an `(x, y, z)` triple.
    pub open spec fn spec_index(self) -> int {
        match self {
            Axis::X => 0,
            Axis::Y => 1,
            Axis::Z => 2,
        }
    }

    /// The axis that follows this one in the cyclic order X, Y, Z.
    pub open spec fn spec_next(self) -> Axis {
        match self {
            Axis::X => Axis::Y,
            Axis::Y => Axis::Z,
            Axis::Z => Axis::X,
        }
    }

    pub fn index(self) -> (r: usize)
        ensures
            r == self.spec_index(),
    {
        match self {
            Axis::X => 0,
            Axis::Y => 1,
            Axis::Z => 2,
        }
    }

    pub fn next(self) -> (r: Axis)
        ensures
            r == self.spec_next(),
    {
        match self {
            Axis::X => Axis::Y,
            Axis::Y => Axis::Z,
            Axis::Z => Axis::X,
        }
    }
}

/// Number of faces of a box.
pub const FACE_COUNT: usize = 6;

/// A face of an axis-aligned box.
#[derive(Debug, Clone, Copy, PartialEq, Eq, Structural)]
pub enum BoxFace {
    Left,
    Right,
    Top,
    Bottom,
    Back,
    Front,
}

impl BoxFace {
    /// Position of the face in the order in which faces are tested against a segment.
    pub open spec fn spec_order(self) -> int {
        match self {
            BoxFace::Left => 0,
            BoxFace::Right => 1,
            BoxFace::Top => 2,
            BoxFace::Bottom => 3,
            BoxFace::Back => 4,
            BoxFace::Front => 5,
        }
    }

    /// The axis that the face is perpendicular to.
    pub open spec fn spec_axis(self) -> Axis {
        match self {
            BoxFace::Left | BoxFace::Right => Axis::X,
            BoxFace::Top | BoxFace::Bottom => Axis::Y,
            BoxFace::Back | BoxFace::Front => Axis::Z,
        }
    }

    /// Sign of the face normal along its axis.
    pub open spec fn spec_sign(self) -> int {
        match self {
            BoxFace::Left | BoxFace::Top | BoxFace::Back => 1,
            BoxFace::Right | BoxFace::Bottom | BoxFace::Front => -1,
        }
    }

    /// Component `k` of the unit normal of the face.
    pub open spec fn normal_component(self, k: int) -> int {
        if k == self.spec_axis().spec_index() {
            self.spec_sign()
        } else {
            0
        }
    }

    /// The face at position `i` of the test order.
    pub fn from_order(i: usize) -> (r: BoxFace)
        requires
            i < FACE_COUNT,
        ensures
            r.spec_order() == i,
    {
        match i {
            0 => BoxFace::Left,
            1 => BoxFace::Right,
            2 => BoxFace::Top,
            3 => BoxFace::Bottom,
            4 => BoxFace::Back,
            _ => BoxFace::Front,
        }
    }

    pub fn order(self) -> (r: usize)
        ensures
            r == self.spec_order(),
    {
        match self {
            BoxFace::Left => 0,
            BoxFace::Right => 1,
            BoxFace::Top => 2,
            BoxFace::Bottom => 3,
            BoxFace::Back => 4,
            BoxFace::Front => 5,
        }
    }

    pub fn axis(self) -> (r: Axis)
        ensures
            r == self.spec_axis(),
    {
        match self {
            BoxFace::Left | BoxFace::Right => Axis::X,
            BoxFace::Top | BoxFace::Bottom => Axis::Y,
            BoxFace::Back | BoxFace::Front => Axis::Z,
        }
    }

    /// The face's axis followed by the two other axes in cyclic order: the
    /// axis along which a segment has to cross the face, then the two axes
    /// that span the face.
    pub fn axes(self) -> (r: (Axis, Axis, Axis))
        ensures
            r.0 == self.spec_axis(),
            r.1 == self.spec_axis().spec_next(),
            r.2 == self.spec_axis().spec_next().spec_next(),
    {
        let primary = self.axis();
        let secondary = primary.next();
        (primary, secondary, secondary.next())
    }

    /// The outward unit normal of the face, as exact `(x, y, z)` components.
    pub fn normal(self) -> (r: (i8, i8, i8))
        ensures
            r.0 == self.normal_component(0),
            r.1 == self.normal_component(1),
            r.2 == self.normal_component(2),
    {
        match self {
            BoxFace::Left => (1, 0, 0),
            BoxFace::Right => (-1, 0, 0),
            BoxFace::Top => (0, 1, 0),
            BoxFace::Bottom => (0, -1, 0),
            BoxFace::Back => (0, 0, 1),
            BoxFace::Front => (0, 0, -1),
        }
    }
}

/// Whether the face at position `i` of the test order is reported as hit:
/// the segment does not point away from it and crosses it.
pub open spec fn face_accepted(points_away: Seq<bool>, crosses: Seq<bool>, i: int) -> bool {
    !points_away[i] && crosses[i]
}

/// Chooses the face that a segment hits, given for each face, in test order,
/// whether the segment direction points away from it (a positive dot product
/// with its normal) and whether the segment crosses it. The first face in
/// test order that does not point away and is crossed wins; `None` when no
/// face qualifies.
pub fn select_intersecting_face(
    points_away: &[bool; FACE_COUNT],
    crosses: &[bool; FACE_COUNT],
) -> (r: Option<BoxFace>)
    ensures
        match r {
            Some(face) => {
                &&& face_accepted(points_away@, crosses@, face.spec_order())
                &&& forall|j: int|
                    0 <= j < face.spec_order() ==> !face_accepted(points_away@, crosses@, j)
            },
            None => forall|j: int| 0 <= j < FACE_COUNT ==> !face_accepted(points_away@, crosses@, j),
        },
{
    let mut i: usize = 0;
    while i < FACE_COUNT
        invariant
            i <= FACE_COUNT,
            forall|j: int| 0 <= j < i ==> !face_accepted(points_away@, crosses@, j),
        decreases FACE_COUNT - i,
    {
        if !points_away[i] && crosses[i] {
            return Some(BoxFace::from_order(i));
        }
        i = i + 1;
    }
    None
}

} // verus!
