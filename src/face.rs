use vstd::prelude::*;

verus! {

/// A direction in space with small integer components.
///
/// The cube that a planet is projected from is axis-aligned, so every
/// direction the face construction needs has components in `-1..=1`.
#[derive(Clone, Copy, Debug, PartialEq, Eq, Structural)]
pub struct Axis {
    pub x: i8,
    pub y: i8,
    pub z: i8,
}

/// Whether every component of `v` lies in `-1..=1`.
pub open spec fn is_small(v: Axis) -> bool {
    -1 <= v.x <= 1 && -1 <= v.y <= 1 && -1 <= v.z <= 1
}

/// Whether `v` is one of the six signed coordinate unit vectors.
pub open spec fn is_unit_axis(v: Axis) -> bool {
    &&& is_small(v)
    &&& {
        ||| v.x != 0 && v.y == 0 && v.z == 0
        ||| v.x == 0 && v.y != 0 && v.z == 0
        ||| v.x == 0 && v.y == 0 && v.z != 0
    }
}

/// A product of two components in `-1..=1` stays in `-1..=1`.
proof fn lemma_small_product(a: int, b: int)
    requires
        -1 <= a <= 1,
        -1 <= b <= 1,
    ensures
        -1 <= a * b <= 1,
{
    assert(-1 <= a * b <= 1) by (nonlinear_arith)
        requires
            -1 <= a <= 1,
            -1 <= b <= 1,
    ;
}

/// Dot product of two axes, as a mathematical integer.
pub open spec fn dot(a: Axis, b: Axis) -> int {
    a.x * b.x + a.y * b.y + a.z * b.z
}

/// Components of the cross product `a × b`, as mathematical integers.
pub open spec fn cross_x(a: Axis, b: Axis) -> int {
    a.y * b.z - a.z * b.y
}

pub open spec fn cross_y(a: Axis, b: Axis) -> int {
    a.z * b.x - a.x * b.z
}

pub open spec fn cross_z(a: Axis, b: Axis) -> int {
    a.x * b.y - a.y * b.x
}

impl Axis {
    /// The cross product `self × other`.
    pub fn cross(&self, other: &Axis) -> (r: Axis)
        requires
            is_small(*self),
            is_small(*other),
        ensures
            r.x == cross_x(*self, *other),
            r.y == cross_y(*self, *other),
            r.z == cross_z(*self, *other),
    {
        proof {
            lemma_small_product(self.y as int, other.z as int);
            lemma_small_product(self.z as int, other.y as int);
            lemma_small_product(self.z as int, other.x as int);
            lemma_small_product(self.x as int, other.z as int);
            lemma_small_product(self.x as int, other.y as int);
            lemma_small_product(self.y as int, other.x as int);
        }
        Axis {
            x: self.y * other.z - self.z * other.y,
            y: self.z * other.x - self.x * other.z,
            z: self.x * other.y - self.y * other.x,
        }
    }
}

/// One of the six faces of the cube that a planet is built from.
#[derive(Clone, Copy, Debug, PartialEq, Eq, Structural)]
pub enum Face {
    Top,
    Down,
    Left,
    Right,
    Front,
    Back,
}

/// Number of faces of a planet.
pub const FACE_COUNT: usize = 6;

/// The faces in build order: top, down, left, right, front, back.
pub open spec fn face_order() -> Seq<Face> {
    seq![Face::Top, Face::Down, Face::Left, Face::Right, Face::Front, Face::Back]
}

/// The outward direction of a face.
pub open spec fn orientation_of(face: Face) -> Axis {
    match face {
        Face::Top => Axis { x: 0, y: 1, z: 0 },
        Face::Down => Axis { x: 0, y: -1i8, z: 0 },
        Face::Left => Axis { x: -1i8, y: 0, z: 0 },
        Face::Right => Axis { x: 1, y: 0, z: 0 },
        Face::Front => Axis { x: 0, y: 0, z: 1 },
        Face::Back => Axis { x: 0, y: 0, z: -1i8 },
    }
}

/// First tangent axis of a face: the components of its direction rotated
/// one place, `(up.y, up.z, up.x)`.
pub open spec fn axis_a_of(face: Face) -> Axis {
    let up = orientation_of(face);
    Axis { x: up.y, y: up.z, z: up.x }
}

/// Second tangent axis of a face: `up × axis_a`.
pub open spec fn axis_b_of(face: Face) -> Axis {
    let up = orientation_of(face);
    let a = axis_a_of(face);
    Axis { x: cross_x(up, a) as i8, y: cross_y(up, a) as i8, z: cross_z(up, a) as i8 }
}

impl Face {
    /// The outward direction of this face.
    pub fn orientation(&self) -> (r: Axis)
        ensures
            r == orientation_of(*self),
    {
        match self {
            Face::Top => Axis { x: 0, y: 1, z: 0 },
            Face::Down => Axis { x: 0, y: -1, z: 0 },
            Face::Left => Axis { x: -1, y: 0, z: 0 },
            Face::Right => Axis { x: 1, y: 0, z: 0 },
            Face::Front => Axis { x: 0, y: 0, z: 1 },
            Face::Back => Axis { x: 0, y: 0, z: -1 },
        }
    }

    /// The two tangent axes that span this face's grid, `(axis_a, axis_b)`.
    pub fn tangent_axes(&self) -> (r: (Axis, Axis))
        ensures
            r.0 == axis_a_of(*self),
            r.1 == axis_b_of(*self),
    {
        let up = self.orientation();
        let axis_a = Axis { x: up.y, y: up.z, z: up.x };
        let axis_b = up.cross(&axis_a);
        (axis_a, axis_b)
    }

    /// The six faces, in build order.
    pub fn all() -> (r: Vec<Face>)
        ensures
            r@ == face_order(),
    {
        let r = vec![Face::Top, Face::Down, Face::Left, Face::Right, Face::Front, Face::Back];
        assert(r@ =~= face_order());
        r
    }
}

/// Whether a face's direction and tangent axes form a right-handed frame of
/// unit axes: pairwise orthogonal, with `axis_a × axis_b == up`.
pub open spec fn is_right_handed_frame(up: Axis, a: Axis, b: Axis) -> bool {
    &&& is_unit_axis(up)
    &&& is_unit_axis(a)
    &&& is_unit_axis(b)
    &&& dot(up, a) == 0
    &&& dot(up, b) == 0
    &&& dot(a, b) == 0
    &&& cross_x(a, b) == up.x
    &&& cross_y(a, b) == up.y
    &&& cross_z(a, b) == up.z
}

/// Every face has a unit outward direction, and its two tangent axes are unit
/// axes, orthogonal to it and to each other, with `axis_a × axis_b == up`.
pub proof fn lemma_face_frame(face: Face)
    ensures
        is_right_handed_frame(orientation_of(face), axis_a_of(face), axis_b_of(face)),
{
    match face {
        Face::Top => {
            let (up, a, b) = (
                Axis { x: 0, y: 1, z: 0 },
                Axis { x: 1, y: 0, z: 0 },
                Axis { x: 0, y: 0, z: -1i8 },
            );
            assert(cross_x(up, a) == b.x && cross_y(up, a) == b.y && cross_z(up, a) == b.z);
            assert(is_right_handed_frame(up, a, b));
        },
        Face::Down => {
            let (up, a, b) = (
                Axis { x: 0, y: -1i8, z: 0 },
                Axis { x: -1i8, y: 0, z: 0 },
                Axis { x: 0, y: 0, z: -1i8 },
            );
            assert(cross_x(up, a) == b.x && cross_y(up, a) == b.y && cross_z(up, a) == b.z);
            assert(is_right_handed_frame(up, a, b));
        },
        Face::Left => {
            let (up, a, b) = (
                Axis { x: -1i8, y: 0, z: 0 },
                Axis { x: 0, y: 0, z: -1i8 },
                Axis { x: 0, y: -1i8, z: 0 },
            );
            assert(cross_x(up, a) == b.x && cross_y(up, a) == b.y && cross_z(up, a) == b.z);
            assert(is_right_handed_frame(up, a, b));
        },
        Face::Right => {
            let (up, a, b) = (
                Axis { x: 1, y: 0, z: 0 },
                Axis { x: 0, y: 0, z: 1 },
                Axis { x: 0, y: -1i8, z: 0 },
            );
            assert(cross_x(up, a) == b.x && cross_y(up, a) == b.y && cross_z(up, a) == b.z);
            assert(is_right_handed_frame(up, a, b));
        },
        Face::Front => {
            let (up, a, b) = (
                Axis { x: 0, y: 0, z: 1 },
                Axis { x: 0, y: 1, z: 0 },
                Axis { x: -1i8, y: 0, z: 0 },
            );
            assert(cross_x(up, a) == b.x && cross_y(up, a) == b.y && cross_z(up, a) == b.z);
            assert(is_right_handed_frame(up, a, b));
        },
        Face::Back => {
            let (up, a, b) = (
                Axis { x: 0, y: 0, z: -1i8 },
                Axis { x: 0, y: -1i8, z: 0 },
                Axis { x: -1i8, y: 0, z: 0 },
            );
            assert(cross_x(up, a) == b.x && cross_y(up, a) == b.y && cross_z(up, a) == b.z);
            assert(is_right_handed_frame(up, a, b));
        },
    }
}

/// Each face appears exactly once in the build order.
pub proof fn lemma_face_order_lists_each_face_once(face: Face)
    ensures
        face_order().len() == FACE_COUNT,
        exists|k: int| 0 <= k < 6 && face_order()[k] == face,
        forall|j: int, k: int|
            0 <= j < 6 && 0 <= k < 6 && face_order()[j] == face_order()[k] ==> j == k,
{
    match face {
        Face::Top => assert(face_order()[0] == face),
        Face::Down => assert(face_order()[1] == face),
        Face::Left => assert(face_order()[2] == face),
        Face::Right => assert(face_order()[3] == face),
        Face::Front => assert(face_order()[4] == face),
        Face::Back => assert(face_order()[5] == face),
    }
}

} // verus!
