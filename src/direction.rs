use vstd::prelude::*;

verus! {

/// The face of the cube-sphere that a chunk belongs to.
#[derive(Clone, Copy, Debug, PartialEq, Eq, Structural)]
pub enum Direction {
    Up,
    Down,
    Left,
    Right,
    Forward,
    Backward,
}

/// Places the two in-plane coordinates `a` and `b` of a grid vertex on face `d`, whose
/// third coordinate is zero: each face lays the grid on its own pair of axes.
pub open spec fn face_plane_point(d: Direction, a: int, b: int) -> (int, int, int) {
    match d {
        Direction::Forward => (a, b, 0),
        Direction::Backward => (b, a, 0),
        Direction::Left => (0, a, b),
        Direction::Right => (0, b, a),
        Direction::Up => (a, 0, b),
        Direction::Down => (b, 0, a),
    }
}

/// A face lays the grid out without overlap: different in-plane coordinates land on
/// different points.
pub proof fn lemma_face_plane_injective(d: Direction, a1: int, b1: int, a2: int, b2: int)
    requires
        face_plane_point(d, a1, b1) == face_plane_point(d, a2, b2),
    ensures
        a1 == a2 && b1 == b2,
{
}

} // verus!
