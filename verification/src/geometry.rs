//! Points in window space and the polyline geometry built from them.

use vstd::prelude::*;

verus! {

/// A point in window-space units. Immutable once recorded.
#[derive(Clone, Copy, PartialEq, Eq, Structural, Debug)]
pub struct Point {
    pub x: i32,
    pub y: i32,
}

impl Point {
    pub fn new(x: i32, y: i32) -> (p: Point)
        ensures
            p == (Point { x, y }),
    {
        Point { x, y }
    }
}

/// One command of a drawable path.
#[derive(Clone, Copy, PartialEq, Eq, Structural, Debug)]
pub enum PathCommand {
    MoveTo(Point),
    LineTo(Point),
}

/// The path drawn for a stroke: nothing for fewer than two points,
/// otherwise a move to the first point followed by a line to each
/// later point, in insertion order.
pub open spec fn polyline_of(points: Seq<Point>) -> Seq<PathCommand> {
    if points.len() < 2 {
        Seq::empty()
    } else {
        Seq::new(
            points.len(),
            |i: int|
                if i == 0 {
                    PathCommand::MoveTo(points[0])
                } else {
                    PathCommand::LineTo(points[i])
                },
        )
    }
}

/// Build the drawable path for `points`. A stroke of fewer than two
/// points yields no geometry.
pub fn build_polyline(points: &Vec<Point>) -> (path: Vec<PathCommand>)
    ensures
        path@ == polyline_of(points@),
        points@.len() < 2 ==> path@.len() == 0,
{
    let mut path: Vec<PathCommand> = Vec::new();
    if points.len() < 2 {
        assert(path@ =~= polyline_of(points@));
        return path;
    }
    let mut i: usize = 0;
    while i < points.len()
        invariant
            i <= points@.len(),
            2 <= points@.len(),
            path@.len() == i,
            forall|j: int| 0 <= j < i ==> path@[j] == polyline_of(points@)[j],
        decreases points@.len() - i,
    {
        if i == 0 {
            path.push(PathCommand::MoveTo(points[0]));
        } else {
            path.push(PathCommand::LineTo(points[i]));
        }
        i = i + 1;
    }
    assert(path@ =~= polyline_of(points@));
    path
}

/// Copy a path command for command.
pub fn copy_path(path: &Vec<PathCommand>) -> (out: Vec<PathCommand>)
    ensures
        out@ == path@,
{
    let mut out: Vec<PathCommand> = Vec::new();
    let mut i: usize = 0;
    while i < path.len()
        invariant
            i <= path@.len(),
            out@ == path@.subrange(0, i as int),
        decreases path@.len() - i,
    {
        out.push(path[i]);
        assert(out@ =~= path@.subrange(0, i + 1));
        i = i + 1;
    }
    assert(out@ =~= path@);
    out
}

} // verus!
