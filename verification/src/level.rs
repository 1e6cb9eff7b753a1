//! The one level of the game: where the marker starts, where the goal lies
//! and the walls of the corridor maze, for a window of 900 by 900 units.

use vstd::prelude::*;
use crate::geometry::{Point, Rect, UNIT};

verus! {

/// The pointer must come closer than this to the start before the marker
/// follows it (10 units).
pub const ARMING_RADIUS: i32 = 10 * UNIT;

/// The goal counts as reached within this distance on each axis (20 units).
pub const GOAL_REACH: i32 = 20 * UNIT;

/// Where the marker starts and where a restart puts it back.
pub open spec fn start_point() -> Point {
    Point::spec_from_units(10, 60)
}

/// The centre of the goal region.
pub open spec fn goal_point() -> Point {
    Point::spec_from_units(870, 790)
}

/// The walls of the maze, in drawing order.
pub open spec fn maze_walls() -> Seq<Rect> {
    seq![
        Rect::spec_from_units(0, 0, 900, 30),
        Rect::spec_from_units(0, 80, 800, 30),
        Rect::spec_from_units(800, 80, 30, 230),
        Rect::spec_from_units(880, 0, 30, 370),
        Rect::spec_from_units(0, 280, 800, 30),
        Rect::spec_from_units(70, 340, 825, 30),
        Rect::spec_from_units(0, 300, 30, 500),
        Rect::spec_from_units(70, 350, 30, 400),
        Rect::spec_from_units(70, 740, 830, 30),
        Rect::spec_from_units(0, 800, 900, 30),
    ]
}

/// The start point.
pub fn start() -> (p: Point)
    ensures
        p == start_point(),
{
    Point::from_units(10, 60)
}

/// The goal point.
pub fn goal() -> (p: Point)
    ensures
        p == goal_point(),
{
    Point::from_units(870, 790)
}

/// Builds the walls of the maze.
pub fn build_maze() -> (walls: Vec<Rect>)
    ensures
        walls@ == maze_walls(),
{
    let mut walls: Vec<Rect> = Vec::new();
    // the first corridor, running right from the start
    walls.push(Rect::from_units(0, 0, 900, 30));
    walls.push(Rect::from_units(0, 80, 800, 30));
    // the first way down
    walls.push(Rect::from_units(800, 80, 30, 230));
    walls.push(Rect::from_units(880, 0, 30, 370));
    // the corridor back to the left
    walls.push(Rect::from_units(0, 280, 800, 30));
    walls.push(Rect::from_units(70, 340, 825, 30));
    // the second way down
    walls.push(Rect::from_units(0, 300, 30, 500));
    walls.push(Rect::from_units(70, 350, 30, 400));
    // the last corridor, running right to the goal
    walls.push(Rect::from_units(70, 740, 830, 30));
    walls.push(Rect::from_units(0, 800, 900, 30));
    assert(walls@ =~= maze_walls());
    walls
}

} // verus!
