//! What holds of every game, proved over the model.
//!
//! A game is driven by pointer reports, frames and restarts. The laws below
//! speak of single events and of whole runs of them.

use vstd::prelude::*;
use crate::game::GameModel;
use crate::geometry::{closer_than, magnitude, within_square, Point, Rect};
use crate::level::{start_point, ARMING_RADIUS};

verus! {

/// What can happen to a game.
pub enum Event {
    /// The pointer was reported at a position.
    PointerMoved(Point),
    /// A frame went by: the rules were run once.
    Frame,
    /// The game was restarted from outside the rules.
    Restart,
}

impl Event {
    /// Whether this event reports the pointer within the arming radius of
    /// the start point.
    pub open spec fn is_arming(self) -> bool {
        match self {
            Event::PointerMoved(pointer) => closer_than(
                start_point(),
                pointer,
                ARMING_RADIUS as int,
            ),
            Event::Frame => false,
            Event::Restart => false,
        }
    }
}

impl GameModel {
    /// The game after one event.
    pub open spec fn step(self, event: Event) -> GameModel {
        match event {
            Event::PointerMoved(pointer) => self.pointer_moved(pointer),
            Event::Frame => self.updated(),
            Event::Restart => self.restarted(),
        }
    }

    /// The game after a run of events, the first of them first.
    pub open spec fn run(self, events: Seq<Event>) -> GameModel
        decreases events.len(),
    {
        if events.len() == 0 {
            self
        } else {
            self.run(events.drop_last()).step(events.last())
        }
    }

    /// Whether this event restarts the game: a restart from outside, or a
    /// frame that finds the marker on a wall.
    pub open spec fn restarts_on(self, event: Event) -> bool {
        match event {
            Event::PointerMoved(_) => false,
            Event::Frame => self.collides(),
            Event::Restart => true,
        }
    }

    /// Whether the game is restarted in the course of the run.
    pub open spec fn restarts_during(self, events: Seq<Event>) -> bool {
        exists|k: int|
            0 <= k < events.len() && (#[trigger] self.run(events.take(k))).restarts_on(events[k])
    }
}

/// Every event keeps a well-formed game well-formed.
pub proof fn law_step_keeps_wf(g: GameModel, event: Event)
    requires
        g.wf(),
    ensures
        g.step(event).wf(),
{
}

/// Every run of events keeps a well-formed game well-formed.
pub proof fn law_run_keeps_wf(g: GameModel, events: Seq<Event>)
    requires
        g.wf(),
    ensures
        g.run(events).wf(),
    decreases events.len(),
{
    if events.len() > 0 {
        law_run_keeps_wf(g, events.drop_last());
        law_step_keeps_wf(g.run(events.drop_last()), events.last());
    }
}

/// A pointer report that is not within the arming radius of the start
/// point leaves a marker at rest where it is: at rest, on the start point.
pub proof fn law_far_pointer_leaves_rest(g: GameModel, pointer: Point)
    requires
        g.wf(),
        !g.is_moving,
        !closer_than(start_point(), pointer, ARMING_RADIUS as int),
    ensures
        g.pointer_moved(pointer) == g,
        !g.pointer_moved(pointer).is_moving,
        g.pointer_moved(pointer).position == start_point(),
{
}

/// A frame changes nothing while the marker is at rest: the start point is
/// neither at the goal nor on a wall.
pub proof fn law_frame_leaves_rest(g: GameModel)
    requires
        g.wf(),
        !g.is_moving,
    ensures
        g.updated() == g,
{
    assert(!g.reached_end());
    assert(g.restarted() == g);
}

/// As long as no pointer report comes within the arming radius of the
/// start point, the marker stays at rest on the start point, whatever else
/// is reported and however many frames go by.
pub proof fn law_rest_until_armed(g: GameModel, events: Seq<Event>)
    requires
        g.wf(),
        !g.is_moving,
        forall|i: int| 0 <= i < events.len() ==> !(#[trigger] events[i]).is_arming(),
    ensures
        g.run(events) == g,
        !g.run(events).is_moving,
        g.run(events).position == start_point(),
    decreases events.len(),
{
    if events.len() > 0 {
        law_rest_until_armed(g, events.drop_last());
        assert(!events[events.len() - 1].is_arming());
        match events.last() {
            Event::PointerMoved(pointer) => {
                law_far_pointer_leaves_rest(g, pointer);
            },
            Event::Frame => {
                law_frame_leaves_rest(g);
            },
            Event::Restart => {
                assert(g.restarted() == g);
            },
        }
    }
}

/// A pointer report within the arming radius of the start point sets the
/// marker moving and puts it where the pointer is.
pub proof fn law_near_pointer_arms(g: GameModel, pointer: Point)
    requires
        g.wf(),
        closer_than(start_point(), pointer, ARMING_RADIUS as int),
    ensures
        g.pointer_moved(pointer).is_moving,
        g.pointer_moved(pointer).position == pointer,
{
}

/// A moving marker follows every pointer report, inside the maze or not.
pub proof fn law_moving_marker_follows(g: GameModel, pointer: Point)
    requires
        g.is_moving,
    ensures
        g.pointer_moved(pointer).is_moving,
        g.pointer_moved(pointer).position == pointer,
{
}

/// Whether the marker is on a wall depends on where it is and on the walls,
/// and on nothing else; the goal check of a frame does not change it.
pub proof fn law_collision_is_a_matter_of_place(a: GameModel, b: GameModel)
    requires
        a.position == b.position,
        a.walls == b.walls,
    ensures
        a.collides() == b.collides(),
        a.goal_checked().collides() == a.collides(),
{
    let marker = Rect::spec_marker(a.position);
    if a.collides() {
        let i = choose|i: int| 0 <= i < a.walls.len() && marker.overlaps_spec(#[trigger] a.walls[i]);
        assert(marker.overlaps_spec(b.walls[i]));
        assert(marker.overlaps_spec(a.goal_checked().walls[i]));
    }
    if b.collides() {
        let i = choose|i: int| 0 <= i < b.walls.len() && marker.overlaps_spec(#[trigger] b.walls[i]);
        assert(marker.overlaps_spec(a.walls[i]));
    }
    if a.goal_checked().collides() {
        let i = choose|i: int|
            0 <= i < a.goal_checked().walls.len() && marker.overlaps_spec(
                #[trigger] a.goal_checked().walls[i],
            );
        assert(marker.overlaps_spec(a.walls[i]));
    }
}

/// Only a restart brings a moving marker to rest: an event after which the
/// marker no longer moves is one that restarts the game, and it leaves the
/// marker on the start point.
pub proof fn law_only_restart_stops(g: GameModel, event: Event)
    requires
        g.is_moving,
        !g.step(event).is_moving,
    ensures
        g.restarts_on(event),
        g.step(event).position == g.initial_position,
{
    law_collision_is_a_matter_of_place(g, g);
}

/// A moving marker keeps moving through every run of events in which the
/// game is not restarted.
pub proof fn law_moving_until_restart(g: GameModel, events: Seq<Event>)
    requires
        g.is_moving,
        !g.restarts_during(events),
    ensures
        g.run(events).is_moving,
    decreases events.len(),
{
    if events.len() > 0 {
        let earlier = events.drop_last();
        assert(!g.restarts_during(earlier)) by {
            assert forall|k: int| 0 <= k < earlier.len() implies !(#[trigger] g.run(
                earlier.take(k),
            )).restarts_on(earlier[k]) by {
                assert(earlier.take(k) =~= events.take(k));
            }
        }
        law_moving_until_restart(g, earlier);
        let before = g.run(earlier);
        assert(!before.restarts_on(events.last())) by {
            assert(events.take(events.len() - 1) =~= earlier);
        }
        law_collision_is_a_matter_of_place(before, before);
    }
}

/// Once the pointer has been reported within the arming radius of the
/// start point, the marker moves, and goes on moving through every run of
/// events that follows until the game is restarted.
pub proof fn law_armed_until_restart(g: GameModel, pointer: Point, events: Seq<Event>)
    requires
        g.wf(),
        closer_than(start_point(), pointer, ARMING_RADIUS as int),
        !g.pointer_moved(pointer).restarts_during(events),
    ensures
        g.pointer_moved(pointer).is_moving,
        g.pointer_moved(pointer).run(events).is_moving,
{
    law_near_pointer_arms(g, pointer);
    law_moving_until_restart(g.pointer_moved(pointer), events);
}

/// After a restart the marker is at rest on the start point, wherever it
/// was and whether or not it was moving; the scare and the level are as
/// before.
pub proof fn law_restart_returns_to_start(g: GameModel)
    ensures
        g.restarted().position == g.initial_position,
        g.restarted().position == g.restarted().initial_position,
        !g.restarted().is_moving,
        g.restarted().show_scare == g.show_scare,
        g.restarted().walls == g.walls,
        g.restarted().end_position == g.end_position,
        g.restarted().restarted() == g.restarted(),
{
}

/// A frame raises the scare exactly when the marker is at the goal or the
/// scare was showing before, and asks for the scream exactly when the marker
/// is at the goal, whether or not the scare was showing before.
pub proof fn law_frame_raises_scare_at_goal(g: GameModel)
    ensures
        g.updated().show_scare == (g.show_scare || g.reached_end()),
        g.frame_audio() is Some <==> g.reached_end(),
{
}

/// The scare, once showing, shows through every run of events: neither a
/// pointer report nor a frame, restart or not, takes it down.
pub proof fn law_scare_stays(g: GameModel, events: Seq<Event>)
    requires
        g.show_scare,
    ensures
        g.run(events).show_scare,
    decreases events.len(),
{
    if events.len() > 0 {
        law_scare_stays(g, events.drop_last());
    }
}

/// The disc of points closer than `radius` to a centre lies inside the
/// open square of half-side `radius` about it, and holds every point whose
/// offsets on the two axes add up to less than `radius`.
pub proof fn law_disc_between_squares(a: Point, b: Point, radius: int)
    ensures
        closer_than(a, b, radius) ==> within_square(a, b, radius),
        radius > 0 && magnitude(a.x - b.x) + magnitude(a.y - b.y) < radius ==> closer_than(
            a,
            b,
            radius,
        ),
{
    let dx = magnitude(a.x - b.x);
    let dy = magnitude(a.y - b.y);
    assert(dx * dx == (a.x - b.x) * (a.x - b.x)) by (nonlinear_arith)
        requires
            dx == magnitude(a.x - b.x),
    ;
    assert(dy * dy == (a.y - b.y) * (a.y - b.y)) by (nonlinear_arith)
        requires
            dy == magnitude(a.y - b.y),
    ;
    assert(0 < radius <= dx ==> radius * radius <= dx * dx) by (nonlinear_arith);
    assert(0 < radius <= dy ==> radius * radius <= dy * dy) by (nonlinear_arith);
    assert(0 <= dx * dx && 0 <= dy * dy) by (nonlinear_arith);
    assert(0 <= dx && 0 <= dy && dx + dy < radius ==> dx * dx + dy * dy < radius * radius)
        by (nonlinear_arith);
}

/// Overlap does not depend on which rectangle is asked.
pub proof fn law_overlap_is_symmetric(a: Rect, b: Rect)
    ensures
        a.overlaps_spec(b) == b.overlaps_spec(a),
{
}

/// Rectangles that only touch do not overlap: where one ends on an axis at
/// or before the edge at which the other begins, there is no overlap.
pub proof fn law_touching_is_no_overlap(a: Rect, b: Rect)
    requires
        a.right() <= b.left || b.right() <= a.left || a.bottom() <= b.top || b.bottom() <= a.top,
    ensures
        !a.overlaps_spec(b),
{
}

/// Two rectangles of positive width and height overlap exactly when each
/// begins, on both axes, before the other ends.
pub proof fn law_overlap_of_proper_rects(a: Rect, b: Rect)
    requires
        a.width > 0,
        a.height > 0,
        b.width > 0,
        b.height > 0,
    ensures
        a.overlaps_spec(b) <==> (a.left < b.right() && b.left < a.right() && a.top < b.bottom()
            && b.top < a.bottom()),
{
}

} // verus!
