//! The game state and its rules.
//!
//! [`GameModel`] is the mathematical picture of a game; its spec functions
//! say what each event does to it. [`GameState`] is the state that runs, and
//! each of its operations is tied to the matching function of the model.

use vstd::prelude::*;
use crate::commands::{AudioCommand, Color, DrawCommand};
use crate::geometry::{closer_than, within_square, Point, Rect};
use crate::level::{build_maze, goal, goal_point, maze_walls, start, start_point, ARMING_RADIUS, GOAL_REACH};

verus! {

/// The mathematical picture of a game.
pub struct GameModel {
    /// Where the marker is.
    pub position: Point,
    /// Where the marker starts, and where a restart puts it back.
    pub initial_position: Point,
    /// The centre of the goal region.
    pub end_position: Point,
    /// The walls, in drawing order.
    pub walls: Seq<Rect>,
    /// Whether the marker follows the pointer.
    pub is_moving: bool,
    /// Whether the scare is showing.
    pub show_scare: bool,
}

impl GameModel {
    /// The game as it starts: the marker at rest on the start point, no scare.
    pub open spec fn initial() -> GameModel {
        GameModel {
            position: start_point(),
            initial_position: start_point(),
            end_position: goal_point(),
            walls: maze_walls(),
            is_moving: false,
            show_scare: false,
        }
    }

    /// What holds of every game: the level is the fixed one, and a marker
    /// that does not follow the pointer rests on the start point.
    pub open spec fn wf(self) -> bool {
        &&& self.initial_position == start_point()
        &&& self.end_position == goal_point()
        &&& self.walls == maze_walls()
        &&& !self.is_moving ==> self.position == self.initial_position
    }

    /// Whether a pointer at `pointer` is close enough to the start to set
    /// the marker moving.
    pub open spec fn arms(self, pointer: Point) -> bool {
        closer_than(self.initial_position, pointer, ARMING_RADIUS as int)
    }

    /// The marker is within reach of the goal on both axes.
    pub open spec fn reached_end(self) -> bool {
        within_square(self.position, self.end_position, GOAL_REACH as int)
    }

    /// The marker square overlaps some wall.
    pub open spec fn collides(self) -> bool {
        exists|i: int|
            0 <= i < self.walls.len() && Rect::spec_marker(self.position).overlaps_spec(
                #[trigger] self.walls[i],
            )
    }

    /// The game after the pointer was reported at `pointer`. A marker at
    /// rest starts moving if the pointer is within the arming radius of the
    /// start; a moving marker, one that has only just started too, goes
    /// where the pointer is.
    pub open spec fn pointer_moved(self, pointer: Point) -> GameModel {
        if self.is_moving || self.arms(pointer) {
            GameModel { position: pointer, is_moving: true, ..self }
        } else {
            self
        }
    }

    /// The game after a restart: the marker back at rest on the start point.
    pub open spec fn restarted(self) -> GameModel {
        GameModel { position: self.initial_position, is_moving: false, ..self }
    }

    /// The game after the goal check of a frame.
    pub open spec fn goal_checked(self) -> GameModel {
        if self.reached_end() {
            GameModel { show_scare: true, ..self }
        } else {
            self
        }
    }

    /// The game after the collision check of a frame.
    pub open spec fn collision_checked(self) -> GameModel {
        if self.collides() {
            self.restarted()
        } else {
            self
        }
    }

    /// The game after one frame: first the goal check, then the collision
    /// check.
    pub open spec fn updated(self) -> GameModel {
        self.goal_checked().collision_checked()
    }

    /// What a frame asks of the audio device: the scream, each frame anew,
    /// as long as the marker is at the goal.
    pub open spec fn frame_audio(self) -> Option<AudioCommand> {
        if self.reached_end() {
            Some(AudioCommand::PlayScream)
        } else {
            None
        }
    }

    /// What is drawn over the walls: the marker, or the scare image once the
    /// scare is showing.
    pub open spec fn foreground(self) -> DrawCommand {
        if self.show_scare {
            DrawCommand::ScareImage
        } else {
            DrawCommand::FillRect(Rect::spec_marker(self.position), Color::White)
        }
    }

    /// The drawing of one frame: a black screen, every wall in white, the
    /// foreground, and the frame shown.
    pub open spec fn frame(self) -> Seq<DrawCommand> {
        seq![DrawCommand::Clear(Color::Black)] + self.walls.map_values(
            |w: Rect| DrawCommand::FillRect(w, Color::White),
        ) + seq![self.foreground(), DrawCommand::Present]
    }
}

/// The state of a running game.
#[derive(Debug)]
pub struct GameState {
    position: Point,
    initial_position: Point,
    is_moving: bool,
    walls: Vec<Rect>,
    show_scare: bool,
    end_position: Point,
}

impl View for GameState {
    type V = GameModel;

    closed spec fn view(&self) -> GameModel {
        GameModel {
            position: self.position,
            initial_position: self.initial_position,
            end_position: self.end_position,
            walls: self.walls@,
            is_moving: self.is_moving,
            show_scare: self.show_scare,
        }
    }
}

impl GameState {
    #[verifier::type_invariant]
    spec fn inv(self) -> bool {
        self@.wf()
    }

    /// A new game: the marker at rest on the start point, the fixed maze,
    /// no scare.
    pub fn new() -> (state: GameState)
        ensures
            state@ == GameModel::initial(),
            state@.wf(),
    {
        let initial_position = start();
        GameState {
            position: initial_position,
            initial_position,
            is_moving: false,
            walls: build_maze(),
            show_scare: false,
            end_position: goal(),
        }
    }

    /// Whether the marker is within reach of the goal.
    pub fn check_player_reached_end(&self) -> (reached: bool)
        ensures
            reached == self@.reached_end(),
    {
        self.position.is_within_square(&self.end_position, GOAL_REACH)
    }

    /// Whether the marker square overlaps a wall.
    pub fn check_collision(&self) -> (hit: bool)
        ensures
            hit == self@.collides(),
    {
        let marker = Rect::marker(self.position);
        let mut i: usize = 0;
        while i < self.walls.len()
            invariant
                i <= self.walls.len(),
                marker == Rect::spec_marker(self.position),
                forall|j: int| 0 <= j < i ==> !marker.overlaps_spec(#[trigger] self.walls@[j]),
            decreases self.walls.len() - i,
        {
            if marker.overlaps(&self.walls[i]) {
                assert(marker.overlaps_spec(self@.walls[i as int]));
                return true;
            }
            i += 1;
        }
        false
    }

    /// Puts the marker back at rest on the start point. The scare and the
    /// walls stay as they are.
    pub fn restart(&mut self)
        ensures
            final(self)@ == old(self)@.restarted(),
            final(self)@.position == final(self)@.initial_position,
            !final(self)@.is_moving,
            final(self)@.show_scare == old(self)@.show_scare,
            final(self)@.wf(),
    {
        proof {
            use_type_invariant(&*self);
        }
        self.position = self.initial_position;
        self.is_moving = false;
    }

    /// Takes in a report that the pointer is at `(x, y)`. A marker at rest
    /// starts moving if the pointer is within the arming radius of the start
    /// point, and a moving marker goes where the pointer is, whether or not
    /// that is inside the maze.
    pub fn on_pointer_move(&mut self, x: i32, y: i32)
        ensures
            final(self)@ == old(self)@.pointer_moved(Point { x, y }),
            final(self)@.wf(),
    {
        proof {
            use_type_invariant(&*self);
        }
        let pointer = Point { x, y };
        if !self.is_moving {
            if self.initial_position.is_closer_than(&pointer, ARMING_RADIUS) {
                self.is_moving = true;
            }
        }
        if self.is_moving {
            self.position = pointer;
        }
    }

    /// Runs the rules of one frame: the goal check, which raises the scare,
    /// and then the collision check, which restarts the game. Returns what
    /// the frame asks of the audio device; at the goal that is the scream,
    /// on every frame, whether or not it was asked for before.
    ///
    /// The state is advanced on the footing that the request is carried
    /// out. A shell whose audio device turns the request down has a failed
    /// frame on its hands and ends the session.
    pub fn update(&mut self) -> (audio: Option<AudioCommand>)
        ensures
            final(self)@ == old(self)@.updated(),
            audio == old(self)@.frame_audio(),
            final(self)@.wf(),
    {
        proof {
            use_type_invariant(&*self);
        }
        let mut audio: Option<AudioCommand> = None;
        if self.check_player_reached_end() {
            audio = Some(AudioCommand::PlayScream);
            self.show_scare = true;
        }
        if self.check_collision() {
            self.restart();
        }
        audio
    }

    /// Lists what is to be drawn for one frame, in order. The state is left
    /// as it is.
    pub fn draw(&self) -> (commands: Vec<DrawCommand>)
        ensures
            commands@ == self@.frame(),
    {
        let mut commands: Vec<DrawCommand> = Vec::new();
        commands.push(DrawCommand::Clear(Color::Black));
        let ghost paint = |w: Rect| DrawCommand::FillRect(w, Color::White);
        let mut i: usize = 0;
        while i < self.walls.len()
            invariant
                i <= self.walls.len(),
                paint == |w: Rect| DrawCommand::FillRect(w, Color::White),
                commands@ == seq![DrawCommand::Clear(Color::Black)] + self.walls@.take(
                    i as int,
                ).map_values(paint),
            decreases self.walls.len() - i,
        {
            commands.push(DrawCommand::FillRect(self.walls[i], Color::White));
            assert(self.walls@.take(i + 1).map_values(paint) =~= self.walls@.take(
                i as int,
            ).map_values(paint).push(paint(self.walls@[i as int])));
            i += 1;
        }
        if self.show_scare {
            commands.push(DrawCommand::ScareImage);
        } else {
            commands.push(DrawCommand::FillRect(Rect::marker(self.position), Color::White));
        }
        commands.push(DrawCommand::Present);
        assert(commands@ =~= self@.frame());
        commands
    }

    /// Where the marker is.
    pub fn position(&self) -> (p: Point)
        ensures
            p == self@.position,
    {
        self.position
    }

    /// Where the marker starts.
    pub fn initial_position(&self) -> (p: Point)
        ensures
            p == self@.initial_position,
    {
        self.initial_position
    }

    /// The centre of the goal region.
    pub fn end_position(&self) -> (p: Point)
        ensures
            p == self@.end_position,
    {
        self.end_position
    }

    /// The walls, in drawing order.
    pub fn walls(&self) -> (walls: &Vec<Rect>)
        ensures
            walls@ == self@.walls,
    {
        &self.walls
    }

    /// Whether the marker follows the pointer.
    pub fn is_moving(&self) -> (moving: bool)
        ensures
            moving == self@.is_moving,
    {
        self.is_moving
    }

    /// Whether the scare is showing.
    pub fn show_scare(&self) -> (showing: bool)
        ensures
            showing == self@.show_scare,
    {
        self.show_scare
    }
}

} // verus!
