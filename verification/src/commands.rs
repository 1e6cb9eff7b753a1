//! What the game asks of the platform shell: sounds to play and things to
//! draw. The game only names them; the shell carries them out, and a command
//! that the shell cannot carry out ends the session.

use vstd::prelude::*;
use crate::geometry::Rect;

verus! {

/// A request to the audio device.
#[derive(Clone, Copy, Debug, PartialEq, Eq, Structural)]
pub enum AudioCommand {
    /// Play the scream once.
    PlayScream,
}

/// The two colours of the game.
#[derive(Clone, Copy, Debug, PartialEq, Eq, Structural)]
pub enum Color {
    Black,
    White,
}

/// One step of drawing a frame.
#[derive(Clone, Copy, Debug, PartialEq, Eq, Structural)]
pub enum DrawCommand {
    /// Fill the whole screen with a colour.
    Clear(Color),
    /// Draw a filled rectangle.
    FillRect(Rect, Color),
    /// Draw the scare image stretched over the whole viewport, each axis
    /// scaled by itself.
    ScareImage,
    /// Show the finished frame.
    Present,
}

} // verus!
