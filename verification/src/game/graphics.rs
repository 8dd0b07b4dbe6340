//! The interface of whatever draws the shapes.

use vstd::prelude::*;
use crate::game::game_objects::ScreenObject;

verus! {

/// A display that can draw a frame's shapes and wipe them out again.
pub trait Graphics {
    /// Paints the shapes in the background colour.
    fn clear(&mut self, objects: &heapless::Vec<ScreenObject, 8>);

    /// Paints the shapes in their own colours.
    fn draw(&mut self, objects: &heapless::Vec<ScreenObject, 8>);
}

} // verus!
