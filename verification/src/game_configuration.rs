//! Built-in layout constants of the menu texture pack: cell sizes and
//! frame counts for the background, the letter font and the skull
//! cursor sheets.

use vstd::prelude::*;

verus! {

/// Sprite-sheet layout of the menu texture pack.
#[derive(Copy, Clone, Debug, PartialEq, Eq, Structural)]
pub struct TexturePackConfiguration {
    pub size: i32,
    pub nb_frames: i32,
    pub size_letter: i32,
    pub nb_frames_letters: i32,
    pub size_skull: i32,
    pub nb_frames_skull: i32,
}

impl TexturePackConfiguration {
    /// The fixed layout the game ships with.
    pub fn new() -> (r: TexturePackConfiguration)
        ensures
            r == (TexturePackConfiguration {
                size: 64,
                nb_frames: 1,
                size_letter: 32,
                nb_frames_letters: 26,
                size_skull: 70,
                nb_frames_skull: 6,
            }),
    {
        Self {
            size: 64,
            nb_frames: 1,
            size_letter: 32,
            nb_frames_letters: 26,
            size_skull: 70,
            nb_frames_skull: 6,
        }
    }
}

} // verus!
