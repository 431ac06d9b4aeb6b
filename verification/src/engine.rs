//! Decision core of the render-loop shell: which screen (menu or
//! game) is active, and how the outcome of one dispatched input event
//! moves between them or ends the game.

use vstd::prelude::*;

use crate::common::ResultEvent;

verus! {

/// Which screen the engine is showing.
#[derive(Copy, Clone, Debug, PartialEq, Eq, Structural)]
pub enum DisplayState {
    Menu,
    Game,
}

/// The display state and end-of-game flag after one input outcome:
/// in game, a `Menu` outcome returns to the menu; in the menu, `Exit`
/// ends the game and `Solo` starts one.
pub open spec fn spec_next_display(display: DisplayState, r: ResultEvent) -> (DisplayState, bool) {
    match display {
        DisplayState::Game => if r == ResultEvent::Menu {
            (DisplayState::Menu, false)
        } else {
            (DisplayState::Game, false)
        },
        DisplayState::Menu => match r {
            ResultEvent::Exit => (DisplayState::Menu, true),
            ResultEvent::Solo => (DisplayState::Game, false),
            _ => (DisplayState::Menu, false),
        },
    }
}

/// Decide the next display state from the outcome the active screen's
/// input processor returned, and whether the game ends.
pub fn next_display(display: DisplayState, r: ResultEvent) -> (out: (DisplayState, bool))
    ensures
        out == spec_next_display(display, r),
{
    match display {
        DisplayState::Game => {
            if r == ResultEvent::Menu {
                (DisplayState::Menu, false)
            } else {
                (DisplayState::Game, false)
            }
        },
        DisplayState::Menu => match r {
            ResultEvent::Exit => (DisplayState::Menu, true),
            ResultEvent::Solo => (DisplayState::Game, false),
            _ => (DisplayState::Menu, false),
        },
    }
}

} // verus!
