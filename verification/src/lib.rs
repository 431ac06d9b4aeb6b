//! Behavioral core of a 2D fighting-game character: an input-event
//! translator, a frame-timed animation sequencer, a per-character
//! finite-state machine, and a navigation integrator.  Rendering,
//! window management and configuration loading are left to the
//! surrounding application; this crate works on plain values
//! (key identifiers, milliseconds, integer coordinates) and every
//! function in it is verified against its contract.

pub mod animated_sprite;
pub mod common;
pub mod engine;
pub mod fighter;
pub mod fighter_input;
pub mod fighter_state;
pub mod game_configuration;
pub mod game_events;
pub mod game_inputs;
pub mod inputs;
pub mod player;
