//! Per-frame physics and collision core of a two-paddle ball game.
//!
//! The library advances a moving ball through a bounded arena, detects and
//! resolves collisions against the walls and two paddles by swept
//! axis-aligned rectangle intersection, and tracks round outcomes (scoring
//! and reset). All host concerns (window, input, audio, fonts) stay outside:
//! the host hands `tick` an input snapshot and receives a list of draw and
//! audio intents back.

pub mod game_controller;
pub mod geometry;
pub mod sweep;
