//! Core simulation of a two-player paddle-and-ball arcade game.
//!
//! The library owns the per-tick game logic: paddle motion within viewport
//! bounds, ball integration with wall and paddle bounces, round-end scoring,
//! and the state machine that switches between an active round and the
//! round-over prompt. All geometry is carried in integer units, with elapsed
//! time in milliseconds, so that every rule is stated and proved exactly.
//! Input sampling, drawing and frame pacing belong to the presentation layer
//! around the library, which feeds plain values in and reads plain state out.

pub mod game;
pub mod geometry;
pub mod ball;
pub mod input;
pub mod player;
