//! Core of a music-literacy trainer: a staff shows a sequence of notes and
//! the player names each note's pitch letter in turn.
//!
//! The crate holds the pure logic only: the mapping from an integer diatonic
//! pitch to its staff position and letter name, the closed set of training
//! courses with their pitch-sampling rules, the random generation of playable
//! rounds, and the turn-by-turn state machine that consumes key presses.
//! Rendering and input plumbing live outside and talk to this crate through
//! plain values.

pub mod course;
pub mod pitch;
mod rng;
pub mod trainer;
