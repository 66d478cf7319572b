//! Core state machines of a small 2D platformer: mapping held keys to a
//! player direction and action, integrating player movement onto position and
//! velocity, consuming ground-collision events to reset the jump latch,
//! patrol movement for the slime enemy, and sprite-frame animation driven by
//! repeating timers.
//!
//! Positions, velocities and time are plain integer units. The windowed game
//! loop, rendering and the rigid-body engine sit outside this crate and
//! exchange plain values with it: held-key flags in, position and velocity
//! edits out, collision notifications in.

pub mod animator;
pub mod collision;
pub mod enemy;
pub mod lemmas;
pub mod physics;
pub mod player;
pub mod timer;
