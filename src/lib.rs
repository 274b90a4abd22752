//! Per-frame simulation engine of a side-scrolling platformer.
//!
//! Lengths are integers in micro-units (a millionth of a world unit),
//! velocities in milli-units per second and frame times in milliseconds, so
//! that a velocity times a frame time is a length in micro-units and every
//! frame is reproducible bit for bit.
pub mod config;
pub mod geometry;
pub mod kinematics;
pub mod entities;
pub mod interaction;
pub mod level;
pub mod game;
