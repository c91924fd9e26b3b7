#![allow(non_snake_case)]
//! Runtime core of a browser-hosted real-time game: a fixed-timestep game
//! loop, an actor/component entity model over fixed-point spatial math, and a
//! thin rendering-context abstraction. Host-platform glue (DOM, scheduling,
//! fetch) stays at the boundary behind narrow trusted calls.

pub mod engine;
pub mod game;
pub mod geometry;
pub mod math;
