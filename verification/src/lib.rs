//! Simulation core of a single-player arcade crossing game: a frog must
//! traverse lanes of moving vehicles and floating carriers to reach the top
//! row, with a finite number of lives.  The crate holds the geometry, the
//! random source, the actor variants with their per-tick transitions, the
//! arena with its collision pass, and the facade that builds a level and
//! answers win/loss queries.  Rendering and input polling are left to the
//! host around the crate.

pub mod geom;
pub mod rng;
pub mod input;
pub mod lanes;
pub mod frog;
pub mod actor;
pub mod arena;
pub mod game;
