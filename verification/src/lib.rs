//! A real-time two-entity arena simulation: two autonomous actors bounce
//! inside a bordered rectangle, collide with each other and the walls, and
//! may pick up transient power-ups that boost their speed or grant a
//! one-shot kill that drains the opponent's score.
//!
//! The crate holds the motion, collision-resolution and pickup state
//! machine, verified over integer coordinates; rendering, audio and the
//! frame loop are left to a presentation layer, which drives the
//! simulation through [`world::World`] and reads back plain state and
//! per-frame events.

pub mod direction;
pub mod geom;
pub mod objects;
pub mod rng;
pub mod world;
