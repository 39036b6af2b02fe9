//! Single-actor health model for an infection simulation.
//!
//! Health is an unsigned integer classified into ordered bands; per-tick
//! exposure updates and treatment updates move it deterministically between
//! them. A one-way `cat_resistance` latch records the first infected tick.

pub mod player;
