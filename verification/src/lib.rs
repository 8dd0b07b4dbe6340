//! A two-paddle ball game for a small pixel display: positions, bounces,
//! round outcomes and the bookkeeping of what has to be redrawn.
//!
//! The crate holds the simulation only. Reading the players' input and
//! drawing the shapes are left to the program that drives it.

pub mod game;
