//! Conway's Game of Life on a 5x5 LED matrix: the grid engine and the decisions of the frame
//! loop that drives it.
//!
//! - [`grid`]: the grid, one generation of the rule, the end of a simulation, inversion.
//! - [`random`]: a grid drawn from a 128-bit seed.
//! - [`pcg`]: the generator behind it, `nanorand`'s `Pcg64`, and what is taken on trust of it.
//! - [`control`]: what a frame does, given the buttons and a fresh seed, and the debounce of
//!   button B.

pub mod control;
pub mod grid;
pub mod pcg;
pub mod random;
