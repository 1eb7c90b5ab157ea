//! Verified recreations: a chess move-legality engine, Conway's Game of Life
//! and Fibonacci numbers.

pub mod chess;
pub mod conway;
pub mod fibonacci;
