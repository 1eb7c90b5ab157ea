//! A chess board, its coordinates, the ledger of executed moves and the
//! rules that decide whether a move is legal.

pub mod board;
pub mod game;
pub mod laws;
pub mod ledger;
pub mod notation;
pub mod piece;
pub mod position;
pub mod render;
pub mod rules;
