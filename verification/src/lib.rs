//! Derivation of Sudoku puzzles from a small corpus of hand-authored seeds.
//!
//! A seed is written over nine abstract symbols. A fresh puzzle is obtained by
//! renaming the symbols to digits through a random bijection and by rearranging
//! the cells through a random grid symmetry: a rotation followed by permutations
//! of bands, stacks, rows within bands and columns within stacks. Both kinds of
//! change keep every row, column and box a set of nine distinct values.

pub mod corpus;
pub mod generator;
pub mod grid;
pub mod laws;
pub mod layout;
pub mod random;
pub mod render;
pub mod seeds;
pub mod symmetry;
pub mod token;
