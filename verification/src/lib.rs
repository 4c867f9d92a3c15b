//! State model of a grid-based plant-evolution simulation: the board's size,
//! its per-cell fields, the field multipliers, and the board that joins them.

pub mod board;
