//! Core of a small timed arcade game: a player sprite moves over a bounded
//! 640x480 field collecting an item whose position is re-drawn from a
//! xorshift128+ stream, while a session keeps the high and last score
//! between rounds.
//!
//! Positions are held in fixed-point subunits (65536 per field unit), so
//! every movement, pickup and placement computation here is exact integer
//! arithmetic with a verified contract. The windowing, drawing and clock
//! reading live outside the library; they hand plain values in and take
//! plain values back.

pub mod field;
pub mod game;
pub mod laws;
pub mod rng;
