//! The mana symbols of a trading-card game and the colors they carry.
//!
//! [`color`] holds the five colors, sets of colors, and the queries that
//! every colored object answers. [`mana`] holds the mana symbols, their
//! canonical text and their converted cost.

pub mod color;
pub mod mana;
