//! Random selection of distinct emoji from a fixed catalog.
//!
//! The catalog is a constant table of symbols. A sample is taken by
//! shuffling the positions of the table with a Fisher-Yates pass and
//! keeping the symbols found at the first positions of the result.

pub mod catalog;
pub mod distinct;
pub mod entropy;
pub mod generator;
pub mod shuffle;

pub use generator::EmojiGenerator;
