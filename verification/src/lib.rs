//! Pairwise skill rating: the match outcome shared by both competitors.

pub mod outcome;

pub use outcome::Outcome;
