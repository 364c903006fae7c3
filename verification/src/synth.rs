//! The synthesizer drivers' verified parts: their settings and, for OneCore,
//! the parsing of the WAV streams it synthesizes.

pub mod capture;
pub mod onecore;
