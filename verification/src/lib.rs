//! Feedback for a word-guessing game.
//!
//! A guess is held against a secret answer of the same length, and every
//! letter of the guess is marked as correct, present elsewhere, or absent
//! ([`feedback`]). The words that may be guessed and the words that may be the
//! answer come from two texts with one word per line, all of one length
//! ([`library`]).

pub mod feedback;
pub mod library;
pub mod text;

pub use feedback::evaluate_letter;
pub use feedback::GuessResult;
pub use feedback::LetterState;
pub use library::Library;
pub use library::LoadError;
