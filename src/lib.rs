//! A vocabulary quiz: meanings with a text per language, rounds that offer the
//! right meaning among wrong ones drawn from a vocabulary, and a scored session.

mod chance;
pub mod game;
pub mod meaning;
pub mod pool;
pub mod question;
pub mod vocab;

pub use game::{Direction, Game, GameError};
pub use meaning::{Meaning, Translations};
pub use question::Question;
pub use vocab::{create_animal_vocab, create_food_vocab, create_verb_vocab, Topic};
