use vstd::prelude::*;

use crate::chance::shuffle_meanings;
use crate::meaning::Meaning;

verus! {

/// One round of the quiz: the word shown, the meaning to pick, and the choices.
#[derive(Debug)]
pub struct Question {
    pub presented_word: String,
    pub correct: Meaning,
    pub choices: Vec<Meaning>,
    pub language_code: String,
}

impl Question {
    /// Holds the given parts; the choices are put in a random order.
    pub fn new(presented: String, correct: Meaning, choices: Vec<Meaning>, lang: &str) -> (r:
        Question)
        ensures
            r.presented_word == presented,
            r.correct == correct,
            r.choices@.to_multiset() == choices@.to_multiset(),
            r.language_code@ == lang@,
    {
        let mut choices = choices;
        shuffle_meanings(&mut choices);
        Question { presented_word: presented, correct, choices, language_code: lang.to_owned() }
    }
}

} // verus!
