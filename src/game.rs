use vstd::prelude::*;

use crate::chance::{index_below, shuffle_meanings};
use crate::meaning::{Meaning, Translations};
use crate::pool::{
    distinct_meanings, distractor_views, distractors, drawn_from, holds_once,
    lemma_assembled_round, lemma_distinct_pool_distractors, lemma_reorder_keeps_round,
    meaning_views, wrong_answers_from,
};
use crate::question::Question;

verus! {

/// The text that stands for a meaning in a language: its translation, or `???`
/// where it has none.
pub open spec fn shown_text(t: Translations, code: Seq<char>) -> Seq<char> {
    if t.contains_key(code) {
        t[code]
    } else {
        "???"@
    }
}

/// The text of `m` in the language `code`, with `???` where it has none.
pub fn display_text(m: &Meaning, code: &str) -> (r: String)
    ensures
        r@ == shown_text(m@, code@),
{
    match m.get_translation(code) {
        Some(t) => t,
        None => "???".to_owned(),
    }
}

/// Why a game cannot be set up.
#[derive(Debug, Clone, Copy, PartialEq, Eq, Structural)]
pub enum GameError {
    /// The vocabulary holds no meaning.
    EmptyVocabulary,
    /// A round was asked to offer no choice at all.
    NoChoices,
}

/// Which of the user's two languages the word is shown in.
#[derive(Debug, Clone, Copy, PartialEq, Eq, Structural)]
pub enum Direction {
    /// The word is shown in the language being learnt, the choices in the known one.
    Normal,
    /// The word is shown in the known language, the choices in the one being learnt.
    Reverse,
}

impl Direction {
    /// The source and target languages of a session, in that order, for a user
    /// who knows `known` and learns `learning`.
    pub fn languages(self, known: &str, learning: &str) -> (r: (String, String))
        ensures
            self == Direction::Normal ==> r.0@ == known@ && r.1@ == learning@,
            self == Direction::Reverse ==> r.0@ == learning@ && r.1@ == known@,
    {
        match self {
            Direction::Normal => (known.to_owned(), learning.to_owned()),
            Direction::Reverse => (learning.to_owned(), known.to_owned()),
        }
    }
}

/// A quiz session: the vocabulary, the two languages, the score and the current round.
#[derive(Debug)]
pub struct Game {
    vocab: Vec<Meaning>,
    source_lang: String,
    target_lang: String,
    current: Option<Question>,
    score_correct: u32,
    score_wrong: u32,
    num_choices: u32,
}

/// What a session holds, as the contracts speak of it.
pub struct GameView {
    pub vocab: Seq<Meaning>,
    pub source_lang: Seq<char>,
    pub target_lang: Seq<char>,
    pub current: Option<Question>,
    pub score_correct: u32,
    pub score_wrong: u32,
    pub num_choices: u32,
}

impl View for Game {
    type V = GameView;

    closed spec fn view(&self) -> GameView {
        GameView {
            vocab: self.vocab@,
            source_lang: self.source_lang@,
            target_lang: self.target_lang@,
            current: self.current,
            score_correct: self.score_correct,
            score_wrong: self.score_wrong,
            num_choices: self.num_choices,
        }
    }
}

/// The two states have the same vocabulary, languages and number of choices.
pub open spec fn same_settings(a: GameView, b: GameView) -> bool {
    &&& a.vocab == b.vocab
    &&& a.source_lang == b.source_lang
    &&& a.target_lang == b.target_lang
    &&& a.num_choices == b.num_choices
}

/// `q` is a round that a session with these settings may pose: its correct
/// meaning comes from the vocabulary and stands exactly once among the choices,
/// every choice comes from the vocabulary, the other choices are wrong answers
/// taken without repetition from the vocabulary's other entries, the word shown is the correct
/// meaning's text in the target language, and there are as many choices as
/// asked for, or all the wrong answers that the vocabulary has if it has fewer.
pub open spec fn sound_round(q: Question, vocab: Seq<Meaning>, target: Seq<char>, num_choices: u32) -> bool {
    let wrong = distractor_views(vocab, q.correct@).len();
    &&& meaning_views(vocab).contains(q.correct@)
    &&& q.presented_word@ == shown_text(q.correct@, target)
    &&& q.language_code@ == target
    &&& holds_once(q.choices@, q.correct@)
    &&& drawn_from(q.choices@, vocab)
    &&& wrong_answers_from(q.choices@, q.correct@, vocab)
    &&& q.choices@.len() == 1 + if num_choices - 1 <= wrong {
        num_choices - 1
    } else {
        wrong as int
    }
    &&& distinct_meanings(vocab) ==> q.choices@.len() == num_choices
}

/// The choice at `choice_index` exists and has the translations of the
/// round's correct meaning.
pub open spec fn answer_hits(q: Question, choice_index: usize) -> bool {
    choice_index < q.choices@.len() && q.choices@[choice_index as int]@ == q.correct@
}

impl Game {
    #[verifier::type_invariant]
    spec fn settings_valid(self) -> bool {
        &&& self.vocab@.len() > 0
        &&& 1 <= self.num_choices <= self.vocab@.len()
    }

    /// Sets up a session. The number of choices is cut down to the size of the
    /// vocabulary.
    pub fn new(vocab: Vec<Meaning>, source_lang: &str, target_lang: &str, num_choices: u32) -> (r:
        Result<Game, GameError>)
        ensures
            vocab@.len() == 0 <==> r == Err::<Game, GameError>(GameError::EmptyVocabulary),
            vocab@.len() > 0 && num_choices == 0 <==> r == Err::<Game, GameError>(
                GameError::NoChoices,
            ),
            r is Ok ==> {
                let g = r->Ok_0@;
                &&& g.vocab == vocab@
                &&& g.source_lang == source_lang@
                &&& g.target_lang == target_lang@
                &&& g.current is None
                &&& g.score_correct == 0
                &&& g.score_wrong == 0
                &&& g.num_choices == if num_choices as int <= vocab@.len() {
                    num_choices as int
                } else {
                    vocab@.len() as int
                }
            },
    {
        if vocab.len() == 0 {
            return Err(GameError::EmptyVocabulary);
        }
        if num_choices == 0 {
            return Err(GameError::NoChoices);
        }
        let count = if num_choices as usize <= vocab.len() {
            num_choices
        } else {
            vocab.len() as u32
        };
        Ok(
            Game {
                vocab,
                source_lang: source_lang.to_owned(),
                target_lang: target_lang.to_owned(),
                current: None,
                score_correct: 0,
                score_wrong: 0,
                num_choices: count,
            },
        )
    }
}

impl Game {
    /// Starts a round whose correct meaning is the vocabulary's entry at
    /// `correct_index`; its wrong answers and the order of the choices are drawn
    /// at random.
    pub fn next_question_at(&mut self, correct_index: usize)
        requires
            correct_index < old(self)@.vocab.len(),
        ensures
            same_settings(final(self)@, old(self)@),
            final(self)@.score_correct == old(self)@.score_correct,
            final(self)@.score_wrong == old(self)@.score_wrong,
            final(self)@.current is Some,
            final(self)@.current->Some_0.correct@ == old(self)@.vocab[correct_index as int]@,
            sound_round(
                final(self)@.current->Some_0,
                old(self)@.vocab,
                old(self)@.target_lang,
                old(self)@.num_choices,
            ),
    {
        proof {
            use_type_invariant(&*self);
        }
        let correct = self.vocab[correct_index].duplicate();
        let num_wrong = (self.num_choices - 1) as usize;
        let mut others = distractors(&self.vocab, &correct);
        let ghost all_others = others@;
        shuffle_meanings(&mut others);
        let ghost shuffled = others@;
        others.truncate(num_wrong);
        let mut choices: Vec<Meaning> = Vec::new();
        choices.push(correct.duplicate());
        choices.append(&mut others);
        let ghost assembled = choices@;
        proof {
            let kept = if num_wrong <= shuffled.len() {
                num_wrong as int
            } else {
                shuffled.len() as int
            };
            assert(meaning_views(self.vocab@)[correct_index as int] == correct@);
            lemma_assembled_round(self.vocab@, choices@[0], all_others, shuffled, kept);
            assert(assembled =~= seq![choices@[0]] + shuffled.take(kept));
        }
        shuffle_meanings(&mut choices);
        let presented = display_text(&correct, self.target_lang.as_str());
        let question = Question::new(presented, correct, choices, self.target_lang.as_str());
        proof {
            lemma_reorder_keeps_round(assembled, choices@, question.correct@, self.vocab@);
            lemma_reorder_keeps_round(choices@, question.choices@, question.correct@, self.vocab@);
            if distinct_meanings(self.vocab@) {
                lemma_distinct_pool_distractors(self.vocab@, correct_index as int);
            }
        }
        self.current = Some(question);
    }

    /// Starts a round on a meaning of the vocabulary drawn at random.
    pub fn next_question(&mut self)
        ensures
            same_settings(final(self)@, old(self)@),
            final(self)@.score_correct == old(self)@.score_correct,
            final(self)@.score_wrong == old(self)@.score_wrong,
            final(self)@.current is Some,
            sound_round(
                final(self)@.current->Some_0,
                old(self)@.vocab,
                old(self)@.target_lang,
                old(self)@.num_choices,
            ),
    {
        proof {
            use_type_invariant(&*self);
        }
        let index = index_below(self.vocab.len());
        self.next_question_at(index);
    }

    /// Scores the choice at `choice_index` in the current round. Before the first
    /// round this is `false` and changes nothing; an index past the choices
    /// counts as a wrong answer.
    pub fn check_answer(&mut self, choice_index: usize) -> (r: bool)
        requires
            old(self)@.current is Some ==> if answer_hits(old(self)@.current->Some_0, choice_index) {
                old(self)@.score_correct < u32::MAX
            } else {
                old(self)@.score_wrong < u32::MAX
            },
        ensures
            old(self)@.current is None ==> !r && final(self)@ == old(self)@,
            old(self)@.current is Some ==> {
                let q = old(self)@.current->Some_0;
                &&& r == answer_hits(q, choice_index)
                &&& same_settings(final(self)@, old(self)@)
                &&& final(self)@.current == old(self)@.current
                &&& final(self)@.score_correct == old(self)@.score_correct + if r {
                    1int
                } else {
                    0int
                }
                &&& final(self)@.score_wrong == old(self)@.score_wrong + if r {
                    0int
                } else {
                    1int
                }
            },
    {
        proof {
            use_type_invariant(&*self);
        }
        if self.current.is_none() {
            return false;
        }
        let hit = self.is_right(choice_index);
        if hit {
            self.score_correct = self.score_correct + 1;
        } else {
            self.score_wrong = self.score_wrong + 1;
        }
        hit
    }

    /// Whether the choice at `choice_index` of the current round is the correct
    /// meaning; `false` before the first round.
    pub fn is_right(&self, choice_index: usize) -> (r: bool)
        ensures
            r == (self@.current is Some && answer_hits(self@.current->Some_0, choice_index)),
    {
        match &self.current {
            Some(q) => choice_index < q.choices.len() && q.choices[choice_index] == q.correct,
            None => false,
        }
    }
}

impl Game {
    /// The vocabulary that rounds are drawn from.
    pub fn vocab(&self) -> (r: &Vec<Meaning>)
        ensures
            r@ == self@.vocab,
    {
        &self.vocab
    }

    /// The language that the choices are shown in.
    pub fn source_lang(&self) -> (r: &str)
        ensures
            r@ == self@.source_lang,
    {
        self.source_lang.as_str()
    }

    /// The language that the word is shown in.
    pub fn target_lang(&self) -> (r: &str)
        ensures
            r@ == self@.target_lang,
    {
        self.target_lang.as_str()
    }

    /// The round being played, if one has started.
    pub fn current(&self) -> (r: Option<&Question>)
        ensures
            match r {
                Some(q) => self@.current == Some(*q),
                None => self@.current is None,
            },
    {
        match &self.current {
            Some(q) => Some(q),
            None => None,
        }
    }

    /// How many answers were right.
    pub fn score_correct(&self) -> (r: u32)
        ensures
            r == self@.score_correct,
    {
        self.score_correct
    }

    /// How many answers were wrong.
    pub fn score_wrong(&self) -> (r: u32)
        ensures
            r == self@.score_wrong,
    {
        self.score_wrong
    }

    /// How many choices a round offers when the vocabulary allows it.
    pub fn num_choices(&self) -> (r: u32)
        ensures
            r == self@.num_choices,
    {
        self.num_choices
    }

    /// The text of each choice of the current round in the source language, in
    /// order; none before the first round.
    pub fn choice_labels(&self) -> (r: Vec<String>)
        ensures
            self@.current is None ==> r@.len() == 0,
            self@.current is Some ==> {
                let q = self@.current->Some_0;
                &&& r@.len() == q.choices@.len()
                &&& forall|i: int|
                    0 <= i < r@.len() ==> #[trigger] r@[i]@ == shown_text(
                        q.choices@[i]@,
                        self@.source_lang,
                    )
            },
    {
        let mut labels: Vec<String> = Vec::new();
        match &self.current {
            Some(q) => {
                let n = q.choices.len();
                let mut i: usize = 0;
                while i < n
                    invariant
                        n == q.choices@.len(),
                        i <= n,
                        labels@.len() == i,
                        forall|j: int|
                            0 <= j < i ==> #[trigger] labels@[j]@ == shown_text(
                                q.choices@[j]@,
                                self.source_lang@,
                            ),
                    decreases n - i,
                {
                    labels.push(display_text(&q.choices[i], self.source_lang.as_str()));
                    i = i + 1;
                }
            },
            None => {},
        }
        labels
    }
}

} // verus!
