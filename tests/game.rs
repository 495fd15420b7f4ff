use corvid::pool::distractors;
use corvid::{Direction, Game, GameError, Meaning};

fn entry(en: &str, es: &str) -> Meaning {
    let mut m = Meaning::new();
    m.add_translation("en", en);
    m.add_translation("es", es);
    m
}

fn farm() -> Vec<Meaning> {
    vec![
        entry("The dog", "El perro"),
        entry("The cat", "El gato"),
        entry("The pig", "El cerdo"),
    ]
}

fn numbered(n: usize) -> Vec<Meaning> {
    (0..n)
        .map(|i| entry(&format!("word {}", i), &format!("palabra {}", i)))
        .collect()
}

fn correct_slot(g: &Game) -> usize {
    let q = g.current().unwrap();
    let hits: Vec<usize> = (0..q.choices.len()).filter(|&i| q.choices[i] == q.correct).collect();
    assert_eq!(hits.len(), 1);
    hits[0]
}

#[test]
fn farm_round_choices_are_the_whole_pool() {
    let mut g = Game::new(farm(), "en", "es", 3).unwrap();
    g.next_question();
    let q = g.current().unwrap();
    assert!(["El perro", "El gato", "El cerdo"].contains(&q.presented_word.as_str()));
    assert_eq!(q.choices.len(), 3);
    for m in farm() {
        assert_eq!(q.choices.iter().filter(|c| **c == m).count(), 1);
    }
    let expected_en = match q.presented_word.as_str() {
        "El perro" => "The dog",
        "El gato" => "The cat",
        _ => "The pig",
    };
    let matching: Vec<usize> = (0..3)
        .filter(|&i| q.choices[i].get_translation("en") == Some(expected_en.to_string()))
        .collect();
    assert_eq!(matching.len(), 1);
    assert_eq!(matching[0], correct_slot(&g));
    assert_eq!(q.language_code, "es");
}

#[test]
fn farm_round_right_answer_scores() {
    let mut g = Game::new(farm(), "en", "es", 3).unwrap();
    g.next_question();
    let i = correct_slot(&g);
    assert!(g.check_answer(i));
    assert_eq!(g.score_correct(), 1);
    assert_eq!(g.score_wrong(), 0);
}

#[test]
fn farm_round_wrong_answer_scores() {
    for wrong_offset in 1..3 {
        let mut g = Game::new(farm(), "en", "es", 3).unwrap();
        g.next_question();
        let i = (correct_slot(&g) + wrong_offset) % 3;
        assert!(!g.check_answer(i));
        assert_eq!(g.score_correct(), 0);
        assert_eq!(g.score_wrong(), 1);
    }
}

#[test]
fn answer_before_any_round_changes_nothing() {
    let mut g = Game::new(farm(), "en", "es", 3).unwrap();
    assert!(g.current().is_none());
    assert!(!g.check_answer(0));
    assert!(!g.check_answer(5));
    assert_eq!(g.score_correct(), 0);
    assert_eq!(g.score_wrong(), 0);
    assert!(g.current().is_none());
    assert!(g.choice_labels().is_empty());
}

#[test]
fn round_has_requested_number_of_choices() {
    let mut g = Game::new(numbered(10), "en", "es", 5).unwrap();
    for _ in 0..50 {
        g.next_question();
        let q = g.current().unwrap();
        assert_eq!(q.choices.len(), 5);
        assert_eq!(q.choices.iter().filter(|c| **c == q.correct).count(), 1);
        for c in &q.choices {
            assert!(g.vocab().iter().any(|m| m == c));
        }
    }
}

#[test]
fn pool_exactly_as_large_as_choices() {
    let mut g = Game::new(numbered(7), "en", "es", 7).unwrap();
    g.next_question();
    let q = g.current().unwrap();
    assert_eq!(q.choices.len(), 7);
    for m in numbered(7) {
        assert_eq!(q.choices.iter().filter(|c| **c == m).count(), 1);
    }
}

#[test]
fn every_meaning_can_be_the_answer() {
    let pool = numbered(4);
    let mut g = Game::new(numbered(4), "en", "es", 3).unwrap();
    let mut seen = [false; 4];
    for _ in 0..400 {
        g.next_question();
        let q = g.current().unwrap();
        let k = pool.iter().position(|m| *m == q.correct).unwrap();
        seen[k] = true;
    }
    assert!(seen.iter().all(|&s| s));
}

#[test]
fn correct_answer_position_varies() {
    let mut g = Game::new(numbered(5), "en", "es", 5).unwrap();
    let mut positions = [0usize; 5];
    for _ in 0..300 {
        g.next_question();
        positions[correct_slot(&g)] += 1;
    }
    assert!(positions.iter().filter(|&&n| n > 0).count() > 1);
}

#[test]
fn chosen_index_sets_the_answer() {
    let mut g = Game::new(farm(), "en", "es", 2).unwrap();
    g.next_question_at(2);
    let q = g.current().unwrap();
    assert!(q.correct == entry("The pig", "El cerdo"));
    assert_eq!(q.presented_word, "El cerdo");
    assert_eq!(q.choices.len(), 2);
}

#[test]
fn empty_vocabulary_is_refused() {
    assert_eq!(Game::new(Vec::new(), "en", "es", 3).err(), Some(GameError::EmptyVocabulary));
    assert_eq!(Game::new(Vec::new(), "en", "es", 0).err(), Some(GameError::EmptyVocabulary));
}

#[test]
fn zero_choices_is_refused() {
    assert_eq!(Game::new(farm(), "en", "es", 0).err(), Some(GameError::NoChoices));
}

#[test]
fn choice_count_is_cut_to_vocabulary_size() {
    let mut g = Game::new(farm(), "en", "es", 7).unwrap();
    assert_eq!(g.num_choices(), 3);
    g.next_question();
    assert_eq!(g.current().unwrap().choices.len(), 3);
    let g = Game::new(farm(), "en", "es", 2).unwrap();
    assert_eq!(g.num_choices(), 2);
}

#[test]
fn settings_are_kept() {
    let g = Game::new(farm(), "es", "en", 3).unwrap();
    assert_eq!(g.source_lang(), "es");
    assert_eq!(g.target_lang(), "en");
    assert_eq!(g.vocab().len(), 3);
    assert_eq!(g.score_correct(), 0);
    assert_eq!(g.score_wrong(), 0);
}

#[test]
fn repeated_meanings_give_fewer_choices() {
    let pool = vec![
        entry("The dog", "El perro"),
        entry("The dog", "El perro"),
        entry("The cat", "El gato"),
    ];
    let mut g = Game::new(pool, "en", "es", 3).unwrap();
    g.next_question_at(0);
    let q = g.current().unwrap();
    assert_eq!(q.choices.len(), 2);
    assert_eq!(q.choices.iter().filter(|c| **c == q.correct).count(), 1);
}

#[test]
fn distractors_skip_equal_meanings() {
    let pool = vec![
        entry("The dog", "El perro"),
        entry("The cat", "El gato"),
        entry("The dog", "El perro"),
        entry("The pig", "El cerdo"),
    ];
    let others = distractors(&pool, &entry("The dog", "El perro"));
    assert_eq!(others.len(), 2);
    assert!(others[0] == entry("The cat", "El gato"));
    assert!(others[1] == entry("The pig", "El cerdo"));
}

#[test]
fn index_past_choices_counts_as_wrong() {
    let mut g = Game::new(farm(), "en", "es", 3).unwrap();
    g.next_question();
    assert!(!g.check_answer(3));
    assert_eq!(g.score_correct(), 0);
    assert_eq!(g.score_wrong(), 1);
}

#[test]
fn scores_add_up_over_rounds() {
    let mut g = Game::new(numbered(6), "en", "es", 3).unwrap();
    for round in 0..10 {
        g.next_question();
        let right = correct_slot(&g);
        let pick = if round % 3 == 0 { (right + 1) % 3 } else { right };
        assert_eq!(g.check_answer(pick), round % 3 != 0);
    }
    assert_eq!(g.score_correct(), 6);
    assert_eq!(g.score_wrong(), 4);
}

#[test]
fn missing_translation_shows_placeholder() {
    let mut only_en = Meaning::new();
    only_en.add_translation("en", "The fox");
    let mut g = Game::new(vec![only_en], "de", "fr", 1).unwrap();
    g.next_question();
    assert_eq!(g.current().unwrap().presented_word, "???");
    assert_eq!(g.choice_labels(), vec!["???".to_string()]);
}

#[test]
fn labels_follow_choices_in_source_language() {
    let mut g = Game::new(farm(), "en", "es", 3).unwrap();
    g.next_question();
    let labels = g.choice_labels();
    let q = g.current().unwrap();
    assert_eq!(labels.len(), 3);
    for (label, choice) in labels.iter().zip(q.choices.iter()) {
        assert_eq!(Some(label.clone()), choice.get_translation("en"));
    }
}

#[test]
fn direction_orders_languages() {
    assert_eq!(
        Direction::Normal.languages("en", "es"),
        ("en".to_string(), "es".to_string())
    );
    assert_eq!(
        Direction::Reverse.languages("en", "es"),
        ("es".to_string(), "en".to_string())
    );
}

#[test]
fn is_right_matches_check_answer() {
    let mut g = Game::new(farm(), "en", "es", 3).unwrap();
    assert!(!g.is_right(0));
    g.next_question();
    let right = correct_slot(&g);
    assert!(g.is_right(right));
    assert!(!g.is_right((right + 1) % 3));
    assert!(!g.is_right(3));
    assert!(g.check_answer(right));
}

#[test]
fn farm_round_is_a_permutation_of_the_pool() {
    for _ in 0..20 {
        let mut g = Game::new(farm(), "en", "es", 3).unwrap();
        g.next_question();
        let q = g.current().unwrap();
        for m in farm() {
            assert_eq!(q.choices.iter().filter(|c| **c == m).count(), 1);
        }
    }
}
