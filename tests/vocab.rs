use corvid::{create_animal_vocab, create_food_vocab, create_verb_vocab, Game, Topic};

fn complete(vocab: &[corvid::Meaning]) -> bool {
    vocab.iter().all(|m| {
        ["es", "en", "fr", "de"].iter().all(|code| m.get_translation(code).is_some())
    })
}

#[test]
fn built_in_lists_have_expected_sizes() {
    assert_eq!(create_animal_vocab().len(), 60);
    assert_eq!(create_food_vocab().len(), 61);
    assert_eq!(create_verb_vocab().len(), 49);
}

#[test]
fn built_in_lists_have_all_languages() {
    assert!(complete(&create_animal_vocab()));
    assert!(complete(&create_food_vocab()));
    assert!(complete(&create_verb_vocab()));
}

#[test]
fn first_animal_entry() {
    let v = create_animal_vocab();
    assert_eq!(v[0].get_translation("es"), Some("El perro".to_string()));
    assert_eq!(v[0].get_translation("en"), Some("The dog".to_string()));
    assert_eq!(v[0].get_translation("fr"), Some("Le chien".to_string()));
    assert_eq!(v[0].get_translation("de"), Some("Der Hund".to_string()));
}

#[test]
fn topics_select_their_lists() {
    assert!(Topic::Animals.vocab()[1] == create_animal_vocab()[1]);
    assert!(Topic::Foods.vocab()[0] == create_food_vocab()[0]);
    assert_eq!(Topic::BasicVerbs.vocab().len(), 49);
    assert_eq!(
        Topic::BasicVerbs.vocab()[0].get_translation("en"),
        Some("To be (essential/permanent)".to_string())
    );
}

#[test]
fn hard_round_on_animals() {
    let mut g = Game::new(Topic::Animals.vocab(), "en", "es", 7).unwrap();
    g.next_question();
    let q = g.current().unwrap();
    assert_eq!(q.choices.len(), 7);
    assert_eq!(q.presented_word, q.correct.get_translation("es").unwrap());
}

#[test]
fn last_animal_is_the_ostrich() {
    let v = create_animal_vocab();
    assert_eq!(v[59].get_translation("en"), Some("The ostrich".to_string()));
    assert_eq!(v[59].get_translation("es"), Some("La avestruz".to_string()));
}

#[test]
fn entries_have_only_the_four_codes() {
    let v = create_food_vocab();
    assert_eq!(v[0].get_translation("it"), None);
    assert_eq!(v[0].get_translation("en"), Some("The apple".to_string()));
    assert_eq!(v[0].get_translation("es"), Some("La manzana".to_string()));
}

#[test]
fn repeated_cucumber_entries_are_equal() {
    let v = create_food_vocab();
    assert!(v[35] == v[43]);
    assert_eq!(v[35].get_translation("es"), Some("El pepino".to_string()));
}

#[test]
fn ser_and_estar_share_french_but_differ() {
    let v = create_verb_vocab();
    assert_eq!(v[0].get_translation("es"), Some("Ser".to_string()));
    assert_eq!(v[1].get_translation("es"), Some("Estar".to_string()));
    assert_eq!(v[0].get_translation("fr"), Some("Être".to_string()));
    assert_eq!(v[0].get_translation("fr"), v[1].get_translation("fr"));
    assert!(v[0] != v[1]);
}

#[test]
fn two_calls_give_equal_lists() {
    let a = create_verb_vocab();
    let b = create_verb_vocab();
    assert_eq!(a.len(), b.len());
    assert!(a.iter().zip(b.iter()).all(|(x, y)| x == y));
}
