use corvid::Meaning;

fn meaning(pairs: &[(&str, &str)]) -> Meaning {
    let mut m = Meaning::new();
    for (code, text) in pairs {
        m.add_translation(code, text);
    }
    m
}

#[test]
fn lookup_returns_added_text() {
    let m = meaning(&[("en", "The dog"), ("es", "El perro")]);
    assert_eq!(m.get_translation("en"), Some("The dog".to_string()));
    assert_eq!(m.get_translation("es"), Some("El perro".to_string()));
}

#[test]
fn lookup_of_missing_code_is_none() {
    let m = meaning(&[("en", "The dog")]);
    assert_eq!(m.get_translation("fr"), None);
    assert_eq!(Meaning::new().get_translation("en"), None);
}

#[test]
fn adding_same_code_replaces_text() {
    let mut m = meaning(&[("en", "The dog")]);
    m.add_translation("en", "The hound");
    assert_eq!(m.get_translation("en"), Some("The hound".to_string()));
    assert!(m == meaning(&[("en", "The hound")]));
}

#[test]
fn equality_ignores_insertion_order() {
    let a = meaning(&[("en", "The dog"), ("es", "El perro"), ("fr", "Le chien")]);
    let b = meaning(&[("fr", "Le chien"), ("en", "The dog"), ("es", "El perro")]);
    assert!(a == b);
    assert!(b == a);
}

#[test]
fn different_text_or_codes_are_unequal() {
    let a = meaning(&[("en", "The dog"), ("es", "El perro")]);
    let b = meaning(&[("en", "The dog"), ("es", "El gato")]);
    let c = meaning(&[("en", "The dog")]);
    assert!(a != b);
    assert!(a != c);
    assert!(c != a);
    assert!(Meaning::new() == Meaning::new());
    assert!(Meaning::new() != c);
}

#[test]
fn duplicate_is_equal() {
    let a = meaning(&[("en", "The cat"), ("de", "Die Katze")]);
    let b = a.duplicate();
    assert!(a == b);
    assert_eq!(b.get_translation("de"), Some("Die Katze".to_string()));
}
