use vstd::prelude::*;

verus! {

/// What a meaning says: for each language code, the text in that language.
pub type Translations = Map<Seq<char>, Seq<char>>;

/// The stored (code, text) pairs, as sequences of characters.
pub open spec fn pair_views(s: Seq<(String, String)>) -> Seq<(Seq<char>, Seq<char>)> {
    s.map_values(|p: (String, String)| (p.0@, p.1@))
}

/// No language code occurs twice.
pub open spec fn codes_unique(s: Seq<(Seq<char>, Seq<char>)>) -> bool {
    forall|i: int, j: int|
        0 <= i < s.len() && 0 <= j < s.len() && #[trigger] s[i].0 == #[trigger] s[j].0 ==> i == j
}

pub open spec fn has_code(s: Seq<(Seq<char>, Seq<char>)>, code: Seq<char>) -> bool {
    exists|i: int| 0 <= i < s.len() && #[trigger] s[i].0 == code
}

pub open spec fn code_index(s: Seq<(Seq<char>, Seq<char>)>, code: Seq<char>) -> int {
    choose|i: int| 0 <= i < s.len() && #[trigger] s[i].0 == code
}

/// The mapping that a list of pairs with unique codes stands for.
pub open spec fn pairs_map(s: Seq<(Seq<char>, Seq<char>)>) -> Translations {
    Map::new(|code: Seq<char>| has_code(s, code), |code: Seq<char>| s[code_index(s, code)].1)
}

/// One vocabulary entry: its text in each language that it has been given.
///
/// The texts are kept as (code, text) pairs with no code twice, rather than in
/// a `HashMap<String, String>`: vstd models a `HashMap` only for key types that
/// it declares to follow its key model, and `String` is not one of them, so no
/// proof could follow a lookup or an insert.
#[derive(Debug)]
pub struct Meaning {
    translations: Vec<(String, String)>,
}

impl View for Meaning {
    type V = Translations;

    closed spec fn view(&self) -> Translations {
        pairs_map(pair_views(self.translations@))
    }
}

proof fn lemma_lookup(s: Seq<(Seq<char>, Seq<char>)>, i: int)
    requires
        codes_unique(s),
        0 <= i < s.len(),
    ensures
        pairs_map(s).contains_key(s[i].0),
        pairs_map(s)[s[i].0] == s[i].1,
{
    let code = s[i].0;
    assert(has_code(s, code));
    let j = code_index(s, code);
    assert(s[j].0 == code);
}

proof fn lemma_update(s: Seq<(Seq<char>, Seq<char>)>, i: int, text: Seq<char>)
    requires
        codes_unique(s),
        0 <= i < s.len(),
    ensures
        codes_unique(s.update(i, (s[i].0, text))),
        pairs_map(s.update(i, (s[i].0, text))) == pairs_map(s).insert(s[i].0, text),
{
    let code = s[i].0;
    let t = s.update(i, (code, text));
    assert forall|a: int, b: int|
        0 <= a < t.len() && 0 <= b < t.len() && #[trigger] t[a].0 == #[trigger] t[b].0 implies a
        == b by {
        assert(t[a].0 == s[a].0 && t[b].0 == s[b].0);
    }
    assert forall|c: Seq<char>| has_code(s, c) implies has_code(t, c) by {
        let j = code_index(s, c);
        assert(t[j].0 == c);
    }
    assert forall|c: Seq<char>| has_code(t, c) implies has_code(s, c) by {
        let j = code_index(t, c);
        assert(s[j].0 == c);
    }
    assert forall|c: Seq<char>| #[trigger]
        pairs_map(t).contains_key(c) implies pairs_map(t)[c] == pairs_map(s).insert(code, text)[c] by {
        let j = code_index(t, c);
        let k = code_index(s, c);
        assert(t[j].0 == c && s[j].0 == c);
        assert(s[k].0 == c);
        assert(j == k);
        if j == i {
            assert(c == code);
        } else {
            assert(c != code);
        }
    }
    assert(pairs_map(t) =~= pairs_map(s).insert(code, text));
}

proof fn lemma_push(s: Seq<(Seq<char>, Seq<char>)>, code: Seq<char>, text: Seq<char>)
    requires
        codes_unique(s),
        !has_code(s, code),
    ensures
        codes_unique(s.push((code, text))),
        pairs_map(s.push((code, text))) == pairs_map(s).insert(code, text),
{
    let t = s.push((code, text));
    assert forall|a: int, b: int|
        0 <= a < t.len() && 0 <= b < t.len() && #[trigger] t[a].0 == #[trigger] t[b].0 implies a
        == b by {
        if a < s.len() && b < s.len() {
            assert(t[a].0 == s[a].0 && t[b].0 == s[b].0);
        } else if a < s.len() {
            assert(s[a].0 == code);
        } else if b < s.len() {
            assert(s[b].0 == code);
        }
    }
    assert forall|c: Seq<char>| has_code(s, c) || c == code implies has_code(t, c) by {
        if has_code(s, c) {
            let j = code_index(s, c);
            assert(t[j].0 == c);
        } else if c == code {
            assert(t[s.len() as int].0 == c);
        }
    }
    assert forall|c: Seq<char>| has_code(t, c) implies has_code(s, c) || c == code by {
        let j = code_index(t, c);
        if j < s.len() {
            assert(s[j].0 == c);
        }
    }
    assert forall|c: Seq<char>| #[trigger]
        pairs_map(t).contains_key(c) implies pairs_map(t)[c] == pairs_map(s).insert(code, text)[c] by {
        let j = code_index(t, c);
        if c == code {
            assert(t[s.len() as int].0 == c);
            assert(j == s.len());
        } else {
            let k = code_index(s, c);
            assert(s[k].0 == c && t[k].0 == c);
            assert(j == k);
        }
    }
    assert(pairs_map(t) =~= pairs_map(s).insert(code, text));
}

/// Two meanings have the same translations exactly when they agree code for
/// code: the same codes, each with the same text. `==` on meanings compares
/// their translations.
pub proof fn lemma_equal_code_for_code(a: Meaning, b: Meaning)
    ensures
        (a@ == b@) <==> forall|c: Seq<char>|
            (#[trigger] a@.contains_key(c) <==> b@.contains_key(c)) && (a@.contains_key(c)
                ==> a@[c] == b@[c]),
{
    if forall|c: Seq<char>|
        (#[trigger] a@.contains_key(c) <==> b@.contains_key(c)) && (a@.contains_key(c) ==> a@[c]
            == b@[c]) {
        assert(a@ =~= b@);
    }
}

/// Translations added for two different codes give the same meaning whichever
/// was added first; with `Meaning::add_translation` and `==` this makes the
/// equality of meanings independent of the order of insertion.
pub proof fn lemma_translation_order(
    t: Translations,
    code1: Seq<char>,
    text1: Seq<char>,
    code2: Seq<char>,
    text2: Seq<char>,
)
    requires
        code1 != code2,
    ensures
        t.insert(code1, text1).insert(code2, text2) == t.insert(code2, text2).insert(code1, text1),
{
    assert(t.insert(code1, text1).insert(code2, text2) =~= t.insert(code2, text2).insert(
        code1,
        text1,
    ));
}

impl Meaning {
    #[verifier::type_invariant]
    spec fn codes_are_unique(self) -> bool {
        codes_unique(pair_views(self.translations@))
    }

    /// A meaning with no translations yet.
    pub fn new() -> (r: Meaning)
        ensures
            r@ == Translations::empty(),
    {
        let r = Meaning { translations: Vec::new() };
        assert(r@ =~= Translations::empty());
        r
    }

    /// Where `code` is stored, if anywhere.
    fn position_of(&self, code: &str) -> (r: Option<usize>)
        ensures
            match r {
                Some(i) => i < self.translations@.len() && self.translations@[i as int].0@ == code@,
                None => !has_code(pair_views(self.translations@), code@),
            },
    {
        let key = code.to_owned();
        let n = self.translations.len();
        let mut i: usize = 0;
        while i < n
            invariant
                n == self.translations@.len(),
                key@ == code@,
                i <= n,
                forall|j: int| 0 <= j < i ==> self.translations@[j].0@ != code@,
            decreases n - i,
        {
            if self.translations[i].0 == key {
                return Some(i);
            }
            i = i + 1;
        }
        let ghost s = pair_views(self.translations@);
        assert forall|j: int| 0 <= j < s.len() implies #[trigger] s[j].0 != code@ by {
            assert(s[j].0 == self.translations@[j].0@);
        }
        None
    }

    /// Sets the text for `code`, replacing any text it had.
    pub fn add_translation(&mut self, code: &str, text: &str)
        ensures
            final(self)@ == old(self)@.insert(code@, text@),
    {
        proof {
            use_type_invariant(&*self);
        }
        let pos = self.position_of(code);
        let mut pairs: Vec<(String, String)> = Vec::new();
        std::mem::swap(&mut pairs, &mut self.translations);
        let ghost before = pair_views(pairs@);
        match pos {
            Some(i) => {
                pairs.set(i, (code.to_owned(), text.to_owned()));
                proof {
                    lemma_update(before, i as int, text@);
                    assert(pair_views(pairs@) =~= before.update(i as int, (before[i as int].0, text@)));
                }
            },
            None => {
                pairs.push((code.to_owned(), text.to_owned()));
                proof {
                    lemma_push(before, code@, text@);
                    assert(pair_views(pairs@) =~= before.push((code@, text@)));
                }
            },
        }
        self.translations = pairs;
    }

    /// The text for `code`, if this meaning has one.
    pub fn get_translation(&self, code: &str) -> (r: Option<String>)
        ensures
            match r {
                Some(t) => self@.contains_key(code@) && t@ == self@[code@],
                None => !self@.contains_key(code@),
            },
    {
        proof {
            use_type_invariant(self);
        }
        match self.position_of(code) {
            Some(i) => {
                proof {
                    lemma_lookup(pair_views(self.translations@), i as int);
                }
                Some(self.translations[i].1.clone())
            },
            None => None,
        }
    }
}

impl Meaning {
    /// Whether every translation of `self` is also a translation of `other`.
    fn translations_within(&self, other: &Meaning) -> (r: bool)
        ensures
            r == (forall|c: Seq<char>| #[trigger]
                self@.contains_key(c) ==> other@.contains_key(c) && other@[c] == self@[c]),
    {
        proof {
            use_type_invariant(self);
        }
        let ghost s = pair_views(self.translations@);
        let n = self.translations.len();
        let mut i: usize = 0;
        while i < n
            invariant
                n == self.translations@.len(),
                s == pair_views(self.translations@),
                codes_unique(s),
                i <= n,
                forall|j: int|
                    0 <= j < i ==> other@.contains_key(#[trigger] s[j].0) && other@[s[j].0]
                        == s[j].1,
            decreases n - i,
        {
            let found = other.get_translation(self.translations[i].0.as_str());
            proof {
                lemma_lookup(s, i as int);
            }
            match found {
                Some(t) => {
                    if t != self.translations[i].1 {
                        assert(self@.contains_key(s[i as int].0));
                        return false;
                    }
                },
                None => {
                    assert(self@.contains_key(s[i as int].0));
                    return false;
                },
            }
            i = i + 1;
        }
        assert forall|c: Seq<char>| #[trigger]
            self@.contains_key(c) implies other@.contains_key(c) && other@[c] == self@[c] by {
            let j = code_index(s, c);
            lemma_lookup(s, j);
        }
        true
    }
}

impl Meaning {
    /// A meaning with the same translations.
    pub fn duplicate(&self) -> (r: Meaning)
        ensures
            r@ == self@,
    {
        proof {
            use_type_invariant(self);
        }
        let ghost s = pair_views(self.translations@);
        let n = self.translations.len();
        let mut pairs: Vec<(String, String)> = Vec::new();
        let mut i: usize = 0;
        while i < n
            invariant
                n == self.translations@.len(),
                s == pair_views(self.translations@),
                i <= n,
                pairs@.len() == i,
                pair_views(pairs@) == s.take(i as int),
            decreases n - i,
        {
            let code = self.translations[i].0.clone();
            let text = self.translations[i].1.clone();
            assert(s[i as int] == (code@, text@));
            pairs.push((code, text));
            assert(pair_views(pairs@) =~= s.take(i + 1));
            i = i + 1;
        }
        assert(s.take(n as int) =~= s);
        Meaning { translations: pairs }
    }
}

impl PartialEq for Meaning {
    /// Two meanings are equal when they give the same text for the same codes,
    /// whatever order the translations were added in.
    fn eq(&self, other: &Meaning) -> (r: bool)
        ensures
            r == (self@ == other@),
    {
        let r = self.translations_within(other) && other.translations_within(self);
        if r {
            assert(self@ =~= other@);
        }
        r
    }
}

impl vstd::std_specs::cmp::PartialEqSpecImpl for Meaning {
    open spec fn obeys_eq_spec() -> bool {
        true
    }

    open spec fn eq_spec(&self, other: &Meaning) -> bool {
        self@ == other@
    }
}

impl Eq for Meaning {

}

} // verus!
