use vstd::prelude::*;

use crate::meaning::{Meaning, Translations};
use crate::pool::meaning_views;

verus! {

/// A built-in entry: exactly the codes es, en, fr and de, with these texts.
pub open spec fn entry_of(es: Seq<char>, en: Seq<char>, fr: Seq<char>, de: Seq<char>) -> Translations {
    Translations::empty().insert("es"@, es).insert("en"@, en).insert("fr"@, fr).insert("de"@, de)
}

/// Appends the meaning with these Spanish, English, French and German texts,
/// which `table` holds next.
fn add_entry(
    vocab: &mut Vec<Meaning>,
    Ghost(table): Ghost<Seq<Translations>>,
    es: &str,
    en: &str,
    fr: &str,
    de: &str,
)
    requires
        old(vocab)@.len() < table.len(),
        meaning_views(old(vocab)@) == table.take(old(vocab)@.len() as int),
        table[old(vocab)@.len() as int] == entry_of(es@, en@, fr@, de@),
    ensures
        final(vocab)@.len() == old(vocab)@.len() + 1,
        meaning_views(final(vocab)@) == table.take(final(vocab)@.len() as int),
{
    let mut m = Meaning::new();
    m.add_translation("es", es);
    m.add_translation("en", en);
    m.add_translation("fr", fr);
    m.add_translation("de", de);
    let ghost before = vocab@;
    vocab.push(m);
    assert(meaning_views(vocab@) =~= meaning_views(before).push(m@));
    assert(table.take(vocab@.len() as int) =~= table.take(before.len() as int).push(
        table[before.len() as int],
    ));
}

/// Entry `i` of the built-in list of animals.
pub open spec fn animal_entry(i: int) -> Translations {
    if i == 0 {
        entry_of("El perro"@, "The dog"@, "Le chien"@, "Der Hund"@)
    } else if i == 1 {
        entry_of("El gato"@, "The cat"@, "Le chat"@, "Die Katze"@)
    } else if i == 2 {
        entry_of("El cerdo"@, "The pig"@, "Le cochon"@, "Das Schwein"@)
    } else if i == 3 {
        entry_of("El caballo"@, "The horse"@, "Le cheval"@, "Das Pferd"@)
    } else if i == 4 {
        entry_of("El pájaro"@, "The bird"@, "L’oiseau"@, "Der Vogel"@)
    } else if i == 5 {
        entry_of("La vaca"@, "The cow"@, "La vache"@, "Die Kuh"@)
    } else if i == 6 {
        entry_of("La oveja"@, "The sheep"@, "Le mouton"@, "Das Schaf"@)
    } else if i == 7 {
        entry_of("El ratón"@, "The mouse"@, "La souris"@, "Die Maus"@)
    } else if i == 8 {
        entry_of("El zorro"@, "The fox"@, "Le renard"@, "Der Fuchs"@)
    } else if i == 9 {
        entry_of("El conejo"@, "The rabbit"@, "Le lapin"@, "Der Hase"@)
    } else if i == 10 {
        entry_of("El pato"@, "The duck"@, "Le canard"@, "Die Ente"@)
    } else if i == 11 {
        entry_of("La tortuga"@, "The turtle"@, "La tortue"@, "Die Schildkröte"@)
    } else if i == 12 {
        entry_of("La serpiente"@, "The snake"@, "Le serpent"@, "Die Schlange"@)
    } else if i == 13 {
        entry_of("El león"@, "The lion"@, "Le lion"@, "Der Löwe"@)
    } else if i == 14 {
        entry_of("El tigre"@, "The tiger"@, "Le tigre"@, "Der Tiger"@)
    } else if i == 15 {
        entry_of("El elefante"@, "The elephant"@, "L’éléphant"@, "Der Elefant"@)
    } else if i == 16 {
        entry_of("El mono"@, "The monkey"@, "Le singe"@, "Der Affe"@)
    } else if i == 17 {
        entry_of("El oso"@, "The bear"@, "L’ours"@, "Der Bär"@)
    } else if i == 18 {
        entry_of("El camello"@, "The camel"@, "Le chameau"@, "Das Kamel"@)
    } else if i == 19 {
        entry_of("El rinoceronte"@, "The rhinoceros"@, "Le rhinocéros"@, "Das Nashorn"@)
    } else if i == 20 {
        entry_of("El ciervo"@, "The deer"@, "Le cerf"@, "Der Hirsch"@)
    } else if i == 21 {
        entry_of("La rana"@, "The frog"@, "La grenouille"@, "Der Frosch"@)
    } else if i == 22 {
        entry_of("El lobo"@, "The wolf"@, "Le loup"@, "Der Wolf"@)
    } else if i == 23 {
        entry_of("La cebra"@, "The zebra"@, "La zèbre"@, "Das Zebra"@)
    } else if i == 24 {
        entry_of("La jirafa"@, "The giraffe"@, "La girafe"@, "Die Giraffe"@)
    } else if i == 25 {
        entry_of("El hipopótamo"@, "The hippopotamus"@, "L’hippopotame"@, "Das Nilpferd"@)
    } else if i == 26 {
        entry_of("El canguro"@, "The kangaroo"@, "Le kangourou"@, "Das Känguru"@)
    } else if i == 27 {
        entry_of("El koala"@, "The koala"@, "Le koala"@, "Das Koala"@)
    } else if i == 28 {
        entry_of("El pingüino"@, "The penguin"@, "Le manchot"@, "Der Pinguin"@)
    } else if i == 29 {
        entry_of("La ballena"@, "The whale"@, "La baleine"@, "Der Wal"@)
    } else if i == 30 {
        entry_of("El delfín"@, "The dolphin"@, "Le dauphin"@, "Der Delfin"@)
    } else if i == 31 {
        entry_of("El tiburón"@, "The shark"@, "Le requin"@, "Der Hai"@)
    } else if i == 32 {
        entry_of("El cocodrilo"@, "The crocodile"@, "Le crocodile"@, "Das Krokodil"@)
    } else if i == 33 {
        entry_of("El búho"@, "The owl"@, "Le hibou"@, "Die Eule"@)
    } else if i == 34 {
        entry_of("El águila"@, "The eagle"@, "L’aigle"@, "Der Adler"@)
    } else if i == 35 {
        entry_of("El pavo real"@, "The peacock"@, "Le paon"@, "Der Pfau"@)
    } else if i == 36 {
        entry_of("La mariposa"@, "The butterfly"@, "Le papillon"@, "Der Schmetterling"@)
    } else if i == 37 {
        entry_of("La hormiga"@, "The ant"@, "La fourmi"@, "Die Ameise"@)
    } else if i == 38 {
        entry_of("La araña"@, "The spider"@, "L’araignée"@, "Die Spinne"@)
    } else if i == 39 {
        entry_of("La abeja"@, "The bee"@, "L’abeille"@, "Die Biene"@)
    } else if i == 40 {
        entry_of("El alce"@, "The moose"@, "L’élan"@, "Der Elch"@)
    } else if i == 41 {
        entry_of("El jaguar"@, "The jaguar"@, "Le jaguar"@, "Der Jaguar"@)
    } else if i == 42 {
        entry_of("El búfalo"@, "The buffalo"@, "Le buffle"@, "Der Büffel"@)
    } else if i == 43 {
        entry_of("El puma"@, "The puma"@, "Le puma"@, "Der Puma"@)
    } else if i == 44 {
        entry_of("La liebre"@, "The hare"@, "Le lièvre"@, "Der Hase"@)
    } else if i == 45 {
        entry_of("El corzo"@, "The roe deer"@, "Le chevreuil"@, "Der Reh"@)
    } else if i == 46 {
        entry_of("El flamenco"@, "The flamingo"@, "Le flamant rose"@, "Der Flamingo"@)
    } else if i == 47 {
        entry_of("El zorrillo"@, "The skunk"@, "Le mouffette"@, "Der Stinktier"@)
    } else if i == 48 {
        entry_of("El tejón"@, "The badger"@, "Le blaireau"@, "Der Dachs"@)
    } else if i == 49 {
        entry_of("El castor"@, "The beaver"@, "Le castor"@, "Der Biber"@)
    } else if i == 50 {
        entry_of("El lince"@, "The lynx"@, "Le lynx"@, "Der Luchs"@)
    } else if i == 51 {
        entry_of("La comadreja"@, "The weasel"@, "La belette"@, "Das Wiesel"@)
    } else if i == 52 {
        entry_of("La mofeta"@, "The skunk"@, "La moufette"@, "Der Stinktier"@)
    } else if i == 53 {
        entry_of("El pavo"@, "The turkey"@, "Le dindon"@, "Der Truthahn"@)
    } else if i == 54 {
        entry_of("La gacela"@, "The gazelle"@, "La gazelle"@, "Die Gazelle"@)
    } else if i == 55 {
        entry_of("El antílope"@, "The antelope"@, "L’antilope"@, "Die Antilope"@)
    } else if i == 56 {
        entry_of("El caracol"@, "The snail"@, "L’escargot"@, "Die Schnecke"@)
    } else if i == 57 {
        entry_of("La luciérnaga"@, "The firefly"@, "La luciole"@, "Das Glühwürmchen"@)
    } else if i == 58 {
        entry_of("El quetzal"@, "The quetzal"@, "Le quetzal"@, "Der Quetzal"@)
    } else {
        entry_of("La avestruz"@, "The ostrich"@, "L’autruche"@, "Der Strauß"@)
    }
}

/// The built-in list of animals, in order.
pub open spec fn animal_table() -> Seq<Translations> {
    Seq::new(60, |i: int| animal_entry(i))
}

/// The built-in list of animals, each in Spanish, English, French and German.
pub fn create_animal_vocab() -> (r: Vec<Meaning>)
    ensures
        r@.len() == 60,
        meaning_views(r@) == animal_table(),
{
    let mut vocab: Vec<Meaning> = Vec::new();
    assert(meaning_views(vocab@) =~= animal_table().take(0));
    add_entry(&mut vocab, Ghost(animal_table()), "El perro", "The dog", "Le chien", "Der Hund");
    add_entry(&mut vocab, Ghost(animal_table()), "El gato", "The cat", "Le chat", "Die Katze");
    add_entry(&mut vocab, Ghost(animal_table()), "El cerdo", "The pig", "Le cochon", "Das Schwein");
    add_entry(&mut vocab, Ghost(animal_table()), "El caballo", "The horse", "Le cheval", "Das Pferd");
    add_entry(&mut vocab, Ghost(animal_table()), "El pájaro", "The bird", "L’oiseau", "Der Vogel");
    add_entry(&mut vocab, Ghost(animal_table()), "La vaca", "The cow", "La vache", "Die Kuh");
    add_entry(&mut vocab, Ghost(animal_table()), "La oveja", "The sheep", "Le mouton", "Das Schaf");
    add_entry(&mut vocab, Ghost(animal_table()), "El ratón", "The mouse", "La souris", "Die Maus");
    add_entry(&mut vocab, Ghost(animal_table()), "El zorro", "The fox", "Le renard", "Der Fuchs");
    add_entry(&mut vocab, Ghost(animal_table()), "El conejo", "The rabbit", "Le lapin", "Der Hase");
    add_entry(&mut vocab, Ghost(animal_table()), "El pato", "The duck", "Le canard", "Die Ente");
    add_entry(&mut vocab, Ghost(animal_table()), "La tortuga", "The turtle", "La tortue", "Die Schildkröte");
    add_entry(&mut vocab, Ghost(animal_table()), "La serpiente", "The snake", "Le serpent", "Die Schlange");
    add_entry(&mut vocab, Ghost(animal_table()), "El león", "The lion", "Le lion", "Der Löwe");
    add_entry(&mut vocab, Ghost(animal_table()), "El tigre", "The tiger", "Le tigre", "Der Tiger");
    add_entry(&mut vocab, Ghost(animal_table()), "El elefante", "The elephant", "L’éléphant", "Der Elefant");
    add_entry(&mut vocab, Ghost(animal_table()), "El mono", "The monkey", "Le singe", "Der Affe");
    add_entry(&mut vocab, Ghost(animal_table()), "El oso", "The bear", "L’ours", "Der Bär");
    add_entry(&mut vocab, Ghost(animal_table()), "El camello", "The camel", "Le chameau", "Das Kamel");
    add_entry(&mut vocab, Ghost(animal_table()), "El rinoceronte", "The rhinoceros", "Le rhinocéros", "Das Nashorn");
    add_entry(&mut vocab, Ghost(animal_table()), "El ciervo", "The deer", "Le cerf", "Der Hirsch");
    add_entry(&mut vocab, Ghost(animal_table()), "La rana", "The frog", "La grenouille", "Der Frosch");
    add_entry(&mut vocab, Ghost(animal_table()), "El lobo", "The wolf", "Le loup", "Der Wolf");
    add_entry(&mut vocab, Ghost(animal_table()), "La cebra", "The zebra", "La zèbre", "Das Zebra");
    add_entry(&mut vocab, Ghost(animal_table()), "La jirafa", "The giraffe", "La girafe", "Die Giraffe");
    add_entry(&mut vocab, Ghost(animal_table()), "El hipopótamo", "The hippopotamus", "L’hippopotame", "Das Nilpferd");
    add_entry(&mut vocab, Ghost(animal_table()), "El canguro", "The kangaroo", "Le kangourou", "Das Känguru");
    add_entry(&mut vocab, Ghost(animal_table()), "El koala", "The koala", "Le koala", "Das Koala");
    add_entry(&mut vocab, Ghost(animal_table()), "El pingüino", "The penguin", "Le manchot", "Der Pinguin");
    add_entry(&mut vocab, Ghost(animal_table()), "La ballena", "The whale", "La baleine", "Der Wal");
    add_entry(&mut vocab, Ghost(animal_table()), "El delfín", "The dolphin", "Le dauphin", "Der Delfin");
    add_entry(&mut vocab, Ghost(animal_table()), "El tiburón", "The shark", "Le requin", "Der Hai");
    add_entry(&mut vocab, Ghost(animal_table()), "El cocodrilo", "The crocodile", "Le crocodile", "Das Krokodil");
    add_entry(&mut vocab, Ghost(animal_table()), "El búho", "The owl", "Le hibou", "Die Eule");
    add_entry(&mut vocab, Ghost(animal_table()), "El águila", "The eagle", "L’aigle", "Der Adler");
    add_entry(&mut vocab, Ghost(animal_table()), "El pavo real", "The peacock", "Le paon", "Der Pfau");
    add_entry(&mut vocab, Ghost(animal_table()), "La mariposa", "The butterfly", "Le papillon", "Der Schmetterling");
    add_entry(&mut vocab, Ghost(animal_table()), "La hormiga", "The ant", "La fourmi", "Die Ameise");
    add_entry(&mut vocab, Ghost(animal_table()), "La araña", "The spider", "L’araignée", "Die Spinne");
    add_entry(&mut vocab, Ghost(animal_table()), "La abeja", "The bee", "L’abeille", "Die Biene");
    add_entry(&mut vocab, Ghost(animal_table()), "El alce", "The moose", "L’élan", "Der Elch");
    add_entry(&mut vocab, Ghost(animal_table()), "El jaguar", "The jaguar", "Le jaguar", "Der Jaguar");
    add_entry(&mut vocab, Ghost(animal_table()), "El búfalo", "The buffalo", "Le buffle", "Der Büffel");
    add_entry(&mut vocab, Ghost(animal_table()), "El puma", "The puma", "Le puma", "Der Puma");
    add_entry(&mut vocab, Ghost(animal_table()), "La liebre", "The hare", "Le lièvre", "Der Hase");
    add_entry(&mut vocab, Ghost(animal_table()), "El corzo", "The roe deer", "Le chevreuil", "Der Reh");
    add_entry(&mut vocab, Ghost(animal_table()), "El flamenco", "The flamingo", "Le flamant rose", "Der Flamingo");
    add_entry(&mut vocab, Ghost(animal_table()), "El zorrillo", "The skunk", "Le mouffette", "Der Stinktier");
    add_entry(&mut vocab, Ghost(animal_table()), "El tejón", "The badger", "Le blaireau", "Der Dachs");
    add_entry(&mut vocab, Ghost(animal_table()), "El castor", "The beaver", "Le castor", "Der Biber");
    add_entry(&mut vocab, Ghost(animal_table()), "El lince", "The lynx", "Le lynx", "Der Luchs");
    add_entry(&mut vocab, Ghost(animal_table()), "La comadreja", "The weasel", "La belette", "Das Wiesel");
    add_entry(&mut vocab, Ghost(animal_table()), "La mofeta", "The skunk", "La moufette", "Der Stinktier");
    add_entry(&mut vocab, Ghost(animal_table()), "El pavo", "The turkey", "Le dindon", "Der Truthahn");
    add_entry(&mut vocab, Ghost(animal_table()), "La gacela", "The gazelle", "La gazelle", "Die Gazelle");
    add_entry(&mut vocab, Ghost(animal_table()), "El antílope", "The antelope", "L’antilope", "Die Antilope");
    add_entry(&mut vocab, Ghost(animal_table()), "El caracol", "The snail", "L’escargot", "Die Schnecke");
    add_entry(&mut vocab, Ghost(animal_table()), "La luciérnaga", "The firefly", "La luciole", "Das Glühwürmchen");
    add_entry(&mut vocab, Ghost(animal_table()), "El quetzal", "The quetzal", "Le quetzal", "Der Quetzal");
    add_entry(&mut vocab, Ghost(animal_table()), "La avestruz", "The ostrich", "L’autruche", "Der Strauß");
    assert(vocab@.len() == meaning_views(vocab@).len());
    assert(animal_table().take(60) =~= animal_table());
    vocab
}

/// Entry `i` of the built-in list of foods.
pub open spec fn food_entry(i: int) -> Translations {
    if i == 0 {
        entry_of("La manzana"@, "The apple"@, "La pomme"@, "Der Apfel"@)
    } else if i == 1 {
        entry_of("El plátano"@, "The banana"@, "La banane"@, "Die Banane"@)
    } else if i == 2 {
        entry_of("El pan"@, "The bread"@, "Le pain"@, "Das Brot"@)
    } else if i == 3 {
        entry_of("El queso"@, "The cheese"@, "Le fromage"@, "Der Käse"@)
    } else if i == 4 {
        entry_of("El pollo"@, "The chicken"@, "Le poulet"@, "Das Hähnchen"@)
    } else if i == 5 {
        entry_of("El huevo"@, "The egg"@, "L’œuf"@, "Das Ei"@)
    } else if i == 6 {
        entry_of("El pescado"@, "The fish"@, "Le poisson"@, "Der Fisch"@)
    } else if i == 7 {
        entry_of("La carne"@, "The meat"@, "La viande"@, "Das Fleisch"@)
    } else if i == 8 {
        entry_of("La leche"@, "The milk"@, "Le lait"@, "Die Milch"@)
    } else if i == 9 {
        entry_of("La naranja"@, "The orange"@, "L’orange"@, "Die Orange"@)
    } else if i == 10 {
        entry_of("La pasta"@, "The pasta"@, "Les pâtes"@, "Die Pasta"@)
    } else if i == 11 {
        entry_of("El arroz"@, "The rice"@, "Le riz"@, "Der Reis"@)
    } else if i == 12 {
        entry_of("La sal"@, "The salt"@, "Le sel"@, "Das Salz"@)
    } else if i == 13 {
        entry_of("El sándwich"@, "The sandwich"@, "Le sandwich"@, "Das Sandwich"@)
    } else if i == 14 {
        entry_of("La sopa"@, "The soup"@, "La soupe"@, "Die Suppe"@)
    } else if i == 15 {
        entry_of("El azúcar"@, "The sugar"@, "Le sucre"@, "Der Zucker"@)
    } else if i == 16 {
        entry_of("El té"@, "The tea"@, "Le thé"@, "Der Tee"@)
    } else if i == 17 {
        entry_of("El tomate"@, "The tomato"@, "La tomate"@, "Die Tomate"@)
    } else if i == 18 {
        entry_of("La verdura"@, "The vegetable"@, "Le légume"@, "Das Gemüse"@)
    } else if i == 19 {
        entry_of("El agua"@, "The water"@, "L’eau"@, "Das Wasser"@)
    } else if i == 20 {
        entry_of("La uva"@, "The grape"@, "Le raisin"@, "Die Traube"@)
    } else if i == 21 {
        entry_of("La fresa"@, "The strawberry"@, "La fraise"@, "Die Erdbeere"@)
    } else if i == 22 {
        entry_of("La sandía"@, "The watermelon"@, "La pastèque"@, "Die Wassermelone"@)
    } else if i == 23 {
        entry_of("El mango"@, "The mango"@, "La mangue"@, "Die Mango"@)
    } else if i == 24 {
        entry_of("El melocotón"@, "The peach"@, "La pêche"@, "Der Pfirsich"@)
    } else if i == 25 {
        entry_of("La pera"@, "The pear"@, "La poire"@, "Die Birne"@)
    } else if i == 26 {
        entry_of("La cereza"@, "The cherry"@, "La cerise"@, "Die Kirsche"@)
    } else if i == 27 {
        entry_of("El limón"@, "The lemon"@, "Le citron"@, "Die Zitrone"@)
    } else if i == 28 {
        entry_of("La lima"@, "The lime"@, "Le citron vert"@, "Die Limette"@)
    } else if i == 29 {
        entry_of("La cebolla"@, "The onion"@, "L’oignon"@, "Die Zwiebel"@)
    } else if i == 30 {
        entry_of("El ajo"@, "The garlic"@, "L’ail"@, "Der Knoblauch"@)
    } else if i == 31 {
        entry_of("La patata"@, "The potato"@, "La pomme de terre"@, "Die Kartoffel"@)
    } else if i == 32 {
        entry_of("La zanahoria"@, "The carrot"@, "La carotte"@, "Die Karotte"@)
    } else if i == 33 {
        entry_of("El brócoli"@, "The broccoli"@, "Le brocoli"@, "Der Brokkoli"@)
    } else if i == 34 {
        entry_of("La lechuga"@, "The lettuce"@, "La laitue"@, "Der Kopfsalat"@)
    } else if i == 35 {
        entry_of("El pepino"@, "The cucumber"@, "Le concombre"@, "Die Gurke"@)
    } else if i == 36 {
        entry_of("El champiñón"@, "The mushroom"@, "Le champignon"@, "Der Pilz"@)
    } else if i == 37 {
        entry_of("El pimiento"@, "The pepper"@, "Le poivron"@, "Die Paprika"@)
    } else if i == 38 {
        entry_of("El maíz"@, "The corn"@, "Le maïs"@, "Der Mais"@)
    } else if i == 39 {
        entry_of("La espinaca"@, "The spinach"@, "L’épinard"@, "Der Spinat"@)
    } else if i == 40 {
        entry_of("El yogur"@, "The yogurt"@, "Le yaourt"@, "Der Joghurt"@)
    } else if i == 41 {
        entry_of("La piña"@, "The pineapple"@, "L’ananas"@, "Die Ananas"@)
    } else if i == 42 {
        entry_of("El aguacate"@, "The avocado"@, "L’avocat"@, "Die Avocado"@)
    } else if i == 43 {
        entry_of("El pepino"@, "The cucumber"@, "Le concombre"@, "Die Gurke"@)
    } else if i == 44 {
        entry_of("El tomate cherry"@, "The cherry tomato"@, "La tomate cerise"@, "Die Cherrytomate"@)
    } else if i == 45 {
        entry_of("El calabacín"@, "The zucchini"@, "La courgette"@, "Die Zucchini"@)
    } else if i == 46 {
        entry_of("La berenjena"@, "The eggplant"@, "L’aubergine"@, "Die Aubergine"@)
    } else if i == 47 {
        entry_of("El pavo"@, "The turkey"@, "La dinde"@, "Der Truthahn"@)
    } else if i == 48 {
        entry_of("La langosta"@, "The lobster"@, "Le homard"@, "Der Hummer"@)
    } else if i == 49 {
        entry_of("El camarón"@, "The shrimp"@, "La crevette"@, "Die Garnele"@)
    } else if i == 50 {
        entry_of("El cangrejo"@, "The crab"@, "Le crabe"@, "Die Krabbe"@)
    } else if i == 51 {
        entry_of("La trucha"@, "The trout"@, "La truite"@, "Die Forelle"@)
    } else if i == 52 {
        entry_of("El salmón"@, "The salmon"@, "Le saumon"@, "Der Lachs"@)
    } else if i == 53 {
        entry_of("La almeja"@, "The clam"@, "La palourde"@, "Die Muschel"@)
    } else if i == 54 {
        entry_of("La ostra"@, "The oyster"@, "L’huitre"@, "Die Auster"@)
    } else if i == 55 {
        entry_of("La morcilla"@, "The black pudding"@, "Le boudin"@, "Der Blutwurst"@)
    } else if i == 56 {
        entry_of("El queso fresco"@, "The fresh cheese"@, "Le fromage frais"@, "Der Frischkäse"@)
    } else if i == 57 {
        entry_of("La crema"@, "The cream"@, "La crème"@, "Die Sahne"@)
    } else if i == 58 {
        entry_of("El vinagre"@, "The vinegar"@, "Le vinaigre"@, "Der Essig"@)
    } else if i == 59 {
        entry_of("El aceite"@, "The oil"@, "L’huile"@, "Das Öl"@)
    } else {
        entry_of("La miel"@, "The honey"@, "Le miel"@, "Der Honig"@)
    }
}

/// The built-in list of foods, in order.
pub open spec fn food_table() -> Seq<Translations> {
    Seq::new(61, |i: int| food_entry(i))
}

/// The built-in list of foods, each in Spanish, English, French and German.
pub fn create_food_vocab() -> (r: Vec<Meaning>)
    ensures
        r@.len() == 61,
        meaning_views(r@) == food_table(),
{
    let mut vocab: Vec<Meaning> = Vec::new();
    assert(meaning_views(vocab@) =~= food_table().take(0));
    add_entry(&mut vocab, Ghost(food_table()), "La manzana", "The apple", "La pomme", "Der Apfel");
    add_entry(&mut vocab, Ghost(food_table()), "El plátano", "The banana", "La banane", "Die Banane");
    add_entry(&mut vocab, Ghost(food_table()), "El pan", "The bread", "Le pain", "Das Brot");
    add_entry(&mut vocab, Ghost(food_table()), "El queso", "The cheese", "Le fromage", "Der Käse");
    add_entry(&mut vocab, Ghost(food_table()), "El pollo", "The chicken", "Le poulet", "Das Hähnchen");
    add_entry(&mut vocab, Ghost(food_table()), "El huevo", "The egg", "L’œuf", "Das Ei");
    add_entry(&mut vocab, Ghost(food_table()), "El pescado", "The fish", "Le poisson", "Der Fisch");
    add_entry(&mut vocab, Ghost(food_table()), "La carne", "The meat", "La viande", "Das Fleisch");
    add_entry(&mut vocab, Ghost(food_table()), "La leche", "The milk", "Le lait", "Die Milch");
    add_entry(&mut vocab, Ghost(food_table()), "La naranja", "The orange", "L’orange", "Die Orange");
    add_entry(&mut vocab, Ghost(food_table()), "La pasta", "The pasta", "Les pâtes", "Die Pasta");
    add_entry(&mut vocab, Ghost(food_table()), "El arroz", "The rice", "Le riz", "Der Reis");
    add_entry(&mut vocab, Ghost(food_table()), "La sal", "The salt", "Le sel", "Das Salz");
    add_entry(&mut vocab, Ghost(food_table()), "El sándwich", "The sandwich", "Le sandwich", "Das Sandwich");
    add_entry(&mut vocab, Ghost(food_table()), "La sopa", "The soup", "La soupe", "Die Suppe");
    add_entry(&mut vocab, Ghost(food_table()), "El azúcar", "The sugar", "Le sucre", "Der Zucker");
    add_entry(&mut vocab, Ghost(food_table()), "El té", "The tea", "Le thé", "Der Tee");
    add_entry(&mut vocab, Ghost(food_table()), "El tomate", "The tomato", "La tomate", "Die Tomate");
    add_entry(&mut vocab, Ghost(food_table()), "La verdura", "The vegetable", "Le légume", "Das Gemüse");
    add_entry(&mut vocab, Ghost(food_table()), "El agua", "The water", "L’eau", "Das Wasser");
    add_entry(&mut vocab, Ghost(food_table()), "La uva", "The grape", "Le raisin", "Die Traube");
    add_entry(&mut vocab, Ghost(food_table()), "La fresa", "The strawberry", "La fraise", "Die Erdbeere");
    add_entry(&mut vocab, Ghost(food_table()), "La sandía", "The watermelon", "La pastèque", "Die Wassermelone");
    add_entry(&mut vocab, Ghost(food_table()), "El mango", "The mango", "La mangue", "Die Mango");
    add_entry(&mut vocab, Ghost(food_table()), "El melocotón", "The peach", "La pêche", "Der Pfirsich");
    add_entry(&mut vocab, Ghost(food_table()), "La pera", "The pear", "La poire", "Die Birne");
    add_entry(&mut vocab, Ghost(food_table()), "La cereza", "The cherry", "La cerise", "Die Kirsche");
    add_entry(&mut vocab, Ghost(food_table()), "El limón", "The lemon", "Le citron", "Die Zitrone");
    add_entry(&mut vocab, Ghost(food_table()), "La lima", "The lime", "Le citron vert", "Die Limette");
    add_entry(&mut vocab, Ghost(food_table()), "La cebolla", "The onion", "L’oignon", "Die Zwiebel");
    add_entry(&mut vocab, Ghost(food_table()), "El ajo", "The garlic", "L’ail", "Der Knoblauch");
    add_entry(&mut vocab, Ghost(food_table()), "La patata", "The potato", "La pomme de terre", "Die Kartoffel");
    add_entry(&mut vocab, Ghost(food_table()), "La zanahoria", "The carrot", "La carotte", "Die Karotte");
    add_entry(&mut vocab, Ghost(food_table()), "El brócoli", "The broccoli", "Le brocoli", "Der Brokkoli");
    add_entry(&mut vocab, Ghost(food_table()), "La lechuga", "The lettuce", "La laitue", "Der Kopfsalat");
    add_entry(&mut vocab, Ghost(food_table()), "El pepino", "The cucumber", "Le concombre", "Die Gurke");
    add_entry(&mut vocab, Ghost(food_table()), "El champiñón", "The mushroom", "Le champignon", "Der Pilz");
    add_entry(&mut vocab, Ghost(food_table()), "El pimiento", "The pepper", "Le poivron", "Die Paprika");
    add_entry(&mut vocab, Ghost(food_table()), "El maíz", "The corn", "Le maïs", "Der Mais");
    add_entry(&mut vocab, Ghost(food_table()), "La espinaca", "The spinach", "L’épinard", "Der Spinat");
    add_entry(&mut vocab, Ghost(food_table()), "El yogur", "The yogurt", "Le yaourt", "Der Joghurt");
    add_entry(&mut vocab, Ghost(food_table()), "La piña", "The pineapple", "L’ananas", "Die Ananas");
    add_entry(&mut vocab, Ghost(food_table()), "El aguacate", "The avocado", "L’avocat", "Die Avocado");
    add_entry(&mut vocab, Ghost(food_table()), "El pepino", "The cucumber", "Le concombre", "Die Gurke");
    add_entry(&mut vocab, Ghost(food_table()), "El tomate cherry", "The cherry tomato", "La tomate cerise", "Die Cherrytomate");
    add_entry(&mut vocab, Ghost(food_table()), "El calabacín", "The zucchini", "La courgette", "Die Zucchini");
    add_entry(&mut vocab, Ghost(food_table()), "La berenjena", "The eggplant", "L’aubergine", "Die Aubergine");
    add_entry(&mut vocab, Ghost(food_table()), "El pavo", "The turkey", "La dinde", "Der Truthahn");
    add_entry(&mut vocab, Ghost(food_table()), "La langosta", "The lobster", "Le homard", "Der Hummer");
    add_entry(&mut vocab, Ghost(food_table()), "El camarón", "The shrimp", "La crevette", "Die Garnele");
    add_entry(&mut vocab, Ghost(food_table()), "El cangrejo", "The crab", "Le crabe", "Die Krabbe");
    add_entry(&mut vocab, Ghost(food_table()), "La trucha", "The trout", "La truite", "Die Forelle");
    add_entry(&mut vocab, Ghost(food_table()), "El salmón", "The salmon", "Le saumon", "Der Lachs");
    add_entry(&mut vocab, Ghost(food_table()), "La almeja", "The clam", "La palourde", "Die Muschel");
    add_entry(&mut vocab, Ghost(food_table()), "La ostra", "The oyster", "L’huitre", "Die Auster");
    add_entry(&mut vocab, Ghost(food_table()), "La morcilla", "The black pudding", "Le boudin", "Der Blutwurst");
    add_entry(&mut vocab, Ghost(food_table()), "El queso fresco", "The fresh cheese", "Le fromage frais", "Der Frischkäse");
    add_entry(&mut vocab, Ghost(food_table()), "La crema", "The cream", "La crème", "Die Sahne");
    add_entry(&mut vocab, Ghost(food_table()), "El vinagre", "The vinegar", "Le vinaigre", "Der Essig");
    add_entry(&mut vocab, Ghost(food_table()), "El aceite", "The oil", "L’huile", "Das Öl");
    add_entry(&mut vocab, Ghost(food_table()), "La miel", "The honey", "Le miel", "Der Honig");
    assert(vocab@.len() == meaning_views(vocab@).len());
    assert(food_table().take(61) =~= food_table());
    vocab
}

/// Entry `i` of the built-in list of basic verbs.
pub open spec fn verb_entry(i: int) -> Translations {
    if i == 0 {
        entry_of("Ser"@, "To be (essential/permanent)"@, "Être"@, "Sein"@)
    } else if i == 1 {
        entry_of("Estar"@, "To be (state/location)"@, "Être"@, "Sein"@)
    } else if i == 2 {
        entry_of("Tener"@, "To have"@, "Avoir"@, "Haben"@)
    } else if i == 3 {
        entry_of("Hacer"@, "To do / make"@, "Faire"@, "Machen"@)
    } else if i == 4 {
        entry_of("Decir"@, "To say (tell)"@, "Dire"@, "Sagen"@)
    } else if i == 5 {
        entry_of("Ir"@, "To go"@, "Aller"@, "Gehen"@)
    } else if i == 6 {
        entry_of("Ver"@, "To see"@, "Voir"@, "Sehen"@)
    } else if i == 7 {
        entry_of("Dar"@, "To give"@, "Donner"@, "Geben"@)
    } else if i == 8 {
        entry_of("Saber"@, "To know (facts)"@, "Savoir"@, "Wissen"@)
    } else if i == 9 {
        entry_of("Querer"@, "To want"@, "Vouloir"@, "Wollen"@)
    } else if i == 10 {
        entry_of("Llegar"@, "To arrive"@, "Arriver"@, "Ankommen"@)
    } else if i == 11 {
        entry_of("Pasar"@, "To pass (spend time)"@, "Passer"@, "Verbringen"@)
    } else if i == 12 {
        entry_of("Deber"@, "To owe (should)"@, "Devoir"@, "Sollen"@)
    } else if i == 13 {
        entry_of("Poner"@, "To put"@, "Mettre"@, "Stellen"@)
    } else if i == 14 {
        entry_of("Parecer"@, "To seem"@, "Paraître"@, "Scheinen"@)
    } else if i == 15 {
        entry_of("Quedar"@, "To remain (stay)"@, "Rester"@, "Bleiben"@)
    } else if i == 16 {
        entry_of("Creer"@, "To believe"@, "Croire"@, "Glauben"@)
    } else if i == 17 {
        entry_of("Hablar"@, "To speak"@, "Parler"@, "Sprechen"@)
    } else if i == 18 {
        entry_of("Llevar"@, "To carry (wear)"@, "Porter"@, "Tragen"@)
    } else if i == 19 {
        entry_of("Dejar"@, "To leave (behind)"@, "Laisser"@, "Lassen"@)
    } else if i == 20 {
        entry_of("Seguir"@, "To follow"@, "Suivre"@, "Folgen"@)
    } else if i == 21 {
        entry_of("Encontrar"@, "To find"@, "Trouver"@, "Finden"@)
    } else if i == 22 {
        entry_of("Llamar"@, "To call"@, "Appeler"@, "Rufen"@)
    } else if i == 23 {
        entry_of("Venir"@, "To come"@, "Venir"@, "Kommen"@)
    } else if i == 24 {
        entry_of("Pensar"@, "To think"@, "Penser"@, "Denken"@)
    } else if i == 25 {
        entry_of("Salir"@, "To go out (leave)"@, "Sortir"@, "Ausgehen"@)
    } else if i == 26 {
        entry_of("Volver"@, "To return (come back)"@, "Revenir"@, "Zurückkommen"@)
    } else if i == 27 {
        entry_of("Tomar"@, "To take (drink)"@, "Prendre"@, "Nehmen"@)
    } else if i == 28 {
        entry_of("Conocer"@, "To know (people/places)"@, "Connaître"@, "Kennen"@)
    } else if i == 29 {
        entry_of("Vivir"@, "To live"@, "Vivre"@, "Leben"@)
    } else if i == 30 {
        entry_of("Sentir"@, "To feel"@, "Ressentir"@, "Fühlen"@)
    } else if i == 31 {
        entry_of("Mirar"@, "To look at"@, "Regarder"@, "Ansehen"@)
    } else if i == 32 {
        entry_of("Contar"@, "To count (tell a story)"@, "Raconter"@, "Erzählen"@)
    } else if i == 33 {
        entry_of("Empezar"@, "To begin"@, "Commencer"@, "Beginnen"@)
    } else if i == 34 {
        entry_of("Esperar"@, "To wait (hope)"@, "Attendre"@, "Warten"@)
    } else if i == 35 {
        entry_of("Buscar"@, "To search for"@, "Chercher"@, "Suchen"@)
    } else if i == 36 {
        entry_of("Entrar"@, "To enter"@, "Entrer"@, "Eintreten"@)
    } else if i == 37 {
        entry_of("Trabajar"@, "To work"@, "Travailler"@, "Arbeiten"@)
    } else if i == 38 {
        entry_of("Escribir"@, "To write"@, "Écrire"@, "Schreiben"@)
    } else if i == 39 {
        entry_of("Perder"@, "To lose"@, "Perdre"@, "Verlieren"@)
    } else if i == 40 {
        entry_of("Producir"@, "To produce"@, "Produire"@, "Produzieren"@)
    } else if i == 41 {
        entry_of("Ocurrir"@, "To happen"@, "Survenir"@, "Geschehen"@)
    } else if i == 42 {
        entry_of("Entender"@, "To understand"@, "Comprendre"@, "Verstehen"@)
    } else if i == 43 {
        entry_of("Pedir"@, "To request (ask for)"@, "Demander"@, "Bitten"@)
    } else if i == 44 {
        entry_of("Recibir"@, "To receive"@, "Recevoir"@, "Erhalten"@)
    } else if i == 45 {
        entry_of("Recordar"@, "To remember"@, "Se souvenir"@, "Erinnern"@)
    } else if i == 46 {
        entry_of("Terminar"@, "To finish"@, "Terminer"@, "Beenden"@)
    } else if i == 47 {
        entry_of("Permitir"@, "To allow"@, "Permettre"@, "Erlauben"@)
    } else {
        entry_of("Aparecer"@, "To appear"@, "Apparaître"@, "Erscheinen"@)
    }
}

/// The built-in list of basic verbs, in order.
pub open spec fn verb_table() -> Seq<Translations> {
    Seq::new(49, |i: int| verb_entry(i))
}

/// The built-in list of basic verbs, each in Spanish, English, French and German.
pub fn create_verb_vocab() -> (r: Vec<Meaning>)
    ensures
        r@.len() == 49,
        meaning_views(r@) == verb_table(),
{
    let mut vocab: Vec<Meaning> = Vec::new();
    assert(meaning_views(vocab@) =~= verb_table().take(0));
    add_entry(&mut vocab, Ghost(verb_table()), "Ser", "To be (essential/permanent)", "Être", "Sein");
    add_entry(&mut vocab, Ghost(verb_table()), "Estar", "To be (state/location)", "Être", "Sein");
    add_entry(&mut vocab, Ghost(verb_table()), "Tener", "To have", "Avoir", "Haben");
    add_entry(&mut vocab, Ghost(verb_table()), "Hacer", "To do / make", "Faire", "Machen");
    add_entry(&mut vocab, Ghost(verb_table()), "Decir", "To say (tell)", "Dire", "Sagen");
    add_entry(&mut vocab, Ghost(verb_table()), "Ir", "To go", "Aller", "Gehen");
    add_entry(&mut vocab, Ghost(verb_table()), "Ver", "To see", "Voir", "Sehen");
    add_entry(&mut vocab, Ghost(verb_table()), "Dar", "To give", "Donner", "Geben");
    add_entry(&mut vocab, Ghost(verb_table()), "Saber", "To know (facts)", "Savoir", "Wissen");
    add_entry(&mut vocab, Ghost(verb_table()), "Querer", "To want", "Vouloir", "Wollen");
    add_entry(&mut vocab, Ghost(verb_table()), "Llegar", "To arrive", "Arriver", "Ankommen");
    add_entry(&mut vocab, Ghost(verb_table()), "Pasar", "To pass (spend time)", "Passer", "Verbringen");
    add_entry(&mut vocab, Ghost(verb_table()), "Deber", "To owe (should)", "Devoir", "Sollen");
    add_entry(&mut vocab, Ghost(verb_table()), "Poner", "To put", "Mettre", "Stellen");
    add_entry(&mut vocab, Ghost(verb_table()), "Parecer", "To seem", "Paraître", "Scheinen");
    add_entry(&mut vocab, Ghost(verb_table()), "Quedar", "To remain (stay)", "Rester", "Bleiben");
    add_entry(&mut vocab, Ghost(verb_table()), "Creer", "To believe", "Croire", "Glauben");
    add_entry(&mut vocab, Ghost(verb_table()), "Hablar", "To speak", "Parler", "Sprechen");
    add_entry(&mut vocab, Ghost(verb_table()), "Llevar", "To carry (wear)", "Porter", "Tragen");
    add_entry(&mut vocab, Ghost(verb_table()), "Dejar", "To leave (behind)", "Laisser", "Lassen");
    add_entry(&mut vocab, Ghost(verb_table()), "Seguir", "To follow", "Suivre", "Folgen");
    add_entry(&mut vocab, Ghost(verb_table()), "Encontrar", "To find", "Trouver", "Finden");
    add_entry(&mut vocab, Ghost(verb_table()), "Llamar", "To call", "Appeler", "Rufen");
    add_entry(&mut vocab, Ghost(verb_table()), "Venir", "To come", "Venir", "Kommen");
    add_entry(&mut vocab, Ghost(verb_table()), "Pensar", "To think", "Penser", "Denken");
    add_entry(&mut vocab, Ghost(verb_table()), "Salir", "To go out (leave)", "Sortir", "Ausgehen");
    add_entry(&mut vocab, Ghost(verb_table()), "Volver", "To return (come back)", "Revenir", "Zurückkommen");
    add_entry(&mut vocab, Ghost(verb_table()), "Tomar", "To take (drink)", "Prendre", "Nehmen");
    add_entry(&mut vocab, Ghost(verb_table()), "Conocer", "To know (people/places)", "Connaître", "Kennen");
    add_entry(&mut vocab, Ghost(verb_table()), "Vivir", "To live", "Vivre", "Leben");
    add_entry(&mut vocab, Ghost(verb_table()), "Sentir", "To feel", "Ressentir", "Fühlen");
    add_entry(&mut vocab, Ghost(verb_table()), "Mirar", "To look at", "Regarder", "Ansehen");
    add_entry(&mut vocab, Ghost(verb_table()), "Contar", "To count (tell a story)", "Raconter", "Erzählen");
    add_entry(&mut vocab, Ghost(verb_table()), "Empezar", "To begin", "Commencer", "Beginnen");
    add_entry(&mut vocab, Ghost(verb_table()), "Esperar", "To wait (hope)", "Attendre", "Warten");
    add_entry(&mut vocab, Ghost(verb_table()), "Buscar", "To search for", "Chercher", "Suchen");
    add_entry(&mut vocab, Ghost(verb_table()), "Entrar", "To enter", "Entrer", "Eintreten");
    add_entry(&mut vocab, Ghost(verb_table()), "Trabajar", "To work", "Travailler", "Arbeiten");
    add_entry(&mut vocab, Ghost(verb_table()), "Escribir", "To write", "Écrire", "Schreiben");
    add_entry(&mut vocab, Ghost(verb_table()), "Perder", "To lose", "Perdre", "Verlieren");
    add_entry(&mut vocab, Ghost(verb_table()), "Producir", "To produce", "Produire", "Produzieren");
    add_entry(&mut vocab, Ghost(verb_table()), "Ocurrir", "To happen", "Survenir", "Geschehen");
    add_entry(&mut vocab, Ghost(verb_table()), "Entender", "To understand", "Comprendre", "Verstehen");
    add_entry(&mut vocab, Ghost(verb_table()), "Pedir", "To request (ask for)", "Demander", "Bitten");
    add_entry(&mut vocab, Ghost(verb_table()), "Recibir", "To receive", "Recevoir", "Erhalten");
    add_entry(&mut vocab, Ghost(verb_table()), "Recordar", "To remember", "Se souvenir", "Erinnern");
    add_entry(&mut vocab, Ghost(verb_table()), "Terminar", "To finish", "Terminer", "Beenden");
    add_entry(&mut vocab, Ghost(verb_table()), "Permitir", "To allow", "Permettre", "Erlauben");
    add_entry(&mut vocab, Ghost(verb_table()), "Aparecer", "To appear", "Apparaître", "Erscheinen");
    assert(vocab@.len() == meaning_views(vocab@).len());
    assert(verb_table().take(49) =~= verb_table());
    vocab
}

/// The topics that have a built-in list.
#[derive(Debug, Clone, Copy, PartialEq, Eq, Structural)]
pub enum Topic {
    Animals,
    Foods,
    BasicVerbs,
}

impl Topic {
    /// The built-in list of this topic.
    pub fn vocab(self) -> (r: Vec<Meaning>)
        ensures
            r@.len() == match self {
                Topic::Animals => 60int,
                Topic::Foods => 61int,
                Topic::BasicVerbs => 49int,
            },
            meaning_views(r@) == match self {
                Topic::Animals => animal_table(),
                Topic::Foods => food_table(),
                Topic::BasicVerbs => verb_table(),
            },
    {
        match self {
            Topic::Animals => create_animal_vocab(),
            Topic::Foods => create_food_vocab(),
            Topic::BasicVerbs => create_verb_vocab(),
        }
    }
}

} // verus!
