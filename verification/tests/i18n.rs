use micbridge::i18n::catalog::{text, ALL};
use micbridge::i18n::{devices, fill, lang, t, t1, t2, t3, Key, Lang};

#[test]
fn tags_boil_down_to_the_language() {
    assert_eq!(Lang::from_tag("pl_PL.UTF-8"), Some(Lang::Pl));
    assert_eq!(Lang::from_tag("de-AT"), Some(Lang::De));
    assert_eq!(Lang::from_tag("EN"), Some(Lang::En));
    assert_eq!(Lang::from_tag("uk_UA"), Some(Lang::Uk));
    assert_eq!(Lang::from_tag("ja_JP"), None, "an unknown one stays unknown");
    assert_eq!(Lang::from_tag(""), None);
}

#[test]
fn filling_walks_through_the_holes_in_order() {
    assert_eq!(fill("{} z {} cyfr", &["4", "6"]), "4 z 6 cyfr");
    assert_eq!(fill("bez miejsc", &[]), "bez miejsc");
}

#[test]
fn a_value_with_nowhere_to_go_lands_at_the_end() {
    // A translation may turn a sentence round and lose a place. The number is
    // then more important than the beauty of the sentence.
    assert_eq!(fill("bez miejsca", &["7"]), "bez miejsca 7");
}

#[test]
fn every_key_has_every_translation() {
    for key in ALL {
        for lang in [
            Lang::Pl,
            Lang::En,
            Lang::De,
            Lang::Es,
            Lang::Fr,
            Lang::It,
            Lang::Uk,
        ] {
            assert!(
                !text(key, lang).is_empty(),
                "empty translation: {key:?} in {lang:?}"
            );
        }
    }
}

#[test]
fn slavic_numerals_take_the_right_form() {
    assert_eq!(devices(1, Lang::Pl), "1 urządzenie");
    assert_eq!(devices(2, Lang::Pl), "2 urządzenia");
    assert_eq!(devices(5, Lang::Pl), "5 urządzeń");
    assert_eq!(devices(12, Lang::Pl), "12 urządzeń");
    assert_eq!(devices(22, Lang::Pl), "22 urządzenia");
    assert_eq!(devices(0, Lang::Pl), "0 urządzeń");
    assert_eq!(devices(21, Lang::Uk), "21 пристрій");
}

#[test]
fn the_rest_only_tell_one_from_many() {
    assert_eq!(devices(1, Lang::En), "1 device");
    assert_eq!(devices(2, Lang::En), "2 devices");
    assert_eq!(devices(0, Lang::De), "0 Geräte");
}

#[test]
fn holes_match_across_languages() {
    // A pattern with one `{}` in Polish has to have one everywhere, or a number
    // lands elsewhere or is stuck on at the end.
    for key in ALL {
        let wanted = text(key, Lang::Pl).matches("{}").count();
        for lang in [Lang::En, Lang::De, Lang::Es, Lang::Fr, Lang::It, Lang::Uk] {
            assert_eq!(
                text(key, lang).matches("{}").count(),
                wanted,
                "another number of places: {key:?} in {lang:?}"
            );
        }
    }
}

#[test]
fn no_value_gets_lost() {
    assert_eq!(fill("a {} b", &["1", "2", "3"]), "a 1 b 2 3");
    assert_eq!(fill("{} {}", &["1"]), "1 {}");
    assert_eq!(fill("{}", &["{}"]), "{}", "a value is not filled in again");
}

#[test]
fn the_language_comes_from_the_program_then_from_the_system() {
    let some = |s: &str| Some(s.to_string());
    assert_eq!(lang(&some("de"), &vec![some("pl_PL")]), Lang::De);
    assert_eq!(lang(&None, &vec![None, some("fr_FR.UTF-8")]), Lang::Fr);
    assert_eq!(
        Lang::from_system(&vec![some("ja"), some("it")]),
        None,
        "the first value that says something decides"
    );
    assert_eq!(
        Lang::from_system(&vec![some("C"), some(""), some("it")]),
        Some(Lang::It)
    );
    assert_eq!(lang(&None, &vec![some("POSIX")]), Lang::En);
    assert_eq!(Lang::detect(&None, Some(Lang::Uk)), Lang::Uk);
}

#[test]
fn texts_are_filled_in_their_language() {
    assert_eq!(t(Key::DevicesOne, Lang::En), "device");
    assert_eq!(
        t1(Key::FramesN, Lang::Pl, "3"),
        fill(text(Key::FramesN, Lang::Pl), &["3"])
    );
    assert_eq!(
        t2(Key::LatencyLoss, Lang::Pl, "30", "1.5"),
        fill(text(Key::LatencyLoss, Lang::Pl), &["30", "1.5"])
    );
    assert_eq!(
        t3(Key::DevicesOne, Lang::En, "1", "2", "3"),
        "device 1 2 3"
    );
}

#[test]
fn only_one_itself_is_singular_in_polish() {
    assert_eq!(devices(11, Lang::Pl), "11 urządzeń");
    assert_eq!(devices(21, Lang::Pl), "21 urządzeń");
    assert_eq!(devices(31, Lang::Pl), "31 urządzeń");
    assert_eq!(devices(101, Lang::Pl), "101 urządzeń");
    assert_eq!(devices(104, Lang::Pl), "104 urządzenia");
    assert_eq!(devices(112, Lang::Pl), "112 urządzeń");
    assert_ne!(devices(11, Lang::Uk), "11 пристрій");
    assert_eq!(devices(101, Lang::Uk), "101 пристрій");
}
