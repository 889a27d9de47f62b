use karukan_im::romaji::RomajiConverter;

fn type_all(text: &str) -> (String, Option<char>) {
    let mut conv = RomajiConverter::new();
    let mut out = String::new();
    for c in text.chars() {
        conv.input(c, &mut out);
    }
    (out, conv.pending())
}

#[test]
fn vowels_and_syllables() {
    assert_eq!(type_all("aiueo"), ("あいうえお".to_string(), None));
    assert_eq!(type_all("kakikukeko"), ("かきくけこ".to_string(), None));
    assert_eq!(type_all("sitituhu"), ("しちつふ".to_string(), None));
    assert_eq!(type_all("gazadabapa"), ("がざだばぱ".to_string(), None));
    assert_eq!(type_all("yayuyo"), ("やゆよ".to_string(), None));
    assert_eq!(type_all("wawo"), ("わを".to_string(), None));
    assert_eq!(type_all("marunohiru"), ("まるのひる".to_string(), None));
}

#[test]
fn pending_consonant_waits() {
    assert_eq!(type_all("k"), (String::new(), Some('k')));
    assert_eq!(type_all("ak"), ("あ".to_string(), Some('k')));
}

#[test]
fn n_handling() {
    assert_eq!(type_all("nn"), ("ん".to_string(), None));
    assert_eq!(type_all("kanka"), ("かんか".to_string(), None));
    assert_eq!(type_all("na"), ("な".to_string(), None));
    assert_eq!(type_all("n1"), ("ん1".to_string(), None));
}

#[test]
fn doubled_consonant_gives_small_tsu() {
    assert_eq!(type_all("kitte"), ("きって".to_string(), None));
    assert_eq!(type_all("kk"), ("っ".to_string(), Some('k')));
}

#[test]
fn other_characters_are_taken_as_they_are() {
    assert_eq!(type_all("a123"), ("あ123".to_string(), None));
    assert_eq!(type_all("kx"), ("kx".to_string(), None));
    assert_eq!(type_all("yi"), ("yい".to_string(), None));
    assert_eq!(type_all("tk"), ("t".to_string(), Some('k')));
}

#[test]
fn flush_ends_the_pending_syllable() {
    let mut conv = RomajiConverter::new();
    let mut out = String::new();
    conv.input('n', &mut out);
    conv.flush(&mut out);
    assert_eq!(out, "ん");
    assert_eq!(conv.pending(), None);
    conv.input('s', &mut out);
    conv.flush(&mut out);
    assert_eq!(out, "んs");
    conv.input('t', &mut out);
    conv.reset();
    assert_eq!(conv.pending(), None);
    assert_eq!(out, "んs");
}
