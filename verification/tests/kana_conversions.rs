use karukan_im::kana::{
    half_width_to_full_width_katakana, hiragana_to_half_katakana, hiragana_to_katakana,
    katakana_to_hiragana, to_hiragana_char, to_katakana_char,
};

#[test]
fn hiragana_to_katakana_maps_every_hiragana() {
    assert_eq!(hiragana_to_katakana("あいうえお"), "アイウエオ");
    assert_eq!(hiragana_to_katakana("がっこう"), "ガッコウ");
    assert_eq!(hiragana_to_katakana("ぁゖ"), "ァヶ");
}

#[test]
fn hiragana_to_katakana_keeps_other_characters() {
    assert_eq!(hiragana_to_katakana("あ123abc"), "ア123abc");
    assert_eq!(hiragana_to_katakana("カタカナ"), "カタカナ");
    assert_eq!(hiragana_to_katakana("漢字ー、。"), "漢字ー、。");
    assert_eq!(hiragana_to_katakana(""), "");
}

#[test]
fn katakana_to_hiragana_maps_every_katakana() {
    assert_eq!(katakana_to_hiragana("アイウエオ"), "あいうえお");
    assert_eq!(katakana_to_hiragana("ヴァヶ"), "ゔぁゖ");
    assert_eq!(katakana_to_hiragana("ｱ123"), "ｱ123");
}

#[test]
fn single_character_conversions() {
    assert_eq!(to_katakana_char('ん'), 'ン');
    assert_eq!(to_katakana_char('z'), 'z');
    assert_eq!(to_hiragana_char('ン'), 'ん');
    assert_eq!(to_hiragana_char('ー'), 'ー');
}

#[test]
fn half_katakana_splits_voiced_kana() {
    assert_eq!(hiragana_to_half_katakana("あいう"), "ｱｲｳ");
    assert_eq!(hiragana_to_half_katakana("アイウ"), "ｱｲｳ");
    assert_eq!(hiragana_to_half_katakana("がぱ"), "ｶﾞﾊﾟ");
    assert_eq!(hiragana_to_half_katakana("ヴ"), "ｳﾞ");
    assert_eq!(hiragana_to_half_katakana("きゃっ"), "ｷｬｯ");
    assert_eq!(hiragana_to_half_katakana("ー、。「」・"), "ｰ､｡｢｣･");
    assert_eq!(hiragana_to_half_katakana("を、ん"), "ｦ､ﾝ");
}

#[test]
fn half_katakana_writes_kana_without_half_form_as_katakana() {
    assert_eq!(hiragana_to_half_katakana("あ123"), "ｱ123");
    assert_eq!(hiragana_to_half_katakana("ゐ漢"), "ヰ漢");
    assert_eq!(hiragana_to_half_katakana("ゑゕ"), "ヱヵ");
    assert_eq!(hiragana_to_half_katakana("ｱ"), "ｱ");
}

#[test]
fn full_width_joins_sound_marks() {
    assert_eq!(half_width_to_full_width_katakana("ｱｲｳ"), "アイウ");
    assert_eq!(half_width_to_full_width_katakana("ｶﾞﾊﾟﾎﾞｳﾞ"), "ガパボヴ");
    assert_eq!(half_width_to_full_width_katakana("ｱﾞ"), "ア゛");
    assert_eq!(half_width_to_full_width_katakana("ｶﾟ"), "カ゜");
    assert_eq!(half_width_to_full_width_katakana("ｰ､｡｢｣･ｦﾝ"), "ー、。「」・ヲン");
    assert_eq!(half_width_to_full_width_katakana("あ123"), "あ123");
}

#[test]
fn half_width_round_trip_on_full_table() {
    let text = "ぁあぃいぅうぇえぉおかがきぎくぐけげこごさざしじすずせぜそぞただちぢっつづてでとどなにぬねのはばぱひびぴふぶぷへべぺほぼぽまみむめもゃやゅゆょよらりるれろわをんゔ";
    let half = hiragana_to_half_katakana(text);
    assert_eq!(half_width_to_full_width_katakana(&half), hiragana_to_katakana(text));
    assert_eq!(katakana_to_hiragana(&half_width_to_full_width_katakana(&half)), text);
}

#[test]
fn conversions_are_idempotent() {
    let k = hiragana_to_katakana("ひらがなとカタカナ");
    assert_eq!(hiragana_to_katakana(&k), k);
    let h = katakana_to_hiragana("ひらがなとカタカナ");
    assert_eq!(katakana_to_hiragana(&h), h);
    let half = hiragana_to_half_katakana("がぎぐ、ゐ");
    assert_eq!(hiragana_to_half_katakana(&half), half);
}

#[test]
fn half_katakana_same_from_hiragana_and_katakana() {
    let text = "ゐあゕがぱ";
    assert_eq!(
        hiragana_to_half_katakana(&hiragana_to_katakana(text)),
        hiragana_to_half_katakana(text)
    );
    assert_eq!(hiragana_to_half_katakana(text), "ヰｱヵｶﾞﾊﾟ");
}
