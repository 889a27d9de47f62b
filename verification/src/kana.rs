//! Conversions between hiragana, full-width katakana and half-width katakana.
//!
//! Each conversion is specified per character over Unicode code points: the
//! hiragana block `U+3041..=U+3096` lies `0x60` below the matching katakana
//! `U+30A1..=U+30F6`, and the half-width katakana block `U+FF61..=U+FF9F`
//! holds one form for each unvoiced kana and punctuation mark; a voiced
//! (dakuten) or semi-voiced (handakuten) kana is written in half width as its
//! unvoiced form followed by `ﾞ` or `ﾟ`.

use vstd::prelude::*;

use crate::text::{char_from_code, chars_of, push_char, push_chars};

verus! {

/// Whether `c` is in the hiragana block that has katakana counterparts.
pub open spec fn is_hiragana(c: char) -> bool {
    0x3041 <= c as u32 && c as u32 <= 0x3096
}

/// Whether `c` is in the katakana block that has hiragana counterparts.
pub open spec fn is_katakana(c: char) -> bool {
    0x30A1 <= c as u32 && c as u32 <= 0x30F6
}

/// The katakana for a hiragana character; any other character is kept.
pub open spec fn katakana_char(c: char) -> char {
    if is_hiragana(c) {
        ((c as u32) + 0x60) as char
    } else {
        c
    }
}

/// The hiragana for a katakana character; any other character is kept.
pub open spec fn hiragana_char(c: char) -> char {
    if is_katakana(c) {
        ((c as u32) - 0x60) as char
    } else {
        c
    }
}

/// The one-character half-width form of a full-width katakana or Japanese
/// punctuation character, where it has one.
pub open spec fn half_base(k: char) -> Option<char> {
    let n = k as u32;
    if 0x30A1 <= n && n <= 0x30AA {
        if n % 2 == 1 {
            Some((0xFF67 + (n - 0x30A1) / 2) as char)
        } else {
            Some((0xFF71 + (n - 0x30A2) / 2) as char)
        }
    } else if 0x30AB <= n && n <= 0x30C1 && (n - 0x30AB) % 2 == 0 {
        Some((0xFF76 + (n - 0x30AB) / 2) as char)
    } else if n == 0x30C3 {
        Some('\u{FF6F}')
    } else if 0x30C4 <= n && n <= 0x30C8 && (n - 0x30C4) % 2 == 0 {
        Some((0xFF82 + (n - 0x30C4) / 2) as char)
    } else if 0x30CA <= n && n <= 0x30CE {
        Some((0xFF85 + (n - 0x30CA)) as char)
    } else if 0x30CF <= n && n <= 0x30DB && (n - 0x30CF) % 3 == 0 {
        Some((0xFF8A + (n - 0x30CF) / 3) as char)
    } else if 0x30DE <= n && n <= 0x30E2 {
        Some((0xFF8F + (n - 0x30DE)) as char)
    } else if 0x30E3 <= n && n <= 0x30E8 {
        if n % 2 == 1 {
            Some((0xFF6C + (n - 0x30E3) / 2) as char)
        } else {
            Some((0xFF94 + (n - 0x30E4) / 2) as char)
        }
    } else if 0x30E9 <= n && n <= 0x30ED {
        Some((0xFF97 + (n - 0x30E9)) as char)
    } else if n == 0x30EF {
        Some('\u{FF9C}')
    } else if n == 0x30F2 {
        Some('\u{FF66}')
    } else if n == 0x30F3 {
        Some('\u{FF9D}')
    } else if n == 0x30FC {
        Some('\u{FF70}')
    } else if n == 0x3001 {
        Some('\u{FF64}')
    } else if n == 0x3002 {
        Some('\u{FF61}')
    } else if n == 0x300C {
        Some('\u{FF62}')
    } else if n == 0x300D {
        Some('\u{FF63}')
    } else if n == 0x30FB {
        Some('\u{FF65}')
    } else if n == 0x309B {
        Some('\u{FF9E}')
    } else if n == 0x309C {
        Some('\u{FF9F}')
    } else {
        None
    }
}

/// The full-width character for a half-width katakana or punctuation
/// character (`U+FF61..=U+FF9F`); the inverse of `half_base`.
pub open spec fn full_base(h: char) -> Option<char> {
    let n = h as u32;
    if n == 0xFF61 {
        Some('\u{3002}')
    } else if n == 0xFF62 {
        Some('\u{300C}')
    } else if n == 0xFF63 {
        Some('\u{300D}')
    } else if n == 0xFF64 {
        Some('\u{3001}')
    } else if n == 0xFF65 {
        Some('\u{30FB}')
    } else if n == 0xFF66 {
        Some('\u{30F2}')
    } else if 0xFF67 <= n && n <= 0xFF6B {
        Some((0x30A1 + 2 * (n - 0xFF67)) as char)
    } else if 0xFF6C <= n && n <= 0xFF6E {
        Some((0x30E3 + 2 * (n - 0xFF6C)) as char)
    } else if n == 0xFF6F {
        Some('\u{30C3}')
    } else if n == 0xFF70 {
        Some('\u{30FC}')
    } else if 0xFF71 <= n && n <= 0xFF75 {
        Some((0x30A2 + 2 * (n - 0xFF71)) as char)
    } else if 0xFF76 <= n && n <= 0xFF81 {
        Some((0x30AB + 2 * (n - 0xFF76)) as char)
    } else if 0xFF82 <= n && n <= 0xFF84 {
        Some((0x30C4 + 2 * (n - 0xFF82)) as char)
    } else if 0xFF85 <= n && n <= 0xFF89 {
        Some((0x30CA + (n - 0xFF85)) as char)
    } else if 0xFF8A <= n && n <= 0xFF8E {
        Some((0x30CF + 3 * (n - 0xFF8A)) as char)
    } else if 0xFF8F <= n && n <= 0xFF93 {
        Some((0x30DE + (n - 0xFF8F)) as char)
    } else if 0xFF94 <= n && n <= 0xFF96 {
        Some((0x30E4 + 2 * (n - 0xFF94)) as char)
    } else if 0xFF97 <= n && n <= 0xFF9B {
        Some((0x30E9 + (n - 0xFF97)) as char)
    } else if n == 0xFF9C {
        Some('\u{30EF}')
    } else if n == 0xFF9D {
        Some('\u{30F3}')
    } else if n == 0xFF9E {
        Some('\u{309B}')
    } else if n == 0xFF9F {
        Some('\u{309C}')
    } else {
        None
    }
}

/// The unvoiced form of a voiced (dakuten) katakana, where `k` is one.
pub open spec fn voiced_base(k: char) -> Option<char> {
    let n = k as u32;
    if 0x30AC <= n && n <= 0x30C2 && (n - 0x30AB) % 2 == 1 {
        Some((n - 1) as char)
    } else if n == 0x30C5 || n == 0x30C7 || n == 0x30C9 {
        Some((n - 1) as char)
    } else if 0x30D0 <= n && n <= 0x30DC && (n - 0x30CF) % 3 == 1 {
        Some((n - 1) as char)
    } else if n == 0x30F4 {
        Some('\u{30A6}')
    } else {
        None
    }
}

/// The unvoiced form of a semi-voiced (handakuten) katakana, where `k` is one.
pub open spec fn semi_voiced_base(k: char) -> Option<char> {
    let n = k as u32;
    if 0x30D1 <= n && n <= 0x30DD && (n - 0x30CF) % 3 == 2 {
        Some((n - 2) as char)
    } else {
        None
    }
}

/// The voiced (dakuten) form of a katakana, where it has one.
pub open spec fn voiced(k: char) -> Option<char> {
    let n = k as u32;
    if 0x30AB <= n && n <= 0x30C1 && (n - 0x30AB) % 2 == 0 {
        Some((n + 1) as char)
    } else if n == 0x30C4 || n == 0x30C6 || n == 0x30C8 {
        Some((n + 1) as char)
    } else if 0x30CF <= n && n <= 0x30DB && (n - 0x30CF) % 3 == 0 {
        Some((n + 1) as char)
    } else if n == 0x30A6 {
        Some('\u{30F4}')
    } else {
        None
    }
}

/// The semi-voiced (handakuten) form of a katakana, where it has one.
pub open spec fn semi_voiced(k: char) -> Option<char> {
    let n = k as u32;
    if 0x30CF <= n && n <= 0x30DB && (n - 0x30CF) % 3 == 0 {
        Some((n + 2) as char)
    } else {
        None
    }
}

/// The half-width dakuten mark `ﾞ`.
pub open spec fn half_dakuten() -> char {
    '\u{FF9E}'
}

/// The half-width handakuten mark `ﾟ`.
pub open spec fn half_handakuten() -> char {
    '\u{FF9F}'
}

/// The half-width form of one character: hiragana is first read as katakana;
/// kana with no half-width form (such as ゐ or ヰ) is written as full-width
/// katakana, and any other character is kept as it is.
pub open spec fn half_form(c: char) -> Seq<char> {
    let k = katakana_char(c);
    if let Some(h) = half_base(k) {
        seq![h]
    } else if let Some(b) = voiced_base(k) {
        seq![half_base(b).unwrap(), half_dakuten()]
    } else if let Some(b) = semi_voiced_base(k) {
        seq![half_base(b).unwrap(), half_handakuten()]
    } else {
        seq![k]
    }
}

/// `s` with every hiragana replaced by its katakana.
pub open spec fn katakana_text(s: Seq<char>) -> Seq<char> {
    s.map_values(|c: char| katakana_char(c))
}

/// `s` with every katakana replaced by its hiragana.
pub open spec fn hiragana_text(s: Seq<char>) -> Seq<char> {
    s.map_values(|c: char| hiragana_char(c))
}

/// `s` with every character replaced by its half-width form.
pub open spec fn half_katakana_text(s: Seq<char>) -> Seq<char>
    decreases s.len(),
{
    if s.len() == 0 {
        Seq::empty()
    } else {
        half_form(s[0]) + half_katakana_text(s.skip(1))
    }
}

/// `s` with half-width katakana read back as full width: a half-width kana
/// followed by `ﾞ` or `ﾟ` becomes the one voiced or semi-voiced katakana where
/// that exists; every other character is kept.
pub open spec fn full_width_text(s: Seq<char>) -> Seq<char>
    decreases s.len(),
{
    if s.len() == 0 {
        Seq::empty()
    } else if let Some(k) = full_base(s[0]) {
        if s.len() >= 2 && s[1] == half_dakuten() && voiced(k) is Some {
            seq![voiced(k).unwrap()] + full_width_text(s.skip(2))
        } else if s.len() >= 2 && s[1] == half_handakuten() && semi_voiced(k) is Some {
            seq![semi_voiced(k).unwrap()] + full_width_text(s.skip(2))
        } else {
            seq![k] + full_width_text(s.skip(1))
        }
    } else {
        seq![s[0]] + full_width_text(s.skip(1))
    }
}

fn half_base_of(k: char) -> (r: Option<char>)
    ensures
        r == half_base(k),
{
    match k {
        '、' => Some('､'),
        '。' => Some('｡'),
        '「' => Some('｢'),
        '」' => Some('｣'),
        '゛' => Some('ﾞ'),
        '゜' => Some('ﾟ'),
        'ァ' => Some('ｧ'),
        'ア' => Some('ｱ'),
        'ィ' => Some('ｨ'),
        'イ' => Some('ｲ'),
        'ゥ' => Some('ｩ'),
        'ウ' => Some('ｳ'),
        'ェ' => Some('ｪ'),
        'エ' => Some('ｴ'),
        'ォ' => Some('ｫ'),
        'オ' => Some('ｵ'),
        'カ' => Some('ｶ'),
        'キ' => Some('ｷ'),
        'ク' => Some('ｸ'),
        'ケ' => Some('ｹ'),
        'コ' => Some('ｺ'),
        'サ' => Some('ｻ'),
        'シ' => Some('ｼ'),
        'ス' => Some('ｽ'),
        'セ' => Some('ｾ'),
        'ソ' => Some('ｿ'),
        'タ' => Some('ﾀ'),
        'チ' => Some('ﾁ'),
        'ッ' => Some('ｯ'),
        'ツ' => Some('ﾂ'),
        'テ' => Some('ﾃ'),
        'ト' => Some('ﾄ'),
        'ナ' => Some('ﾅ'),
        'ニ' => Some('ﾆ'),
        'ヌ' => Some('ﾇ'),
        'ネ' => Some('ﾈ'),
        'ノ' => Some('ﾉ'),
        'ハ' => Some('ﾊ'),
        'ヒ' => Some('ﾋ'),
        'フ' => Some('ﾌ'),
        'ヘ' => Some('ﾍ'),
        'ホ' => Some('ﾎ'),
        'マ' => Some('ﾏ'),
        'ミ' => Some('ﾐ'),
        'ム' => Some('ﾑ'),
        'メ' => Some('ﾒ'),
        'モ' => Some('ﾓ'),
        'ャ' => Some('ｬ'),
        'ヤ' => Some('ﾔ'),
        'ュ' => Some('ｭ'),
        'ユ' => Some('ﾕ'),
        'ョ' => Some('ｮ'),
        'ヨ' => Some('ﾖ'),
        'ラ' => Some('ﾗ'),
        'リ' => Some('ﾘ'),
        'ル' => Some('ﾙ'),
        'レ' => Some('ﾚ'),
        'ロ' => Some('ﾛ'),
        'ワ' => Some('ﾜ'),
        'ヲ' => Some('ｦ'),
        'ン' => Some('ﾝ'),
        '・' => Some('･'),
        'ー' => Some('ｰ'),
        _ => None,
    }
}

fn full_base_of(h: char) -> (r: Option<char>)
    ensures
        r == full_base(h),
{
    match h {
        '｡' => Some('。'),
        '｢' => Some('「'),
        '｣' => Some('」'),
        '､' => Some('、'),
        '･' => Some('・'),
        'ｦ' => Some('ヲ'),
        'ｧ' => Some('ァ'),
        'ｨ' => Some('ィ'),
        'ｩ' => Some('ゥ'),
        'ｪ' => Some('ェ'),
        'ｫ' => Some('ォ'),
        'ｬ' => Some('ャ'),
        'ｭ' => Some('ュ'),
        'ｮ' => Some('ョ'),
        'ｯ' => Some('ッ'),
        'ｰ' => Some('ー'),
        'ｱ' => Some('ア'),
        'ｲ' => Some('イ'),
        'ｳ' => Some('ウ'),
        'ｴ' => Some('エ'),
        'ｵ' => Some('オ'),
        'ｶ' => Some('カ'),
        'ｷ' => Some('キ'),
        'ｸ' => Some('ク'),
        'ｹ' => Some('ケ'),
        'ｺ' => Some('コ'),
        'ｻ' => Some('サ'),
        'ｼ' => Some('シ'),
        'ｽ' => Some('ス'),
        'ｾ' => Some('セ'),
        'ｿ' => Some('ソ'),
        'ﾀ' => Some('タ'),
        'ﾁ' => Some('チ'),
        'ﾂ' => Some('ツ'),
        'ﾃ' => Some('テ'),
        'ﾄ' => Some('ト'),
        'ﾅ' => Some('ナ'),
        'ﾆ' => Some('ニ'),
        'ﾇ' => Some('ヌ'),
        'ﾈ' => Some('ネ'),
        'ﾉ' => Some('ノ'),
        'ﾊ' => Some('ハ'),
        'ﾋ' => Some('ヒ'),
        'ﾌ' => Some('フ'),
        'ﾍ' => Some('ヘ'),
        'ﾎ' => Some('ホ'),
        'ﾏ' => Some('マ'),
        'ﾐ' => Some('ミ'),
        'ﾑ' => Some('ム'),
        'ﾒ' => Some('メ'),
        'ﾓ' => Some('モ'),
        'ﾔ' => Some('ヤ'),
        'ﾕ' => Some('ユ'),
        'ﾖ' => Some('ヨ'),
        'ﾗ' => Some('ラ'),
        'ﾘ' => Some('リ'),
        'ﾙ' => Some('ル'),
        'ﾚ' => Some('レ'),
        'ﾛ' => Some('ロ'),
        'ﾜ' => Some('ワ'),
        'ﾝ' => Some('ン'),
        'ﾞ' => Some('゛'),
        'ﾟ' => Some('゜'),
        _ => None,
    }
}

fn voiced_base_of(k: char) -> (r: Option<char>)
    ensures
        r == voiced_base(k),
{
    match k {
        'ガ' => Some('カ'),
        'ギ' => Some('キ'),
        'グ' => Some('ク'),
        'ゲ' => Some('ケ'),
        'ゴ' => Some('コ'),
        'ザ' => Some('サ'),
        'ジ' => Some('シ'),
        'ズ' => Some('ス'),
        'ゼ' => Some('セ'),
        'ゾ' => Some('ソ'),
        'ダ' => Some('タ'),
        'ヂ' => Some('チ'),
        'ヅ' => Some('ツ'),
        'デ' => Some('テ'),
        'ド' => Some('ト'),
        'バ' => Some('ハ'),
        'ビ' => Some('ヒ'),
        'ブ' => Some('フ'),
        'ベ' => Some('ヘ'),
        'ボ' => Some('ホ'),
        'ヴ' => Some('ウ'),
        _ => None,
    }
}

fn semi_voiced_base_of(k: char) -> (r: Option<char>)
    ensures
        r == semi_voiced_base(k),
{
    match k {
        'パ' => Some('ハ'),
        'ピ' => Some('ヒ'),
        'プ' => Some('フ'),
        'ペ' => Some('ヘ'),
        'ポ' => Some('ホ'),
        _ => None,
    }
}

fn voiced_of(k: char) -> (r: Option<char>)
    ensures
        r == voiced(k),
{
    match k {
        'ウ' => Some('ヴ'),
        'カ' => Some('ガ'),
        'キ' => Some('ギ'),
        'ク' => Some('グ'),
        'ケ' => Some('ゲ'),
        'コ' => Some('ゴ'),
        'サ' => Some('ザ'),
        'シ' => Some('ジ'),
        'ス' => Some('ズ'),
        'セ' => Some('ゼ'),
        'ソ' => Some('ゾ'),
        'タ' => Some('ダ'),
        'チ' => Some('ヂ'),
        'ツ' => Some('ヅ'),
        'テ' => Some('デ'),
        'ト' => Some('ド'),
        'ハ' => Some('バ'),
        'ヒ' => Some('ビ'),
        'フ' => Some('ブ'),
        'ヘ' => Some('ベ'),
        'ホ' => Some('ボ'),
        _ => None,
    }
}

fn semi_voiced_of(k: char) -> (r: Option<char>)
    ensures
        r == semi_voiced(k),
{
    match k {
        'ハ' => Some('パ'),
        'ヒ' => Some('ピ'),
        'フ' => Some('プ'),
        'ヘ' => Some('ペ'),
        'ホ' => Some('ポ'),
        _ => None,
    }
}

/// The katakana for a hiragana character; any other character is kept.
pub fn to_katakana_char(c: char) -> (r: char)
    ensures
        r == katakana_char(c),
{
    let n = c as u32;
    if 0x3041 <= n && n <= 0x3096 {
        char_from_code(n + 0x60).unwrap()
    } else {
        c
    }
}

/// The hiragana for a katakana character; any other character is kept.
pub fn to_hiragana_char(c: char) -> (r: char)
    ensures
        r == hiragana_char(c),
{
    let n = c as u32;
    if 0x30A1 <= n && n <= 0x30F6 {
        char_from_code(n - 0x60).unwrap()
    } else {
        c
    }
}

/// Converts every hiragana in `s` to katakana, keeping all other characters.
pub fn hiragana_to_katakana(s: &str) -> (r: String)
    ensures
        r@ == katakana_text(s@),
{
    let v = chars_of(s);
    let mut out = String::new();
    let n = v.len();
    for i in 0..n
        invariant
            n == v@.len(),
            v@ == s@,
            out@ == katakana_text(v@.take(i as int)),
    {
        let k = to_katakana_char(v[i]);
        push_char(&mut out, k);
        proof {
            assert(v@.take(i as int + 1) == v@.take(i as int).push(v@[i as int]));
            assert(katakana_text(v@.take(i as int + 1)) == katakana_text(v@.take(i as int)).push(k));
        }
    }
    proof {
        assert(v@.take(n as int) == v@);
    }
    out
}

/// Converts every katakana in `s` to hiragana, keeping all other characters.
pub fn katakana_to_hiragana(s: &str) -> (r: String)
    ensures
        r@ == hiragana_text(s@),
{
    let v = chars_of(s);
    let mut out = String::new();
    let n = v.len();
    for i in 0..n
        invariant
            n == v@.len(),
            v@ == s@,
            out@ == hiragana_text(v@.take(i as int)),
    {
        let k = to_hiragana_char(v[i]);
        push_char(&mut out, k);
        proof {
            assert(v@.take(i as int + 1) == v@.take(i as int).push(v@[i as int]));
            assert(hiragana_text(v@.take(i as int + 1)) == hiragana_text(v@.take(i as int)).push(k));
        }
    }
    proof {
        assert(v@.take(n as int) == v@);
    }
    out
}

/// Appends the half-width form of `c` to `out`.
fn push_half_form(out: &mut Vec<char>, c: char)
    ensures
        final(out)@ == old(out)@ + half_form(c),
{
    let k = to_katakana_char(c);
    match half_base_of(k) {
        Some(h) => {
            out.push(h);
        },
        None => match voiced_base_of(k) {
            Some(b) => {
                out.push(half_base_of(b).unwrap());
                out.push('\u{FF9E}');
            },
            None => match semi_voiced_base_of(k) {
                Some(b) => {
                    out.push(half_base_of(b).unwrap());
                    out.push('\u{FF9F}');
                },
                None => {
                    out.push(k);
                },
            },
        },
    }
}

/// Converts hiragana and full-width katakana in `s` to half-width katakana:
/// voiced and semi-voiced kana become two characters, the unvoiced form and
/// `ﾞ` or `ﾟ`. Kana without a half-width form become full-width katakana;
/// other characters are kept.
pub fn hiragana_to_half_katakana(s: &str) -> (r: String)
    ensures
        r@ == half_katakana_text(s@),
{
    let v = chars_of(s);
    let mut out: Vec<char> = Vec::new();
    let n = v.len();
    proof {
        assert(v@.skip(0) == v@);
        assert(out@ + half_katakana_text(v@) == half_katakana_text(v@));
    }
    for i in 0..n
        invariant
            n == v@.len(),
            v@ == s@,
            out@ + half_katakana_text(v@.skip(i as int)) == half_katakana_text(v@),
    {
        let ghost before = out@;
        push_half_form(&mut out, v[i]);
        proof {
            let rest = v@.skip(i as int);
            assert(rest[0] == v@[i as int]);
            assert(rest.skip(1) == v@.skip(i as int + 1));
            assert(half_katakana_text(rest) == half_form(rest[0]) + half_katakana_text(rest.skip(1)));
            assert(before + half_katakana_text(rest) == out@ + half_katakana_text(v@.skip(i as int + 1)));
        }
    }
    proof {
        assert(v@.skip(0) == v@);
        assert(v@.skip(n as int) == Seq::<char>::empty());
        assert(out@ + Seq::<char>::empty() == out@);
    }
    let mut r = String::new();
    push_chars(&mut r, &out);
    proof {
        assert(Seq::<char>::empty() + out@ == out@);
    }
    r
}

/// Converts half-width katakana in `s` to full-width katakana, joining a kana
/// with a following `ﾞ` or `ﾟ` into one voiced or semi-voiced katakana where
/// that exists. All other characters are kept.
pub fn half_width_to_full_width_katakana(s: &str) -> (r: String)
    ensures
        r@ == full_width_text(s@),
{
    let v = chars_of(s);
    let mut out: Vec<char> = Vec::new();
    let n = v.len();
    proof {
        assert(v@.skip(0) == v@);
        assert(out@ + full_width_text(v@) == full_width_text(v@));
    }
    let mut i: usize = 0;
    while i < n
        invariant
            n == v@.len(),
            v@ == s@,
            i <= n,
            out@ + full_width_text(v@.skip(i as int)) == full_width_text(v@),
        decreases n - i,
    {
        let ghost before = out@;
        let ghost rest = v@.skip(i as int);
        assert(rest[0] == v@[i as int]);
        assert(rest.len() >= 2 ==> rest[1] == v@[i as int + 1]);
        assert(rest.skip(1) == v@.skip(i as int + 1));
        assert(rest.len() >= 2 ==> rest.skip(2) == v@.skip(i as int + 2));
        let h = v[i];
        match full_base_of(h) {
            Some(k) => {
                let next_dakuten = i + 1 < n && v[i + 1] == '\u{FF9E}';
                let next_handakuten = i + 1 < n && v[i + 1] == '\u{FF9F}';
                let vk = voiced_of(k);
                let sk = semi_voiced_of(k);
                if next_dakuten && vk.is_some() {
                    out.push(vk.unwrap());
                    i = i + 2;
                } else if next_handakuten && sk.is_some() {
                    out.push(sk.unwrap());
                    i = i + 2;
                } else {
                    out.push(k);
                    i = i + 1;
                }
            },
            None => {
                out.push(h);
                i = i + 1;
            },
        }
        assert(before + full_width_text(rest) == out@ + full_width_text(v@.skip(i as int)));
    }
    proof {
        assert(v@.skip(0) == v@);
        assert(v@.skip(n as int) == Seq::<char>::empty());
        assert(out@ + Seq::<char>::empty() == out@);
    }
    let mut r = String::new();
    push_chars(&mut r, &out);
    proof {
        assert(Seq::<char>::empty() + out@ == out@);
    }
    r
}

} // verus!
