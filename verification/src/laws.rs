//! Laws of the engine: what holds of every input, across calls.

use vstd::prelude::*;

use crate::kana::{
    full_base, full_width_text, half_base, half_form, half_katakana_text, is_hiragana, is_katakana,
    hiragana_text, katakana_char, katakana_text, semi_voiced, semi_voiced_base,
    voiced, voiced_base,
};
use crate::candidate::{next_cursor, prev_cursor, CandidateListView};
use crate::engine::{
    composed, is_debug_toggle, is_live_toggle, kana_form, live_message, mode_of_key, step, sym, taken,
    typed_char, ActionView, EngineView, KanaMode, StateView,
};
use crate::keycode::KeyEvent;
use crate::romaji::feed;
use crate::keysym;

verus! {

/// Whether no character of `s` is half-width katakana or punctuation
/// (`U+FF61..=U+FF9F`).
pub open spec fn no_half_width(s: Seq<char>) -> bool {
    forall|i: int| 0 <= i < s.len() ==> full_base(#[trigger] s[i]) is None
}

proof fn lemma_full_width_identity(s: Seq<char>)
    requires
        no_half_width(s),
    ensures
        full_width_text(s) == s,
    decreases s.len(),
{
    if s.len() > 0 {
        assert(full_base(s[0]) is None);
        assert(no_half_width(s.skip(1))) by {
            assert forall|i: int| 0 <= i < s.skip(1).len() implies full_base(#[trigger] s.skip(1)[i]) is None by {
                assert(s.skip(1)[i] == s[i + 1]);
            }
        }
        lemma_full_width_identity(s.skip(1));
        assert(s == seq![s[0]] + s.skip(1));
    }
}

proof fn lemma_half_base_inverse(k: char)
    requires
        half_base(k) is Some,
    ensures
        full_base(half_base(k).unwrap()) == Some(k),
{
}

/// Whether the half-width form of `c` reads back as the katakana of `c`: `c`
/// is neither half-width itself nor a lone sound mark (゛ ゜).
pub open spec fn half_round_trips(c: char) -> bool {
    &&& full_base(c) is None
    &&& c != '\u{309B}'
    &&& c != '\u{309C}'
}

proof fn lemma_half_form_char(c: char, rest: Seq<char>)
    requires
        half_round_trips(c),
        rest.len() == 0 || (rest[0] != '\u{FF9E}' && rest[0] != '\u{FF9F}'),
    ensures
        half_form(c).len() > 0,
        half_form(c)[0] != '\u{FF9E}',
        half_form(c)[0] != '\u{FF9F}',
        full_width_text(half_form(c) + rest) == seq![katakana_char(c)] + full_width_text(rest),
{
    let k = katakana_char(c);
    let s = half_form(c) + rest;
    if let Some(h) = half_base(k) {
        lemma_half_base_inverse(k);
        assert(s[0] == h);
        assert(s.skip(1) == rest);
        if s.len() >= 2 {
            assert(s[1] == rest[0]);
        }
    } else if let Some(b) = voiced_base(k) {
        assert(half_base(b) is Some);
        lemma_half_base_inverse(b);
        assert(voiced(b) == Some(k));
        assert(s[0] == half_base(b).unwrap());
        assert(s[1] == '\u{FF9E}');
        assert(s.skip(2) == rest);
    } else if let Some(b) = semi_voiced_base(k) {
        assert(half_base(b) is Some);
        lemma_half_base_inverse(b);
        assert(semi_voiced(b) == Some(k));
        assert(voiced(b) is Some ==> voiced(b).unwrap() != k);
        assert(s[0] == half_base(b).unwrap());
        assert(s[1] == '\u{FF9F}');
        assert(s.skip(2) == rest);
    } else {
        assert(full_base(k) is None);
        assert(s[0] == k);
        assert(s.skip(1) == rest);
    }
}

/// Writing a reading in half-width katakana and reading it back gives its
/// katakana, for every reading whose characters all round-trip (F8 then F7
/// shows the same text as F7).
pub proof fn law_half_width_round_trip(r: Seq<char>)
    requires
        forall|i: int| 0 <= i < r.len() ==> half_round_trips(#[trigger] r[i]),
    ensures
        full_width_text(half_katakana_text(r)) == katakana_text(r),
    decreases r.len(),
{
    if r.len() > 0 {
        let tail = r.skip(1);
        assert forall|i: int| 0 <= i < tail.len() implies half_round_trips(#[trigger] tail[i]) by {
            assert(tail[i] == r[i + 1]);
        }
        law_half_width_round_trip(tail);
        let rest = half_katakana_text(tail);
        if tail.len() > 0 {
            lemma_half_form_char(tail[0], half_katakana_text(tail.skip(1)));
            assert(rest[0] == half_form(tail[0])[0]);
        }
        assert(half_round_trips(r[0]));
        lemma_half_form_char(r[0], rest);
        assert(katakana_text(r) == seq![katakana_char(r[0])] + katakana_text(tail));
    }
}

proof fn lemma_full_width_has_no_half_width(s: Seq<char>)
    ensures
        no_half_width(full_width_text(s)),
        s.len() > 0 ==> full_width_text(s).len() > 0,
    decreases s.len(),
{
    if s.len() > 0 {
        lemma_full_width_has_no_half_width(s.skip(1));
        if s.len() >= 2 {
            lemma_full_width_has_no_half_width(s.skip(2));
        }
        let t = full_width_text(s);
        assert forall|i: int| 0 <= i < t.len() implies full_base(#[trigger] t[i]) is None by {
            if full_base(s[0]) is Some {
                let k = full_base(s[0]).unwrap();
                if s.len() >= 2 && s[1] == '\u{FF9E}' && voiced(k) is Some {
                    if i > 0 {
                        assert(t[i] == full_width_text(s.skip(2))[i - 1]);
                    }
                } else if s.len() >= 2 && s[1] == '\u{FF9F}' && semi_voiced(k) is Some {
                    if i > 0 {
                        assert(t[i] == full_width_text(s.skip(2))[i - 1]);
                    }
                } else {
                    if i > 0 {
                        assert(t[i] == full_width_text(s.skip(1))[i - 1]);
                    }
                }
            } else {
                if i > 0 {
                    assert(t[i] == full_width_text(s.skip(1))[i - 1]);
                }
            }
        }
    }
}

proof fn lemma_katakana_has_no_half_width(s: Seq<char>)
    requires
        no_half_width(s),
    ensures
        no_half_width(katakana_text(s)),
        no_half_width(hiragana_text(s)),
{
    assert forall|i: int| 0 <= i < s.len() implies full_base(#[trigger] katakana_text(s)[i]) is None by {
        assert(full_base(s[i]) is None);
    }
    assert forall|i: int| 0 <= i < s.len() implies full_base(#[trigger] hiragana_text(s)[i]) is None by {
        assert(full_base(s[i]) is None);
    }
}

/// Converting to katakana twice is converting once.
pub proof fn law_katakana_idempotent(s: Seq<char>)
    ensures
        katakana_text(katakana_text(s)) == katakana_text(s),
{
    assert(katakana_text(katakana_text(s)) =~= katakana_text(s));
}

/// Converting to hiragana twice is converting once.
pub proof fn law_hiragana_idempotent(s: Seq<char>)
    ensures
        hiragana_text(hiragana_text(s)) == hiragana_text(s),
{
    assert(hiragana_text(hiragana_text(s)) =~= hiragana_text(s));
}

/// The hiragana of the katakana of a text is the hiragana of the text, and
/// the other way round: a kana conversion forgets the one before it.
pub proof fn law_kana_conversions_forget(s: Seq<char>)
    ensures
        hiragana_text(katakana_text(s)) == hiragana_text(s),
        katakana_text(hiragana_text(s)) == katakana_text(s),
{
    assert(hiragana_text(katakana_text(s)) =~= hiragana_text(s));
    assert(katakana_text(hiragana_text(s)) =~= katakana_text(s));
}

/// A text with no katakana is its own hiragana.
proof fn lemma_hiragana_identity(s: Seq<char>)
    requires
        forall|i: int| 0 <= i < s.len() ==> !is_katakana(#[trigger] s[i]),
    ensures
        hiragana_text(s) == s,
{
    assert(hiragana_text(s) =~= s);
}

/// Pressing the same kana conversion key twice gives what pressing it once
/// gives (F6, F7 and F8 are idempotent on the reading).
pub proof fn law_kana_form_idempotent(mode: KanaMode, r: Seq<char>)
    ensures
        kana_form(mode, kana_form(mode, r)) == kana_form(mode, r),
{
    lemma_full_width_has_no_half_width(r);
    let full = full_width_text(r);
    lemma_katakana_has_no_half_width(full);
    match mode {
        KanaMode::Hiragana => {
            lemma_full_width_identity(hiragana_text(full));
            law_hiragana_idempotent(full);
        },
        KanaMode::Katakana => {
            lemma_full_width_identity(katakana_text(full));
            law_katakana_idempotent(full);
        },
        KanaMode::HalfKatakana => {
            law_half_katakana_idempotent(r);
        },
    }
}

/// Whether a reading is as romaji input writes it: no katakana and no
/// half-width characters.
pub open spec fn is_romaji_reading(r: Seq<char>) -> bool {
    forall|i: int| 0 <= i < r.len() ==> !is_katakana(#[trigger] r[i]) && full_base(r[i]) is None
}

/// F7 then F6 gives back a reading typed in romaji.
pub proof fn law_katakana_then_hiragana_restores(r: Seq<char>)
    requires
        is_romaji_reading(r),
    ensures
        kana_form(KanaMode::Hiragana, kana_form(KanaMode::Katakana, r)) == r,
{
    assert(no_half_width(r));
    lemma_full_width_identity(r);
    lemma_katakana_has_no_half_width(r);
    lemma_full_width_identity(katakana_text(r));
    law_kana_conversions_forget(r);
    lemma_hiragana_identity(r);
}

/// F8 then F6 gives back a reading typed in romaji with no lone sound mark
/// (゛ ゜); F8 then F7 gives its katakana.
pub proof fn law_half_katakana_then_back(r: Seq<char>)
    requires
        is_romaji_reading(r),
        forall|i: int| 0 <= i < r.len() ==> half_round_trips(#[trigger] r[i]),
    ensures
        kana_form(KanaMode::Hiragana, kana_form(KanaMode::HalfKatakana, r)) == r,
        kana_form(KanaMode::Katakana, kana_form(KanaMode::HalfKatakana, r)) == katakana_text(r),
{
    law_half_width_round_trip(r);
    law_kana_conversions_forget(r);
    lemma_hiragana_identity(r);
    law_katakana_idempotent(r);
}

proof fn lemma_half_text_concat(a: Seq<char>, b: Seq<char>)
    ensures
        half_katakana_text(a + b) == half_katakana_text(a) + half_katakana_text(b),
    decreases a.len(),
{
    if a.len() > 0 {
        lemma_half_text_concat(a.skip(1), b);
        assert((a + b).skip(1) == a.skip(1) + b);
        assert((a + b)[0] == a[0]);
    } else {
        assert(a + b == b);
    }
}

proof fn lemma_half_width_char_stable(h: char)
    requires
        0xFF61 <= h as u32 <= 0xFF9F,
    ensures
        half_form(h) == seq![h],
{
    assert(katakana_char(h) == h);
    assert(half_base(h) is None);
    assert(voiced_base(h) is None);
    assert(semi_voiced_base(h) is None);
}

proof fn lemma_half_base_range(k: char)
    requires
        half_base(k) is Some,
    ensures
        0xFF61 <= half_base(k).unwrap() as u32 <= 0xFF9F,
{
}

proof fn lemma_half_text_single(a: char)
    ensures
        half_katakana_text(seq![a]) == half_form(a),
{
    assert(seq![a].skip(1).len() == 0);
    assert(half_katakana_text(seq![a].skip(1)) == Seq::<char>::empty());
    assert(half_form(a) + Seq::<char>::empty() == half_form(a));
}

proof fn lemma_half_form_stable(c: char)
    ensures
        half_katakana_text(half_form(c)) == half_form(c),
{
    let k = katakana_char(c);
    let f = half_form(c);
    if let Some(h) = half_base(k) {
        lemma_half_base_range(k);
        lemma_half_width_char_stable(h);
        lemma_half_text_single(h);
    } else if let Some(b) = voiced_base(k) {
        assert(half_base(b) is Some);
        lemma_half_base_range(b);
        let h = half_base(b).unwrap();
        lemma_half_width_char_stable(h);
        lemma_half_width_char_stable('\u{FF9E}');
        lemma_half_text_single(h);
        lemma_half_text_single('\u{FF9E}');
        lemma_half_text_concat(seq![h], seq!['\u{FF9E}']);
        assert(f == seq![h] + seq!['\u{FF9E}']);
    } else if let Some(b) = semi_voiced_base(k) {
        assert(half_base(b) is Some);
        lemma_half_base_range(b);
        let h = half_base(b).unwrap();
        lemma_half_width_char_stable(h);
        lemma_half_width_char_stable('\u{FF9F}');
        lemma_half_text_single(h);
        lemma_half_text_single('\u{FF9F}');
        lemma_half_text_concat(seq![h], seq!['\u{FF9F}']);
        assert(f == seq![h] + seq!['\u{FF9F}']);
    } else {
        assert(f == seq![k]);
        assert(katakana_char(k) == k);
        lemma_half_text_single(k);
    }
}

/// Writing a text in half-width katakana twice is writing it once.
pub proof fn law_half_katakana_idempotent(s: Seq<char>)
    ensures
        half_katakana_text(half_katakana_text(s)) == half_katakana_text(s),
    decreases s.len(),
{
    if s.len() > 0 {
        law_half_katakana_idempotent(s.skip(1));
        lemma_half_text_concat(half_form(s[0]), half_katakana_text(s.skip(1)));
        lemma_half_form_stable(s[0]);
    }
}

/// Whether none of `actions` commits text.
pub open spec fn commits_nothing(actions: Seq<ActionView>) -> bool {
    forall|i: int| 0 <= i < actions.len() ==> !(#[trigger] actions[i] is Commit)
}

/// F7 is a one-shot katakana conversion: it commits nothing, shows the
/// reading as katakana and freezes it; Enter then commits the katakana and
/// empties the engine.
pub proof fn law_katakana_commits_on_enter(s: EngineView, f7: KeyEvent, enter: KeyEvent)
    requires
        f7.is_press,
        sym(f7) == keysym::F7,
        enter.is_press,
        sym(enter) == keysym::RETURN,
        composed(s).len() > 0,
    ensures
        step(s, f7).1.consumed,
        commits_nothing(step(s, f7).1.actions),
        step(s, f7).0.state == (StateView::Composing { preedit: kana_form(KanaMode::Katakana, composed(s)) }),
        step(s, f7).0.frozen,
        step(s, f7).0.live_text.len() == 0,
        step(step(s, f7).0, enter).1.actions[0] == ActionView::Commit(kana_form(KanaMode::Katakana, composed(s))),
        step(step(s, f7).0, enter).0.state == StateView::Empty,
{
    let k = kana_form(KanaMode::Katakana, composed(s));
    lemma_full_width_has_no_half_width(composed(s));
    assert(k.len() > 0);
    assert(mode_of_key(f7) == Some(KanaMode::Katakana));
    let t = step(s, f7).0;
    assert(t.input == k);
    assert(t.pending is None);
    assert(composed(t) == k);
    assert(mode_of_key(enter) is None);
    assert(typed_char(enter) is None);
}

/// While the reading is frozen by a kana conversion, typing a character
/// first commits the reading as shown, then starts a new, unfrozen reading.
pub proof fn law_frozen_reading_commits_on_input(s: EngineView, key: KeyEvent)
    requires
        s.state is Composing,
        s.frozen,
        key.is_press,
        typed_char(key) is Some,
        composed(s).len() > 0,
    ensures
        step(s, key).1.actions[0] == ActionView::Commit(composed(s)),
        !step(s, key).0.frozen,
        step(s, key).0.state is Composing,
{
    assert(!is_debug_toggle(key));
    assert(!is_live_toggle(key));
    assert(mode_of_key(key) is None);
}

/// In conversion, Tab then Shift+Tab selects the candidate selected before,
/// leaving the engine as it was.
pub proof fn law_tab_then_shift_tab(s: EngineView, list: CandidateListView, tab: KeyEvent, shift_tab: KeyEvent)
    requires
        0 <= list.cursor < list.texts.len(),
        s.state == (StateView::Conversion { preedit: list.texts[list.cursor], list }),
        tab.is_press,
        sym(tab) == keysym::TAB,
        !tab.modifiers.shift,
        shift_tab.is_press,
        sym(shift_tab) == keysym::TAB,
        shift_tab.modifiers.shift,
    ensures
        step(s, tab).0.state matches StateView::Conversion { list: l, .. } && l.cursor == next_cursor(
            list.cursor,
            list.texts.len() as int,
        ),
        step(step(s, tab).0, shift_tab).0 == s,
{
    assert(mode_of_key(tab) is None);
    assert(mode_of_key(shift_tab) is None);
    assert(typed_char(tab) is None);
    assert(typed_char(shift_tab) is None);
    let n = list.texts.len() as int;
    assert(prev_cursor(next_cursor(list.cursor, n), n) == list.cursor);
    let t = step(s, tab).0;
    let l2 = CandidateListView { texts: list.texts, cursor: next_cursor(list.cursor, n) };
    assert(t.state == (StateView::Conversion { preedit: l2.texts[l2.cursor], list: l2 }));
    let u = step(t, shift_tab).0;
    let l3 = CandidateListView { texts: list.texts, cursor: list.cursor };
    assert(l3 == list);
    assert(u.state == s.state);
    assert(u == s);
}

/// Switching live conversion twice leaves the engine as it was; each switch
/// announces the new setting.
pub proof fn law_live_toggle_twice(s: EngineView, key: KeyEvent)
    requires
        key.is_press,
        is_live_toggle(key),
    ensures
        step(s, key).1.actions == seq![ActionView::UpdateAuxText(live_message(!s.live_enabled))],
        step(s, key).0.live_enabled == !s.live_enabled,
        step(step(s, key).0, key).0 == s,
{
    assert(!is_debug_toggle(key));
}

/// Switching the debug information twice leaves the engine as it was.
pub proof fn law_debug_toggle_twice(s: EngineView, key: KeyEvent)
    requires
        key.is_press,
        is_debug_toggle(key),
    ensures
        step(s, key).0.debug == !s.debug,
        step(step(s, key).0, key).0 == s,
{
}

/// A kana conversion key never commits; with nothing typed it changes
/// nothing and asks for nothing.
pub proof fn law_kana_key(s: EngineView, key: KeyEvent)
    requires
        key.is_press,
        mode_of_key(key) is Some,
    ensures
        step(s, key).1.consumed,
        commits_nothing(step(s, key).1.actions),
        composed(s).len() == 0 ==> step(s, key) == (s, taken(Seq::empty())),
{
    assert(!is_debug_toggle(key));
    assert(!is_live_toggle(key));
    if composed(s).len() == 0 {
        assert(s.pending is None);
        assert(s.input.len() == 0);
        assert(composed(s) == s.input);
    }
}

/// F7 then F6 gives back a reading typed in romaji, shown in the preedit.
pub proof fn law_katakana_then_hiragana_key(s: EngineView, f7: KeyEvent, f6: KeyEvent)
    requires
        f7.is_press,
        sym(f7) == keysym::F7,
        f6.is_press,
        sym(f6) == keysym::F6,
        composed(s).len() > 0,
        is_romaji_reading(composed(s)),
    ensures
        step(step(s, f7).0, f6).0.input == composed(s),
        step(step(s, f7).0, f6).0.state == (StateView::Composing { preedit: composed(s) }),
{
    law_katakana_then_hiragana_restores(composed(s));
    lemma_full_width_has_no_half_width(composed(s));
    assert(mode_of_key(f7) == Some(KanaMode::Katakana));
    assert(kana_form(KanaMode::Katakana, composed(s)).len() > 0);
    let t = step(s, f7).0;
    assert(t.input == kana_form(KanaMode::Katakana, composed(s)));
    assert(composed(t) == t.input);
    assert(mode_of_key(f6) == Some(KanaMode::Hiragana));
}

/// F8 then F6 gives back a reading typed in romaji with no lone sound mark
/// (゛ ゜).
pub proof fn law_half_katakana_then_hiragana_key(s: EngineView, f8: KeyEvent, f6: KeyEvent)
    requires
        f8.is_press,
        sym(f8) == keysym::F8,
        f6.is_press,
        sym(f6) == keysym::F6,
        composed(s).len() > 0,
        is_romaji_reading(composed(s)),
        forall|i: int| 0 <= i < composed(s).len() ==> half_round_trips(#[trigger] composed(s)[i]),
    ensures
        step(step(s, f8).0, f6).0.input == composed(s),
        step(step(s, f8).0, f6).0.state == (StateView::Composing { preedit: composed(s) }),
{
    law_half_katakana_then_back(composed(s));
    assert(mode_of_key(f8) == Some(KanaMode::HalfKatakana));
    assert(mode_of_key(f6) == Some(KanaMode::Hiragana));
    let r = composed(s);
    let h = kana_form(KanaMode::HalfKatakana, r);
    assert(h.len() > 0) by {
        assert(half_katakana_text(r) == half_form(r[0]) + half_katakana_text(r.skip(1)));
    }
    let t = step(s, f8).0;
    assert(t.input == h);
    assert(composed(t) == t.input);
}

proof fn lemma_half_text_respects(s: Seq<char>, t: Seq<char>)
    requires
        s.len() == t.len(),
        forall|i: int| 0 <= i < s.len() ==> katakana_char(#[trigger] s[i]) == katakana_char(t[i]),
    ensures
        half_katakana_text(s) == half_katakana_text(t),
    decreases s.len(),
{
    if s.len() > 0 {
        assert(katakana_char(s[0]) == katakana_char(t[0]));
        assert(half_form(s[0]) == half_form(t[0]));
        assert forall|i: int| 0 <= i < s.skip(1).len() implies katakana_char(#[trigger] s.skip(1)[i])
            == katakana_char(t.skip(1)[i]) by {
            assert(s.skip(1)[i] == s[i + 1]);
            assert(t.skip(1)[i] == t[i + 1]);
        }
        lemma_half_text_respects(s.skip(1), t.skip(1));
    }
}

/// Half-width katakana does not depend on whether a kana was written in
/// hiragana or katakana: F8 gives the same text for a reading, its katakana
/// and its hiragana.
pub proof fn law_half_katakana_ignores_kana_kind(s: Seq<char>)
    ensures
        half_katakana_text(katakana_text(s)) == half_katakana_text(s),
        half_katakana_text(hiragana_text(s)) == half_katakana_text(s),
{
    lemma_half_text_respects(katakana_text(s), s);
    lemma_half_text_respects(hiragana_text(s), s);
}

/// F8 leaves the engine the same whether the reading was typed in hiragana
/// or had been turned into katakana first (by F7, say).
pub proof fn law_half_katakana_key_ignores_kana_kind(s: EngineView, f8: KeyEvent)
    requires
        f8.is_press,
        sym(f8) == keysym::F8,
    ensures
        step(EngineView { input: katakana_text(composed(s)), pending: None, ..s }, f8) == step(s, f8),
{
    let t = EngineView { input: katakana_text(composed(s)), pending: None, ..s };
    assert(mode_of_key(f8) == Some(KanaMode::HalfKatakana));
    assert(composed(t) == katakana_text(composed(s)));
    law_half_katakana_ignores_kana_kind(composed(s));
    assert(composed(t).len() == composed(s).len());
}

/// The standard half-width katakana table (U+FF61..=U+FF9D): `h` is the
/// half-width form of the full-width `k`.
pub open spec fn standard_half_width_pair(k: char, h: char) -> bool {
    ||| (k == '。' && h == '｡')
    ||| (k == '「' && h == '｢')
    ||| (k == '」' && h == '｣')
    ||| (k == '、' && h == '､')
    ||| (k == '・' && h == '･')
    ||| (k == 'ヲ' && h == 'ｦ')
    ||| (k == 'ァ' && h == 'ｧ')
    ||| (k == 'ィ' && h == 'ｨ')
    ||| (k == 'ゥ' && h == 'ｩ')
    ||| (k == 'ェ' && h == 'ｪ')
    ||| (k == 'ォ' && h == 'ｫ')
    ||| (k == 'ャ' && h == 'ｬ')
    ||| (k == 'ュ' && h == 'ｭ')
    ||| (k == 'ョ' && h == 'ｮ')
    ||| (k == 'ッ' && h == 'ｯ')
    ||| (k == 'ー' && h == 'ｰ')
    ||| (k == 'ア' && h == 'ｱ')
    ||| (k == 'イ' && h == 'ｲ')
    ||| (k == 'ウ' && h == 'ｳ')
    ||| (k == 'エ' && h == 'ｴ')
    ||| (k == 'オ' && h == 'ｵ')
    ||| (k == 'カ' && h == 'ｶ')
    ||| (k == 'キ' && h == 'ｷ')
    ||| (k == 'ク' && h == 'ｸ')
    ||| (k == 'ケ' && h == 'ｹ')
    ||| (k == 'コ' && h == 'ｺ')
    ||| (k == 'サ' && h == 'ｻ')
    ||| (k == 'シ' && h == 'ｼ')
    ||| (k == 'ス' && h == 'ｽ')
    ||| (k == 'セ' && h == 'ｾ')
    ||| (k == 'ソ' && h == 'ｿ')
    ||| (k == 'タ' && h == 'ﾀ')
    ||| (k == 'チ' && h == 'ﾁ')
    ||| (k == 'ツ' && h == 'ﾂ')
    ||| (k == 'テ' && h == 'ﾃ')
    ||| (k == 'ト' && h == 'ﾄ')
    ||| (k == 'ナ' && h == 'ﾅ')
    ||| (k == 'ニ' && h == 'ﾆ')
    ||| (k == 'ヌ' && h == 'ﾇ')
    ||| (k == 'ネ' && h == 'ﾈ')
    ||| (k == 'ノ' && h == 'ﾉ')
    ||| (k == 'ハ' && h == 'ﾊ')
    ||| (k == 'ヒ' && h == 'ﾋ')
    ||| (k == 'フ' && h == 'ﾌ')
    ||| (k == 'ヘ' && h == 'ﾍ')
    ||| (k == 'ホ' && h == 'ﾎ')
    ||| (k == 'マ' && h == 'ﾏ')
    ||| (k == 'ミ' && h == 'ﾐ')
    ||| (k == 'ム' && h == 'ﾑ')
    ||| (k == 'メ' && h == 'ﾒ')
    ||| (k == 'モ' && h == 'ﾓ')
    ||| (k == 'ヤ' && h == 'ﾔ')
    ||| (k == 'ユ' && h == 'ﾕ')
    ||| (k == 'ヨ' && h == 'ﾖ')
    ||| (k == 'ラ' && h == 'ﾗ')
    ||| (k == 'リ' && h == 'ﾘ')
    ||| (k == 'ル' && h == 'ﾙ')
    ||| (k == 'レ' && h == 'ﾚ')
    ||| (k == 'ロ' && h == 'ﾛ')
    ||| (k == 'ワ' && h == 'ﾜ')
    ||| (k == 'ン' && h == 'ﾝ')
}

/// Voiced katakana `k` written in half width as `h` followed by `ﾞ`.
pub open spec fn standard_voiced_pair(k: char, h: char) -> bool {
    ||| (k == 'ガ' && h == 'ｶ')
    ||| (k == 'ギ' && h == 'ｷ')
    ||| (k == 'グ' && h == 'ｸ')
    ||| (k == 'ゲ' && h == 'ｹ')
    ||| (k == 'ゴ' && h == 'ｺ')
    ||| (k == 'ザ' && h == 'ｻ')
    ||| (k == 'ジ' && h == 'ｼ')
    ||| (k == 'ズ' && h == 'ｽ')
    ||| (k == 'ゼ' && h == 'ｾ')
    ||| (k == 'ゾ' && h == 'ｿ')
    ||| (k == 'ダ' && h == 'ﾀ')
    ||| (k == 'ヂ' && h == 'ﾁ')
    ||| (k == 'ヅ' && h == 'ﾂ')
    ||| (k == 'デ' && h == 'ﾃ')
    ||| (k == 'ド' && h == 'ﾄ')
    ||| (k == 'バ' && h == 'ﾊ')
    ||| (k == 'ビ' && h == 'ﾋ')
    ||| (k == 'ブ' && h == 'ﾌ')
    ||| (k == 'ベ' && h == 'ﾍ')
    ||| (k == 'ボ' && h == 'ﾎ')
    ||| (k == 'ヴ' && h == 'ｳ')
}

/// Semi-voiced katakana `k` written in half width as `h` followed by `ﾟ`.
pub open spec fn standard_semi_voiced_pair(k: char, h: char) -> bool {
    ||| (k == 'パ' && h == 'ﾊ')
    ||| (k == 'ピ' && h == 'ﾋ')
    ||| (k == 'プ' && h == 'ﾌ')
    ||| (k == 'ペ' && h == 'ﾍ')
    ||| (k == 'ポ' && h == 'ﾎ')
}

/// F8 writes every character of the standard half-width table in its
/// half-width form, whether it is given in katakana or in hiragana.
pub proof fn law_half_width_table(k: char, h: char)
    requires
        standard_half_width_pair(k, h),
    ensures
        kana_form(KanaMode::HalfKatakana, seq![k]) == seq![h],
        0x30A1 <= k as u32 <= 0x30F6 ==> kana_form(KanaMode::HalfKatakana, seq![((k as u32 - 0x60) as u32) as char])
            == seq![h],
{
    lemma_half_text_single(k);
    if 0x30A1 <= k as u32 <= 0x30F6 {
        lemma_half_text_single(((k as u32 - 0x60) as u32) as char);
    }
}

/// F8 writes every voiced katakana, or its hiragana, as the half-width
/// unvoiced kana followed by `ﾞ`.
pub proof fn law_half_width_voiced(k: char, h: char)
    requires
        standard_voiced_pair(k, h),
    ensures
        kana_form(KanaMode::HalfKatakana, seq![k]) == seq![h, '\u{FF9E}'],
        kana_form(KanaMode::HalfKatakana, seq![((k as u32 - 0x60) as u32) as char]) == seq![h, '\u{FF9E}'],
{
    lemma_half_text_single(k);
    lemma_half_text_single(((k as u32 - 0x60) as u32) as char);
}

/// F8 writes every semi-voiced katakana, or its hiragana, as the half-width
/// unvoiced kana followed by `ﾟ`.
pub proof fn law_half_width_semi_voiced(k: char, h: char)
    requires
        standard_semi_voiced_pair(k, h),
    ensures
        kana_form(KanaMode::HalfKatakana, seq![k]) == seq![h, '\u{FF9F}'],
        kana_form(KanaMode::HalfKatakana, seq![((k as u32 - 0x60) as u32) as char]) == seq![h, '\u{FF9F}'],
{
    lemma_half_text_single(k);
    lemma_half_text_single(((k as u32 - 0x60) as u32) as char);
}

/// Katakana conversion moves every hiragana code point `U+3041..=U+3096`
/// up by `0x60` and keeps every other character; hiragana conversion moves
/// every katakana code point `U+30A1..=U+30F6` down by `0x60` and keeps every
/// other character.
pub proof fn law_kana_code_points(s: Seq<char>)
    ensures
        katakana_text(s).len() == s.len(),
        hiragana_text(s).len() == s.len(),
        forall|i: int|
            0 <= i < s.len() ==> (#[trigger] katakana_text(s)[i]) as int == if 0x3041 <= s[i] as u32 <= 0x3096 {
                s[i] as u32 + 0x60
            } else {
                s[i] as int
            },
        forall|i: int|
            0 <= i < s.len() ==> (#[trigger] hiragana_text(s)[i]) as int == if 0x30A1 <= s[i] as u32 <= 0x30F6 {
                s[i] as u32 - 0x60
            } else {
                s[i] as int
            },
{
}

/// F7 and F6 on a reading with no half-width characters: F7 moves every
/// hiragana code point up by `0x60`, F6 moves every katakana code point down
/// by `0x60`, and every other character stays.
pub proof fn law_kana_keys_code_points(r: Seq<char>)
    requires
        forall|i: int| 0 <= i < r.len() ==> !(0xFF61 <= (#[trigger] r[i]) as u32 <= 0xFF9F),
    ensures
        kana_form(KanaMode::Katakana, r).len() == r.len(),
        kana_form(KanaMode::Hiragana, r).len() == r.len(),
        forall|i: int|
            0 <= i < r.len() ==> (#[trigger] kana_form(KanaMode::Katakana, r)[i]) as int == if 0x3041 <= r[i] as u32
                <= 0x3096 {
                r[i] as u32 + 0x60
            } else {
                r[i] as int
            },
        forall|i: int|
            0 <= i < r.len() ==> (#[trigger] kana_form(KanaMode::Hiragana, r)[i]) as int == if 0x30A1 <= r[i] as u32
                <= 0x30F6 {
                r[i] as u32 - 0x60
            } else {
                r[i] as int
            },
{
    assert(no_half_width(r)) by {
        assert forall|i: int| 0 <= i < r.len() implies full_base(#[trigger] r[i]) is None by {
            assert(!(0xFF61 <= r[i] as u32 <= 0xFF9F));
        }
    }
    lemma_full_width_identity(r);
    law_kana_code_points(r);
}

/// Romaji syllables of a voiced consonant (g, z, d, b) are the kana one code
/// point after those of the unvoiced one (k, s, t, h), and those of p two
/// code points after those of h; each is one kana with nothing left pending.
pub proof fn law_voiced_syllables(v: char)
    requires
        v == 'a' || v == 'i' || v == 'u' || v == 'e' || v == 'o',
    ensures
        feed(Some('k'), v).0.len() == 1 && feed(Some('g'), v).0.len() == 1,
        feed(Some('s'), v).0.len() == 1 && feed(Some('z'), v).0.len() == 1,
        feed(Some('t'), v).0.len() == 1 && feed(Some('d'), v).0.len() == 1,
        feed(Some('h'), v).0.len() == 1 && feed(Some('b'), v).0.len() == 1 && feed(Some('p'), v).0.len() == 1,
        feed(Some('g'), v).1 is None && feed(Some('z'), v).1 is None && feed(Some('d'), v).1 is None,
        feed(Some('b'), v).1 is None && feed(Some('p'), v).1 is None,
        feed(Some('g'), v).0[0] as u32 == feed(Some('k'), v).0[0] as u32 + 1,
        feed(Some('z'), v).0[0] as u32 == feed(Some('s'), v).0[0] as u32 + 1,
        feed(Some('d'), v).0[0] as u32 == feed(Some('t'), v).0[0] as u32 + 1,
        feed(Some('b'), v).0[0] as u32 == feed(Some('h'), v).0[0] as u32 + 1,
        feed(Some('p'), v).0[0] as u32 == feed(Some('h'), v).0[0] as u32 + 2,
{
}

/// The gojūon table of romaji input: a vowel alone, or one of the unvoiced
/// consonants k s t n h m y r w followed by a vowel, gives its hiragana and
/// leaves nothing pending; `nn` gives ん, and a doubled consonant gives っ
/// and stays pending.
pub proof fn law_romaji_gojuon()
    ensures
        feed(None, 'a') == (seq!['あ'], None::<char>),
        feed(None, 'i') == (seq!['い'], None::<char>),
        feed(None, 'u') == (seq!['う'], None::<char>),
        feed(None, 'e') == (seq!['え'], None::<char>),
        feed(None, 'o') == (seq!['お'], None::<char>),
        feed(Some('k'), 'a') == (seq!['か'], None::<char>),
        feed(Some('k'), 'i') == (seq!['き'], None::<char>),
        feed(Some('k'), 'u') == (seq!['く'], None::<char>),
        feed(Some('k'), 'e') == (seq!['け'], None::<char>),
        feed(Some('k'), 'o') == (seq!['こ'], None::<char>),
        feed(Some('s'), 'a') == (seq!['さ'], None::<char>),
        feed(Some('s'), 'i') == (seq!['し'], None::<char>),
        feed(Some('s'), 'u') == (seq!['す'], None::<char>),
        feed(Some('s'), 'e') == (seq!['せ'], None::<char>),
        feed(Some('s'), 'o') == (seq!['そ'], None::<char>),
        feed(Some('t'), 'a') == (seq!['た'], None::<char>),
        feed(Some('t'), 'i') == (seq!['ち'], None::<char>),
        feed(Some('t'), 'u') == (seq!['つ'], None::<char>),
        feed(Some('t'), 'e') == (seq!['て'], None::<char>),
        feed(Some('t'), 'o') == (seq!['と'], None::<char>),
        feed(Some('n'), 'a') == (seq!['な'], None::<char>),
        feed(Some('n'), 'i') == (seq!['に'], None::<char>),
        feed(Some('n'), 'u') == (seq!['ぬ'], None::<char>),
        feed(Some('n'), 'e') == (seq!['ね'], None::<char>),
        feed(Some('n'), 'o') == (seq!['の'], None::<char>),
        feed(Some('h'), 'a') == (seq!['は'], None::<char>),
        feed(Some('h'), 'i') == (seq!['ひ'], None::<char>),
        feed(Some('h'), 'u') == (seq!['ふ'], None::<char>),
        feed(Some('h'), 'e') == (seq!['へ'], None::<char>),
        feed(Some('h'), 'o') == (seq!['ほ'], None::<char>),
        feed(Some('m'), 'a') == (seq!['ま'], None::<char>),
        feed(Some('m'), 'i') == (seq!['み'], None::<char>),
        feed(Some('m'), 'u') == (seq!['む'], None::<char>),
        feed(Some('m'), 'e') == (seq!['め'], None::<char>),
        feed(Some('m'), 'o') == (seq!['も'], None::<char>),
        feed(Some('y'), 'a') == (seq!['や'], None::<char>),
        feed(Some('y'), 'u') == (seq!['ゆ'], None::<char>),
        feed(Some('y'), 'o') == (seq!['よ'], None::<char>),
        feed(Some('r'), 'a') == (seq!['ら'], None::<char>),
        feed(Some('r'), 'i') == (seq!['り'], None::<char>),
        feed(Some('r'), 'u') == (seq!['る'], None::<char>),
        feed(Some('r'), 'e') == (seq!['れ'], None::<char>),
        feed(Some('r'), 'o') == (seq!['ろ'], None::<char>),
        feed(Some('w'), 'a') == (seq!['わ'], None::<char>),
        feed(Some('w'), 'o') == (seq!['を'], None::<char>),
        feed(Some('n'), 'n') == (seq!['ん'], None::<char>),
        feed(Some('k'), 'k') == (seq!['っ'], Some('k')),
        feed(Some('t'), 't') == (seq!['っ'], Some('t')),
{
}

/// In conversion, a key that types a character first commits exactly the
/// selected candidate, as Enter does, and then composes anew.
pub proof fn law_typed_char_commits_selected(
    s: EngineView,
    preedit: Seq<char>,
    list: CandidateListView,
    key: KeyEvent,
    enter: KeyEvent,
)
    requires
        0 <= list.cursor < list.texts.len(),
        s.state == (StateView::Conversion { preedit, list }),
        key.is_press,
        typed_char(key) is Some,
        enter.is_press,
        sym(enter) == keysym::RETURN,
    ensures
        step(s, key).1.actions[0] == ActionView::Commit(list.texts[list.cursor]),
        step(s, enter).1.actions[0] == ActionView::Commit(list.texts[list.cursor]),
        step(s, key).0.state is Composing,
        step(s, enter).0.state == StateView::Empty,
{
    assert(!is_debug_toggle(key));
    assert(!is_live_toggle(key));
    assert(mode_of_key(key) is None);
    assert(mode_of_key(enter) is None);
    assert(typed_char(enter) is None);
}

/// A kana conversion key on a non-empty reading first ends the pending
/// romaji (a lone `n` as ん, any other consonant as itself), then converts:
/// nothing stays pending and the preedit shows the converted reading.
pub proof fn law_kana_key_ends_pending_romaji(s: EngineView, key: KeyEvent, mode: KanaMode)
    requires
        key.is_press,
        mode_of_key(key) == Some(mode),
        s.input.len() > 0 || s.pending is Some,
    ensures
        step(s, key).0.pending is None,
        s.pending is None ==> step(s, key).0.input == kana_form(mode, s.input),
        s.pending == Some('n') ==> step(s, key).0.input == kana_form(mode, s.input.push('ん')),
        (s.pending is Some && s.pending->0 != 'n') ==> step(s, key).0.input == kana_form(
            mode,
            s.input.push(s.pending->0),
        ),
        step(s, key).0.state == (StateView::Composing { preedit: step(s, key).0.input }),
        step(s, key).0.frozen,
{
    assert(!is_debug_toggle(key));
    assert(!is_live_toggle(key));
    assert(composed(s).len() > 0);
    if s.pending is None {
        assert(composed(s) == s.input);
    } else {
        assert(composed(s) == s.input.push(if s.pending->0 == 'n' { 'ん' } else { s.pending->0 }));
    }
    let t = step(s, key).0;
    assert(t.input + Seq::<char>::empty() == t.input);
}

/// In conversion, Tab (or Space, or Down) selects the next candidate,
/// wrapping from the last to the first, and shows it; Shift+Tab (or Up)
/// selects the previous one, wrapping from the first to the last.
pub proof fn law_candidate_navigation(
    s: EngineView,
    preedit: Seq<char>,
    list: CandidateListView,
    tab: KeyEvent,
    shift_tab: KeyEvent,
)
    requires
        0 <= list.cursor < list.texts.len(),
        s.state == (StateView::Conversion { preedit, list }),
        tab.is_press,
        sym(tab) == keysym::TAB,
        !tab.modifiers.shift,
        shift_tab.is_press,
        sym(shift_tab) == keysym::TAB,
        shift_tab.modifiers.shift,
    ensures
        ({
            let next = if list.cursor + 1 < list.texts.len() {
                list.cursor + 1
            } else {
                0
            };
            step(s, tab).0.state == (StateView::Conversion {
                preedit: list.texts[next],
                list: CandidateListView { texts: list.texts, cursor: next },
            })
        }),
        ({
            let prev = if list.cursor == 0 {
                list.texts.len() - 1
            } else {
                list.cursor - 1
            };
            step(s, shift_tab).0.state == (StateView::Conversion {
                preedit: list.texts[prev],
                list: CandidateListView { texts: list.texts, cursor: prev },
            })
        }),
        step(s, tab).1.actions[0] == ActionView::UpdatePreedit(step(s, tab).0.state->Conversion_preedit),
{
    assert(mode_of_key(tab) is None);
    assert(mode_of_key(shift_tab) is None);
    assert(typed_char(tab) is None);
    assert(typed_char(shift_tab) is None);
}

/// Enter while composing commits the reading with the pending romaji ended
/// (a lone `n` as ん, any other consonant as itself) and empties the engine.
pub proof fn law_enter_commits_reading(s: EngineView, enter: KeyEvent)
    requires
        s.state is Composing,
        enter.is_press,
        sym(enter) == keysym::RETURN,
        s.input.len() > 0 || s.pending is Some,
    ensures
        s.pending is None ==> step(s, enter).1.actions[0] == ActionView::Commit(s.input),
        s.pending == Some('n') ==> step(s, enter).1.actions[0] == ActionView::Commit(s.input.push('ん')),
        (s.pending is Some && s.pending->0 != 'n') ==> step(s, enter).1.actions[0] == ActionView::Commit(
            s.input.push(s.pending->0),
        ),
        step(s, enter).0.state == StateView::Empty,
        step(s, enter).0.input.len() == 0,
        step(s, enter).0.pending is None,
{
    assert(mode_of_key(enter) is None);
    assert(typed_char(enter) is None);
    if s.pending is None {
        assert(composed(s) == s.input);
    } else {
        assert(composed(s) == s.input.push(if s.pending->0 == 'n' { 'ん' } else { s.pending->0 }));
    }
}

/// Ctrl+Shift+L announces the new live conversion setting: "ライブ変換: ON"
/// when it turns live conversion on, "ライブ変換: OFF" when it turns it off.
pub proof fn law_live_toggle_message(s: EngineView, key: KeyEvent)
    requires
        key.is_press,
        is_live_toggle(key),
    ensures
        !s.live_enabled ==> step(s, key).1.actions == seq![ActionView::UpdateAuxText("ライブ変換: "@ + "ON"@)],
        s.live_enabled ==> step(s, key).1.actions == seq![ActionView::UpdateAuxText("ライブ変換: "@ + "OFF"@)],
{
    assert(!is_debug_toggle(key));
}

} // verus!
