//! The input method engine: its state, the actions it asks the host to
//! perform, and the handling of one key event at a time.

use vstd::prelude::*;

use crate::candidate::{Candidate, CandidateList, CandidateListView, next_cursor, prev_cursor, texts_of};
use crate::kana::{
    full_width_text, half_katakana_text, half_width_to_full_width_katakana, hiragana_text,
    hiragana_to_half_katakana, hiragana_to_katakana, katakana_text, katakana_to_hiragana,
};
use crate::romaji::{RomajiConverter, flushed, feed};
use crate::keycode::KeyEvent;
use crate::keysym;
use crate::text::{chars_of, decimal, push_decimal, push_str, string_of};
use vstd::string::*;

verus! {

/// Text shown, not yet committed, at the insertion point.
pub struct Preedit {
    pub text: String,
}

impl View for Preedit {
    type V = Seq<char>;

    open spec fn view(&self) -> Seq<char> {
        self.text@
    }
}

impl Preedit {
    /// A preedit showing `text`.
    pub fn new(text: String) -> (r: Self)
        ensures
            r@ == text@,
    {
        Preedit { text }
    }

    /// The text shown.
    pub fn text(&self) -> (r: &str)
        ensures
            r@ == self@,
    {
        self.text.as_str()
    }
}

/// A request from the engine to its host.
pub enum EngineAction {
    /// Insert this text into the application.
    Commit(String),
    /// Show this preedit.
    UpdatePreedit(Preedit),
    /// Show this text in the auxiliary line.
    UpdateAuxText(String),
}

/// What an action asks for, as text.
#[verifier::ext_equal]
pub ghost enum ActionView {
    Commit(Seq<char>),
    UpdatePreedit(Seq<char>),
    UpdateAuxText(Seq<char>),
}

impl View for EngineAction {
    type V = ActionView;

    open spec fn view(&self) -> ActionView {
        match self {
            EngineAction::Commit(t) => ActionView::Commit(t@),
            EngineAction::UpdatePreedit(p) => ActionView::UpdatePreedit(p@),
            EngineAction::UpdateAuxText(t) => ActionView::UpdateAuxText(t@),
        }
    }
}

/// The views of a sequence of actions.
pub open spec fn actions_view(actions: Seq<EngineAction>) -> Seq<ActionView> {
    actions.map_values(|a: EngineAction| a@)
}

/// The answer to one key event: whether the engine took the key, and the
/// actions for the host, in order.
pub struct EngineResult {
    pub consumed: bool,
    pub actions: Vec<EngineAction>,
}

/// What a result holds, as views.
#[verifier::ext_equal]
pub ghost struct ResultView {
    pub consumed: bool,
    pub actions: Seq<ActionView>,
}

impl View for EngineResult {
    type V = ResultView;

    open spec fn view(&self) -> ResultView {
        ResultView { consumed: self.consumed, actions: actions_view(self.actions@) }
    }
}

impl EngineResult {
    /// The key was taken, and nothing is to be done.
    pub fn consumed() -> (r: Self)
        ensures
            r@ == (ResultView { consumed: true, actions: Seq::empty() }),
    {
        let r = EngineResult { consumed: true, actions: Vec::new() };
        assert(actions_view(r.actions@) == Seq::<ActionView>::empty());
        r
    }

    /// The key was not taken: the host should handle it.
    pub fn not_consumed() -> (r: Self)
        ensures
            r@ == (ResultView { consumed: false, actions: Seq::empty() }),
    {
        let r = EngineResult { consumed: false, actions: Vec::new() };
        assert(actions_view(r.actions@) == Seq::<ActionView>::empty());
        r
    }

    /// This result with `action` appended.
    pub fn with_action(self, action: EngineAction) -> (r: Self)
        ensures
            r@ == (ResultView { consumed: self@.consumed, actions: self@.actions.push(action@) }),
    {
        let mut r = self;
        let ghost a = action@;
        r.actions.push(action);
        assert(actions_view(r.actions@) == actions_view(self.actions@).push(a));
        r
    }

    /// This result followed by the actions of `later`.
    pub fn followed_by(self, later: EngineResult) -> (r: Self)
        ensures
            r@ == (ResultView {
                consumed: self@.consumed || later@.consumed,
                actions: self@.actions + later@.actions,
            }),
    {
        let mut r = self;
        let mut rest = later.actions;
        let ghost first = actions_view(r.actions@);
        let ghost second = actions_view(rest@);
        r.actions.append(&mut rest);
        assert(actions_view(r.actions@) == first + second);
        r.consumed = r.consumed || later.consumed;
        r
    }
}

/// Where the engine is in composing text.
pub enum InputState {
    /// Nothing is being composed.
    Empty,
    /// A reading is being typed.
    Composing { preedit: Preedit },
    /// A candidate for the reading is being chosen.
    Conversion { preedit: Preedit, candidates: CandidateList },
}

/// The state, as views.
#[verifier::ext_equal]
pub ghost enum StateView {
    Empty,
    Composing { preedit: Seq<char> },
    Conversion { preedit: Seq<char>, list: CandidateListView },
}

impl View for InputState {
    type V = StateView;

    open spec fn view(&self) -> StateView {
        match self {
            InputState::Empty => StateView::Empty,
            InputState::Composing { preedit } => StateView::Composing { preedit: preedit@ },
            InputState::Conversion { preedit, candidates } => StateView::Conversion {
                preedit: preedit@,
                list: candidates@,
            },
        }
    }
}

impl InputState {
    /// The candidates being chosen from, in the conversion state.
    pub fn candidates(&self) -> (r: Option<&CandidateList>)
        ensures
            self@ matches StateView::Conversion { list, .. } ==> (r matches Some(l) && l@ == list),
            !(self@ is Conversion) ==> r is None,
    {
        match self {
            InputState::Conversion { candidates, .. } => Some(candidates),
            _ => None,
        }
    }
}

/// The reading typed so far, in kana (romaji still pending is not in it).
pub struct InputBuffer {
    pub text: String,
}

/// The converters the engine reads input with.
pub struct Converters {
    pub romaji: RomajiConverter,
}

/// Live conversion: while on, the preedit shows the conversion of the
/// reading as it is typed.
pub struct LiveConversion {
    /// Whether live conversion is on.
    pub enabled: bool,
    /// The current live conversion of the reading; empty when there is none.
    pub text: String,
    /// Set after an explicit kana conversion (F6, F7, F8): the reading is
    /// shown as converted and the next typed character commits it first.
    pub frozen: bool,
}

/// A Japanese input method engine, driven one key event at a time.
pub struct InputMethodEngine {
    pub state: InputState,
    pub input_buf: InputBuffer,
    pub converters: Converters,
    pub live: LiveConversion,
    /// Whether the auxiliary line carries debug information.
    pub show_debug_info: bool,
    /// How long the last candidate search took, in milliseconds, as timed by
    /// the host; shown in the debug information.
    pub last_conversion_ms: u64,
}

/// The engine's state as mathematical values.
#[verifier::ext_equal]
pub ghost struct EngineView {
    pub state: StateView,
    pub input: Seq<char>,
    pub pending: Option<char>,
    pub live_enabled: bool,
    pub live_text: Seq<char>,
    pub frozen: bool,
    pub debug: bool,
    pub conversion_ms: u64,
}

impl View for InputMethodEngine {
    type V = EngineView;

    open spec fn view(&self) -> EngineView {
        EngineView {
            state: self.state@,
            input: self.input_buf.text@,
            pending: self.converters.romaji@,
            live_enabled: self.live.enabled,
            live_text: self.live.text@,
            frozen: self.live.frozen,
            debug: self.show_debug_info,
            conversion_ms: self.last_conversion_ms,
        }
    }
}

// ---------------------------------------------------------------------------
// The model: what each key does to the engine, over views.
// ---------------------------------------------------------------------------

/// The romaji still pending, as it is displayed.
pub open spec fn pending_text(pending: Option<char>) -> Seq<char> {
    match pending {
        None => Seq::empty(),
        Some(c) => seq![c],
    }
}

/// The reading with the pending romaji ended.
pub open spec fn composed(s: EngineView) -> Seq<char> {
    s.input + flushed(s.pending)
}

/// The preedit while composing: the live conversion where there is one,
/// else the reading, followed by the pending romaji.
pub open spec fn composing_preedit(s: EngineView) -> Seq<char> {
    (if s.live_text.len() > 0 {
        s.live_text
    } else {
        s.input
    }) + pending_text(s.pending)
}

/// The label of the debug information: the engine converts with kana rules
/// only, without a neural kana-kanji model.
pub open spec fn debug_label() -> Seq<char> {
    "Karukan (kana-only)"@
}

/// The auxiliary text while composing.
pub open spec fn aux_composing(s: EngineView) -> Seq<char> {
    if s.debug {
        debug_label()
    } else {
        Seq::empty()
    }
}

/// The page part of the auxiliary text in conversion: `[k/n]` for the
/// `k`-th of `n` candidates.
pub open spec fn page_text(list: Option<CandidateListView>) -> Seq<char> {
    match list {
        None => Seq::empty(),
        Some(l) => " ["@ + decimal((l.cursor + 1) as nat) + "/"@ + decimal(l.texts.len()) + "]"@,
    }
}

/// The debug part of the auxiliary text in conversion: the converter, the
/// time of the last candidate search and the number of candidates.
pub open spec fn conversion_debug_text(s: EngineView, list: Option<CandidateListView>) -> Seq<char> {
    if s.debug {
        " "@ + debug_label() + " "@ + decimal(s.conversion_ms as nat) + "ms/"@ + decimal(
            match list {
                None => 0nat,
                Some(l) => l.texts.len(),
            },
        ) + " candidates"@
    } else {
        Seq::empty()
    }
}

/// The auxiliary text in conversion: the reading, the page and, when on,
/// the debug information.
pub open spec fn aux_conversion(s: EngineView, reading: Seq<char>, list: Option<CandidateListView>) -> Seq<char> {
    reading + page_text(list) + conversion_debug_text(s, list)
}

/// The auxiliary text for the engine's current state.
pub open spec fn current_aux(s: EngineView) -> Seq<char> {
    match s.state {
        StateView::Empty => Seq::empty(),
        StateView::Composing { .. } => aux_composing(s),
        StateView::Conversion { list, .. } => aux_conversion(s, s.input, Some(list)),
    }
}

/// The result that takes the key and asks for `actions`.
pub open spec fn taken(actions: Seq<ActionView>) -> ResultView {
    ResultView { consumed: true, actions }
}

/// The actions that clear the preedit and the auxiliary line.
pub open spec fn clearing_actions() -> Seq<ActionView> {
    seq![ActionView::UpdatePreedit(Seq::empty()), ActionView::UpdateAuxText(Seq::empty())]
}

/// `s` with nothing composed: the state is empty, the reading, pending romaji
/// and live conversion are cleared. The settings stay.
pub open spec fn cleared(s: EngineView) -> EngineView {
    EngineView {
        state: StateView::Empty,
        input: Seq::empty(),
        pending: None,
        live_text: Seq::empty(),
        frozen: false,
        ..s
    }
}

/// The live conversion of a reading of at least two characters. With kana
/// rules only, the best conversion of a reading is the reading itself.
pub open spec fn live_conversion(reading: Seq<char>) -> Seq<char> {
    if reading.len() >= 2 {
        reading
    } else {
        Seq::empty()
    }
}

/// `s` with the live conversion brought up to date with the reading, where
/// live conversion is on and not frozen.
pub open spec fn live_refreshed(s: EngineView) -> EngineView {
    if s.live_enabled && !s.frozen {
        EngineView { live_text: live_conversion(s.input), ..s }
    } else {
        s
    }
}

/// `s` in the composing state, showing its preedit and auxiliary text.
pub open spec fn show_composing(s: EngineView) -> (EngineView, ResultView) {
    let t = EngineView { state: StateView::Composing { preedit: composing_preedit(s) }, ..s };
    (t, taken(seq![ActionView::UpdatePreedit(composing_preedit(s)), ActionView::UpdateAuxText(aux_composing(t))]))
}

/// Typing the character `c` while composing.
pub open spec fn type_char(s: EngineView, c: char) -> (EngineView, ResultView) {
    let (out, pending) = feed(s.pending, c);
    show_composing(live_refreshed(EngineView { input: s.input + out, pending, ..s }))
}

/// Committing the reading: the pending romaji is ended and the reading, if
/// any, is committed; the engine is cleared.
pub open spec fn commit_reading(s: EngineView) -> (EngineView, ResultView) {
    let r = composed(s);
    (cleared(s), taken((if r.len() > 0 { seq![ActionView::Commit(r)] } else { Seq::empty() }) + clearing_actions()))
}

/// `acc` with `x` appended unless it is already there.
pub open spec fn push_new(acc: Seq<Seq<char>>, x: Seq<char>) -> Seq<Seq<char>> {
    if acc.contains(x) {
        acc
    } else {
        acc.push(x)
    }
}

/// The candidates for a reading, without repeats: the reading itself, then
/// its hiragana, katakana and half-width katakana forms.
pub open spec fn candidates_for(reading: Seq<char>) -> Seq<Seq<char>> {
    let full = full_width_text(reading);
    push_new(
        push_new(push_new(seq![reading], hiragana_text(full)), katakana_text(full)),
        half_katakana_text(reading),
    )
}

/// Starting conversion: the pending romaji is ended and the candidates for
/// the reading are offered, the first one selected. With no reading the
/// engine is cleared.
pub open spec fn start_conversion(s: EngineView) -> (EngineView, ResultView) {
    let r = composed(s);
    if r.len() == 0 {
        (cleared(s), taken(clearing_actions()))
    } else {
        let list = CandidateListView { texts: candidates_for(r), cursor: 0 };
        let t = EngineView {
            state: StateView::Conversion { preedit: list.texts[0], list },
            input: r,
            pending: None,
            live_text: Seq::empty(),
            ..s
        };
        (t, taken(seq![ActionView::UpdatePreedit(list.texts[0]), ActionView::UpdateAuxText(aux_conversion(t, r, Some(list)))]))
    }
}

/// Selecting the candidate at `cursor` of `list`.
pub open spec fn select_candidate(s: EngineView, list: CandidateListView, cursor: int) -> (EngineView, ResultView) {
    let l = CandidateListView { texts: list.texts, cursor };
    let t = EngineView { state: StateView::Conversion { preedit: l.texts[cursor], list: l }, ..s };
    (t, taken(seq![ActionView::UpdatePreedit(l.texts[cursor]), ActionView::UpdateAuxText(aux_conversion(t, s.input, Some(l)))]))
}

/// Committing the selected candidate; the engine is cleared.
pub open spec fn commit_selection(s: EngineView, list: CandidateListView) -> (EngineView, ResultView) {
    (cleared(s), taken(seq![ActionView::Commit(list.texts[list.cursor])] + clearing_actions()))
}

/// Leaving conversion for composing the same reading.
pub open spec fn cancel_conversion(s: EngineView) -> (EngineView, ResultView) {
    show_composing(live_refreshed(s))
}

/// Deleting the last pending romaji letter, else the last character of the
/// reading; with nothing left the engine is cleared.
pub open spec fn backspace(s: EngineView) -> (EngineView, ResultView) {
    let t = match s.pending {
        Some(_) => EngineView { pending: None, ..s },
        None => if s.input.len() > 0 {
            EngineView { input: s.input.drop_last(), ..s }
        } else {
            s
        },
    };
    if t.input.len() == 0 && t.pending is None {
        (cleared(t), taken(clearing_actions()))
    } else {
        show_composing(live_refreshed(t))
    }
}

/// Switching the debug information on or off.
pub open spec fn toggle_debug(s: EngineView) -> (EngineView, ResultView) {
    let t = EngineView { debug: !s.debug, ..s };
    (t, taken(seq![ActionView::UpdateAuxText(current_aux(t))]))
}

/// The message announcing the live conversion setting.
pub open spec fn live_message(on: bool) -> Seq<char> {
    "ライブ変換: "@ + (if on {
        "ON"@
    } else {
        "OFF"@
    })
}

/// Switching live conversion on or off.
pub open spec fn toggle_live(s: EngineView) -> (EngineView, ResultView) {
    let t = EngineView { live_enabled: !s.live_enabled, ..s };
    (t, taken(seq![ActionView::UpdateAuxText(live_message(t.live_enabled))]))
}

/// The kana forms a reading can be converted to in one step.
#[derive(Clone, Copy, PartialEq, Eq, Debug)]
pub enum KanaMode {
    Hiragana,
    Katakana,
    HalfKatakana,
}

/// A reading converted to the given kana form.
pub open spec fn kana_form(mode: KanaMode, r: Seq<char>) -> Seq<char> {
    match mode {
        KanaMode::Hiragana => hiragana_text(full_width_text(r)),
        KanaMode::Katakana => katakana_text(full_width_text(r)),
        KanaMode::HalfKatakana => half_katakana_text(r),
    }
}

/// Converting the reading to a kana form: the pending romaji is ended; with
/// no reading nothing else happens; otherwise the reading is replaced by its
/// converted form, the live conversion is dropped and frozen, and the engine
/// composes.
pub open spec fn convert_reading(s: EngineView, mode: KanaMode) -> (EngineView, ResultView) {
    let r = composed(s);
    let s1 = EngineView { input: r, pending: None, ..s };
    if r.len() == 0 {
        (s1, taken(Seq::empty()))
    } else {
        let s2 = EngineView { input: kana_form(mode, r), live_text: Seq::empty(), frozen: true, ..s1 };
        show_composing(s2)
    }
}

/// The keysym of a key event.
pub open spec fn sym(k: KeyEvent) -> u32 {
    k.keysym.0
}

/// The kana conversion a key asks for: F6 or Ctrl+U for hiragana, F7 or
/// Ctrl+I or Ctrl+K for katakana, F8 or Ctrl+O for half-width katakana.
pub open spec fn mode_of_key(k: KeyEvent) -> Option<KanaMode> {
    let ctrl_only = k.modifiers.control && !k.modifiers.shift && !k.modifiers.alt;
    if sym(k) == keysym::F6 || (ctrl_only && sym(k) == keysym::KEY_U) {
        Some(KanaMode::Hiragana)
    } else if sym(k) == keysym::F7 || (ctrl_only && (sym(k) == keysym::KEY_I || sym(k) == keysym::KEY_K)) {
        Some(KanaMode::Katakana)
    } else if sym(k) == keysym::F8 || (ctrl_only && sym(k) == keysym::KEY_O) {
        Some(KanaMode::HalfKatakana)
    } else {
        None
    }
}

/// The printable ASCII character a key types, other than space, when
/// neither Control nor Alt is held.
pub open spec fn typed_char(k: KeyEvent) -> Option<char> {
    if !k.modifiers.control && !k.modifiers.alt && 0x21 <= sym(k) && sym(k) <= 0x7E {
        Some((sym(k) as u8) as char)
    } else {
        None
    }
}

/// Whether the key is Ctrl+Shift+D.
pub open spec fn is_debug_toggle(k: KeyEvent) -> bool {
    k.modifiers.control && k.modifiers.shift && (sym(k) == keysym::KEY_D || sym(k) == keysym::KEY_D_UPPER)
}

/// Whether the key is Ctrl+Shift+L.
pub open spec fn is_live_toggle(k: KeyEvent) -> bool {
    k.modifiers.control && k.modifiers.shift && (sym(k) == keysym::KEY_L || sym(k) == keysym::KEY_L_UPPER)
}

/// Whether the key is a plain press (no Control or Alt) of `code`.
pub open spec fn is_plain(k: KeyEvent, code: u32) -> bool {
    !k.modifiers.control && !k.modifiers.alt && sym(k) == code
}

/// A key while nothing is composed: a typed character starts a reading.
pub open spec fn empty_key(s: EngineView, k: KeyEvent) -> (EngineView, ResultView) {
    match typed_char(k) {
        Some(c) => type_char(cleared(s), c),
        None => (s, ResultView { consumed: false, actions: Seq::empty() }),
    }
}

/// A key while composing.
pub open spec fn composing_key(s: EngineView, k: KeyEvent) -> (EngineView, ResultView) {
    match typed_char(k) {
        Some(c) => if s.frozen {
            let (t1, r1) = commit_reading(s);
            let (t2, r2) = type_char(t1, c);
            (t2, taken(r1.actions + r2.actions))
        } else {
            type_char(s, c)
        },
        None => if is_plain(k, keysym::SPACE) || is_plain(k, keysym::TAB) {
            start_conversion(s)
        } else if sym(k) == keysym::RETURN {
            commit_reading(s)
        } else if sym(k) == keysym::ESCAPE {
            (cleared(s), taken(clearing_actions()))
        } else if sym(k) == keysym::BACKSPACE {
            backspace(s)
        } else {
            (s, taken(Seq::empty()))
        },
    }
}

/// A key while choosing a candidate from `list`. Ctrl+Delete, which
/// removes a learned candidate where there is learning history, is not taken:
/// no candidate here comes from such a history.
pub open spec fn conversion_key(s: EngineView, list: CandidateListView, k: KeyEvent) -> (EngineView, ResultView) {
    match typed_char(k) {
        Some(c) => {
            let (t1, r1) = commit_selection(s, list);
            let (t2, r2) = type_char(t1, c);
            (t2, taken(r1.actions + r2.actions))
        },
        None => if is_plain(k, keysym::SPACE) || (sym(k) == keysym::TAB && !k.modifiers.shift) || sym(k)
            == keysym::DOWN {
            select_candidate(s, list, next_cursor(list.cursor, list.texts.len() as int))
        } else if (sym(k) == keysym::TAB && k.modifiers.shift) || sym(k) == keysym::UP {
            select_candidate(s, list, prev_cursor(list.cursor, list.texts.len() as int))
        } else if sym(k) == keysym::RETURN {
            commit_selection(s, list)
        } else if sym(k) == keysym::ESCAPE || sym(k) == keysym::BACKSPACE {
            cancel_conversion(s)
        } else if sym(k) == keysym::DELETE && k.modifiers.control {
            (s, ResultView { consumed: false, actions: Seq::empty() })
        } else {
            (s, taken(Seq::empty()))
        },
    }
}

/// What one key event does to the engine, and the result it answers with.
pub open spec fn step(s: EngineView, k: KeyEvent) -> (EngineView, ResultView) {
    if !k.is_press {
        (s, ResultView { consumed: false, actions: Seq::empty() })
    } else if is_debug_toggle(k) {
        toggle_debug(s)
    } else if is_live_toggle(k) {
        toggle_live(s)
    } else if let Some(mode) = mode_of_key(k) {
        convert_reading(s, mode)
    } else {
        match s.state {
            StateView::Empty => empty_key(s, k),
            StateView::Composing { .. } => composing_key(s, k),
            StateView::Conversion { list, .. } => conversion_key(s, list, k),
        }
    }
}

// ---------------------------------------------------------------------------
// The engine.
// ---------------------------------------------------------------------------

/// The kana conversion a key asks for.
fn key_mode(key: &KeyEvent) -> (r: Option<KanaMode>)
    ensures
        r == mode_of_key(*key),
{
    let sym = key.keysym.0;
    let ctrl_only = key.modifiers.control && !key.modifiers.shift && !key.modifiers.alt;
    if sym == keysym::F6 || (ctrl_only && sym == keysym::KEY_U) {
        Some(KanaMode::Hiragana)
    } else if sym == keysym::F7 || (ctrl_only && (sym == keysym::KEY_I || sym == keysym::KEY_K)) {
        Some(KanaMode::Katakana)
    } else if sym == keysym::F8 || (ctrl_only && sym == keysym::KEY_O) {
        Some(KanaMode::HalfKatakana)
    } else {
        None
    }
}

/// The character a key types, if it types one.
fn key_char(key: &KeyEvent) -> (r: Option<char>)
    ensures
        r == typed_char(*key),
{
    let sym = key.keysym.0;
    if !key.modifiers.control && !key.modifiers.alt && 0x21 <= sym && sym <= 0x7E {
        Some((sym as u8) as char)
    } else {
        None
    }
}

/// Appends `text` as a candidate unless a candidate with the same text is
/// already there.
fn push_new_candidate(list: &mut Vec<Candidate>, text: String)
    ensures
        texts_of(final(list)@) == push_new(texts_of(old(list)@), text@),
        final(list)@.len() >= old(list)@.len(),
{
    let n = list.len();
    let mut found = false;
    for i in 0..n
        invariant
            n == list@.len(),
            found <==> exists|j: int| 0 <= j < i && texts_of(list@)[j] == text@,
    {
        assert(texts_of(list@)[i as int] == list@[i as int]@);
        if list[i].text == text {
            found = true;
        }
        assert(found <==> exists|j: int| 0 <= j < i + 1 && texts_of(list@)[j] == text@) by {
            if exists|j: int| 0 <= j < i + 1 && texts_of(list@)[j] == text@ {
                let j = choose|j: int| 0 <= j < i + 1 && texts_of(list@)[j] == text@;
                if j < i {
                    assert(exists|j: int| 0 <= j < i && texts_of(list@)[j] == text@);
                }
            }
        }
    }
    proof {
        if found {
            let j = choose|j: int| 0 <= j < n && texts_of(list@)[j] == text@;
            assert(texts_of(list@).contains(text@));
        } else {
            assert(!texts_of(list@).contains(text@));
        }
    }
    if !found {
        let ghost before = list@;
        list.push(Candidate { text });
        assert(texts_of(list@) == texts_of(before).push(text@));
    }
}

/// The candidates for a reading, without repeats: the reading itself, then
/// its hiragana, katakana and half-width katakana forms.
pub fn build_candidates(reading: &str) -> (r: Vec<Candidate>)
    ensures
        texts_of(r@) == candidates_for(reading@),
        r@.len() > 0,
{
    let full = half_width_to_full_width_katakana(reading);
    let mut list: Vec<Candidate> = Vec::new();
    list.push(Candidate { text: String::from_str(reading) });
    assert(texts_of(list@) == seq![reading@]);
    push_new_candidate(&mut list, katakana_to_hiragana(full.as_str()));
    push_new_candidate(&mut list, hiragana_to_katakana(full.as_str()));
    push_new_candidate(&mut list, hiragana_to_half_katakana(reading));
    list
}

impl InputMethodEngine {
    /// An engine with nothing composed, live conversion and debug
    /// information off.
    pub fn new() -> (r: Self)
        ensures
            r@ == (EngineView {
                state: StateView::Empty,
                input: Seq::empty(),
                pending: None,
                live_enabled: false,
                live_text: Seq::empty(),
                frozen: false,
                debug: false,
                conversion_ms: 0,
            }),
    {
        InputMethodEngine {
            state: InputState::Empty,
            input_buf: InputBuffer { text: String::new() },
            converters: Converters { romaji: RomajiConverter::new() },
            live: LiveConversion { enabled: false, text: String::new(), frozen: false },
            show_debug_info: false,
            last_conversion_ms: 0,
        }
    }

    /// The current state.
    pub fn state(&self) -> (r: &InputState)
        ensures
            r@ == self@.state,
    {
        &self.state
    }

    /// The preedit shown, if any.
    pub fn preedit(&self) -> (r: Option<&Preedit>)
        ensures
            match self@.state {
                StateView::Empty => r is None,
                StateView::Composing { preedit } => r matches Some(p) && p@ == preedit,
                StateView::Conversion { preedit, .. } => r matches Some(p) && p@ == preedit,
            },
    {
        match &self.state {
            InputState::Empty => None,
            InputState::Composing { preedit } => Some(preedit),
            InputState::Conversion { preedit, .. } => Some(preedit),
        }
    }

    /// Ends the pending romaji, moving what it stands for into the reading.
    pub(crate) fn flush_romaji_to_composed(&mut self)
        ensures
            final(self)@ == (EngineView { input: composed(old(self)@), pending: None, ..old(self)@ }),
    {
        self.converters.romaji.flush(&mut self.input_buf.text);
    }

    /// Clears everything composed; the settings stay.
    fn reset(&mut self)
        ensures
            final(self)@ == cleared(old(self)@),
    {
        self.state = InputState::Empty;
        self.input_buf.text = String::new();
        self.converters.romaji.reset();
        self.live.text = String::new();
        self.live.frozen = false;
    }

    /// Brings the live conversion up to date with the reading.
    fn refresh_live(&mut self)
        ensures
            final(self)@ == live_refreshed(old(self)@),
    {
        if self.live.enabled && !self.live.frozen {
            if self.input_buf.text.as_str().unicode_len() >= 2 {
                self.live.text = self.input_buf.text.clone();
            } else {
                self.live.text = String::new();
            }
        }
    }

    /// Enters the composing state showing the current reading, and returns
    /// the preedit shown.
    pub(crate) fn set_composing_state(&mut self) -> (r: Preedit)
        ensures
            final(self)@ == (EngineView {
                state: StateView::Composing { preedit: composing_preedit(old(self)@) },
                ..old(self)@
            }),
            r@ == composing_preedit(old(self)@),
    {
        let mut text = if self.live.text.as_str().is_empty() {
            self.input_buf.text.clone()
        } else {
            self.live.text.clone()
        };
        if let Some(c) = self.converters.romaji.pending() {
            crate::text::push_char(&mut text, c);
        }
        self.state = InputState::Composing { preedit: Preedit::new(text.clone()) };
        Preedit::new(text)
    }

    /// The auxiliary text while composing.
    pub fn format_aux_composing(&self) -> (r: String)
        ensures
            r@ == aux_composing(self@),
    {
        let mut s = String::new();
        if self.show_debug_info {
            push_str(&mut s, "Karukan (kana-only)");
        }
        s
    }

    /// The auxiliary text in conversion for `reading`: the reading, then the
    /// page of the selected candidate when `candidates` is given, then the
    /// debug information when it is on.
    pub fn format_aux_conversion_with_page(&self, reading: &str, candidates: Option<&CandidateList>) -> (r: String)
        ensures
            r@ == aux_conversion(
                self@,
                reading@,
                match candidates {
                    Some(l) => Some(l@),
                    None => None,
                },
            ),
    {
        let ghost list = match candidates {
            Some(l) => Some(l@),
            None => None::<CandidateListView>,
        };
        let mut s = String::new();
        push_str(&mut s, reading);
        let mut count: u64 = 0;
        if let Some(l) = candidates {
            let cursor = l.cursor();
            let len = l.len();
            push_str(&mut s, " [");
            push_decimal(&mut s, cursor as u64 + 1);
            push_str(&mut s, "/");
            push_decimal(&mut s, len as u64);
            push_str(&mut s, "]");
            count = len as u64;
        }
        assert(s@ == reading@ + page_text(list));
        if self.show_debug_info {
            push_str(&mut s, " ");
            push_str(&mut s, "Karukan (kana-only)");
            push_str(&mut s, " ");
            push_decimal(&mut s, self.last_conversion_ms);
            push_str(&mut s, "ms/");
            push_decimal(&mut s, count);
            push_str(&mut s, " candidates");
        }
        s
    }

    /// The auxiliary text for the current state.
    fn current_aux(&self) -> (r: String)
        ensures
            r@ == current_aux(self@),
    {
        match &self.state {
            InputState::Empty => String::new(),
            InputState::Composing { .. } => self.format_aux_composing(),
            InputState::Conversion { candidates, .. } => self.format_aux_conversion_with_page(
                self.input_buf.text.as_str(),
                Some(candidates),
            ),
        }
    }

    /// Enters the composing state and answers with its preedit and
    /// auxiliary text.
    pub(crate) fn show_composing(&mut self) -> (r: EngineResult)
        ensures
            final(self)@ == show_composing(old(self)@).0,
            r@ == show_composing(old(self)@).1,
    {
        let preedit = self.set_composing_state();
        let aux = self.format_aux_composing();
        EngineResult::consumed().with_action(EngineAction::UpdatePreedit(preedit)).with_action(
            EngineAction::UpdateAuxText(aux),
        )
    }

    /// The answer that clears the preedit and the auxiliary line.
    fn clearing_result() -> (r: EngineResult)
        ensures
            r@ == taken(clearing_actions()),
    {
        EngineResult::consumed().with_action(EngineAction::UpdatePreedit(Preedit::new(String::new()))).with_action(
            EngineAction::UpdateAuxText(String::new()),
        )
    }

    /// Types `c` into the reading.
    fn type_char(&mut self, c: char) -> (r: EngineResult)
        ensures
            final(self)@ == type_char(old(self)@, c).0,
            r@ == type_char(old(self)@, c).1,
    {
        self.converters.romaji.input(c, &mut self.input_buf.text);
        self.refresh_live();
        self.show_composing()
    }

    /// Commits the reading and clears the engine.
    fn commit_reading(&mut self) -> (r: EngineResult)
        ensures
            final(self)@ == commit_reading(old(self)@).0,
            r@ == commit_reading(old(self)@).1,
    {
        self.flush_romaji_to_composed();
        let text = self.input_buf.text.clone();
        let has_text = !text.as_str().is_empty();
        self.reset();
        let mut r = EngineResult::consumed();
        if has_text {
            r = r.with_action(EngineAction::Commit(text));
        }
        r.followed_by(Self::clearing_result())
    }

    /// Offers the candidates for the reading.
    fn start_conversion(&mut self) -> (r: EngineResult)
        ensures
            final(self)@ == start_conversion(old(self)@).0,
            r@ == start_conversion(old(self)@).1,
    {
        self.flush_romaji_to_composed();
        if self.input_buf.text.as_str().is_empty() {
            self.reset();
            return Self::clearing_result();
        }
        let list = CandidateList::new(build_candidates(self.input_buf.text.as_str())).unwrap();
        let first = list.selected_text();
        self.live.text = String::new();
        let aux = self.format_aux_conversion_with_page(self.input_buf.text.as_str(), Some(&list));
        self.state = InputState::Conversion { preedit: Preedit::new(first.clone()), candidates: list };
        EngineResult::consumed().with_action(EngineAction::UpdatePreedit(Preedit::new(first))).with_action(
            EngineAction::UpdateAuxText(aux),
        )
    }

    /// Deletes backwards in the reading.
    fn backspace(&mut self) -> (r: EngineResult)
        ensures
            final(self)@ == backspace(old(self)@).0,
            r@ == backspace(old(self)@).1,
    {
        if self.converters.romaji.pending().is_some() {
            self.converters.romaji.reset();
        } else {
            let mut chars = chars_of(self.input_buf.text.as_str());
            if chars.len() > 0 {
                chars.pop();
                self.input_buf.text = string_of(&chars);
            }
        }
        if self.input_buf.text.as_str().is_empty() && self.converters.romaji.pending().is_none() {
            self.reset();
            Self::clearing_result()
        } else {
            self.refresh_live();
            self.show_composing()
        }
    }

    /// Switches the debug information on or off, and answers with the
    /// auxiliary text for the current state.
    pub fn toggle_debug_info(&mut self) -> (r: EngineResult)
        ensures
            final(self)@ == toggle_debug(old(self)@).0,
            r@ == toggle_debug(old(self)@).1,
    {
        self.show_debug_info = !self.show_debug_info;
        let aux = self.current_aux();
        EngineResult::consumed().with_action(EngineAction::UpdateAuxText(aux))
    }

    /// A key while nothing is composed.
    fn empty_key(&mut self, key: &KeyEvent) -> (r: EngineResult)
        ensures
            final(self)@ == empty_key(old(self)@, *key).0,
            r@ == empty_key(old(self)@, *key).1,
    {
        match key_char(key) {
            Some(c) => {
                self.reset();
                self.type_char(c)
            },
            None => EngineResult::not_consumed(),
        }
    }

    /// A key while composing.
    fn composing_key(&mut self, key: &KeyEvent) -> (r: EngineResult)
        ensures
            final(self)@ == composing_key(old(self)@, *key).0,
            r@ == composing_key(old(self)@, *key).1,
    {
        let sym = key.keysym.0;
        let plain = !key.modifiers.control && !key.modifiers.alt;
        match key_char(key) {
            Some(c) => {
                if self.live.frozen {
                    let first = self.commit_reading();
                    let second = self.type_char(c);
                    first.followed_by(second)
                } else {
                    self.type_char(c)
                }
            },
            None => {
                if plain && (sym == keysym::SPACE || sym == keysym::TAB) {
                    self.start_conversion()
                } else if sym == keysym::RETURN {
                    self.commit_reading()
                } else if sym == keysym::ESCAPE {
                    self.reset();
                    Self::clearing_result()
                } else if sym == keysym::BACKSPACE {
                    self.backspace()
                } else {
                    EngineResult::consumed()
                }
            },
        }
    }

    /// A key while choosing among `candidates`, with the state already taken
    /// out of the engine.
    fn conversion_key(&mut self, preedit: Preedit, candidates: CandidateList, key: &KeyEvent) -> (r: EngineResult)
        ensures
            ({
                let s = EngineView {
                    state: StateView::Conversion { preedit: preedit@, list: candidates@ },
                    ..old(self)@
                };
                &&& final(self)@ == conversion_key(s, candidates@, *key).0
                &&& r@ == conversion_key(s, candidates@, *key).1
            }),
    {
        let ghost s = EngineView {
            state: StateView::Conversion { preedit: preedit@, list: candidates@ },
            ..self@
        };
        let sym = key.keysym.0;
        let plain = !key.modifiers.control && !key.modifiers.alt;
        let mut candidates = candidates;
        match key_char(key) {
            Some(c) => {
                let text = candidates.selected_text();
                self.reset();
                let first = EngineResult::consumed().with_action(EngineAction::Commit(text)).followed_by(
                    Self::clearing_result(),
                );
                let second = self.type_char(c);
                first.followed_by(second)
            },
            None => {
                let forward = (plain && sym == keysym::SPACE) || (sym == keysym::TAB && !key.modifiers.shift)
                    || sym == keysym::DOWN;
                let backward = (sym == keysym::TAB && key.modifiers.shift) || sym == keysym::UP;
                if forward || backward {
                    if forward {
                        candidates.select_next();
                    } else {
                        candidates.select_prev();
                    }
                    let text = candidates.selected_text();
                    let aux = self.format_aux_conversion_with_page(self.input_buf.text.as_str(), Some(&candidates));
                    self.state = InputState::Conversion { preedit: Preedit::new(text.clone()), candidates };
                    EngineResult::consumed().with_action(EngineAction::UpdatePreedit(Preedit::new(text))).with_action(
                        EngineAction::UpdateAuxText(aux),
                    )
                } else if sym == keysym::RETURN {
                    let text = candidates.selected_text();
                    self.reset();
                    EngineResult::consumed().with_action(EngineAction::Commit(text)).followed_by(Self::clearing_result())
                } else if sym == keysym::ESCAPE || sym == keysym::BACKSPACE {
                    self.refresh_live();
                    self.show_composing()
                } else if sym == keysym::DELETE && key.modifiers.control {
                    self.state = InputState::Conversion { preedit, candidates };
                    EngineResult::not_consumed()
                } else {
                    self.state = InputState::Conversion { preedit, candidates };
                    EngineResult::consumed()
                }
            },
        }
    }

    /// Handles one key event: returns whether the engine took the key and
    /// the actions for the host, and moves to the next state, as `step`
    /// describes.
    pub fn process_key(&mut self, key: &KeyEvent) -> (r: EngineResult)
        ensures
            final(self)@ == step(old(self)@, *key).0,
            r@ == step(old(self)@, *key).1,
    {
        if !key.is_press {
            return EngineResult::not_consumed();
        }
        let sym = key.keysym.0;
        let ctrl_shift = key.modifiers.control && key.modifiers.shift;
        if ctrl_shift && (sym == keysym::KEY_D || sym == keysym::KEY_D_UPPER) {
            return self.toggle_debug_info();
        }
        if ctrl_shift && (sym == keysym::KEY_L || sym == keysym::KEY_L_UPPER) {
            return self.toggle_live_conversion();
        }
        match key_mode(key) {
            Some(KanaMode::Hiragana) => return self.convert_to_hiragana(),
            Some(KanaMode::Katakana) => return self.convert_to_katakana(),
            Some(KanaMode::HalfKatakana) => return self.convert_to_half_katakana(),
            None => {},
        }
        match self.state {
            InputState::Empty => return self.empty_key(key),
            InputState::Composing { .. } => return self.composing_key(key),
            InputState::Conversion { .. } => {},
        }
        let mut state = InputState::Empty;
        std::mem::swap(&mut state, &mut self.state);
        match state {
            InputState::Conversion { preedit, candidates } => self.conversion_key(preedit, candidates, key),
            _ => EngineResult::consumed(),
        }
    }
}

} // verus!
