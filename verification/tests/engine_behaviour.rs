use karukan_im::candidate::CandidateList;
use karukan_im::engine::{build_candidates, EngineAction, InputMethodEngine, InputState};
use karukan_im::keycode::{KeyEvent, KeyModifiers, Keysym};
use karukan_im::keysym;

fn press(ch: char) -> KeyEvent {
    KeyEvent::press(Keysym(ch as u32))
}

fn press_key(code: u32) -> KeyEvent {
    KeyEvent::press(Keysym(code))
}

fn press_ctrl_shift(code: u32) -> KeyEvent {
    KeyEvent::new(Keysym(code), KeyModifiers::new().with_control(true).with_shift(true), true)
}

fn type_text(engine: &mut InputMethodEngine, text: &str) {
    for c in text.chars() {
        engine.process_key(&press(c));
    }
}

fn commits(actions: &[EngineAction]) -> Vec<String> {
    actions
        .iter()
        .filter_map(|a| match a {
            EngineAction::Commit(t) => Some(t.clone()),
            _ => None,
        })
        .collect()
}

fn aux_texts(actions: &[EngineAction]) -> Vec<String> {
    actions
        .iter()
        .filter_map(|a| match a {
            EngineAction::UpdateAuxText(t) => Some(t.clone()),
            _ => None,
        })
        .collect()
}

fn candidate_texts(list: &CandidateList) -> Vec<String> {
    list.candidates().iter().map(|c| c.text.clone()).collect()
}

#[test]
fn toggle_live_conversion_announces_setting() {
    let mut engine = InputMethodEngine::new();
    let on = engine.toggle_live_conversion();
    assert!(on.consumed);
    assert!(engine.live.enabled);
    assert_eq!(aux_texts(&on.actions), vec!["ライブ変換: ON".to_string()]);
    let off = engine.process_key(&press_ctrl_shift(keysym::KEY_L));
    assert!(off.consumed);
    assert!(!engine.live.enabled);
    assert_eq!(aux_texts(&off.actions), vec!["ライブ変換: OFF".to_string()]);
}

#[test]
fn typing_shows_preedit_and_aux() {
    let mut engine = InputMethodEngine::new();
    let r = engine.process_key(&press('k'));
    assert!(r.consumed);
    assert_eq!(r.actions.len(), 2);
    assert!(matches!(&r.actions[0], EngineAction::UpdatePreedit(p) if p.text() == "k"));
    assert!(matches!(&r.actions[1], EngineAction::UpdateAuxText(t) if t.is_empty()));
}

#[test]
fn debug_aux_texts_exact() {
    let mut engine = InputMethodEngine::new();
    type_text(&mut engine, "a");
    engine.process_key(&press_ctrl_shift(keysym::KEY_D));
    assert_eq!(engine.format_aux_composing(), "Karukan (kana-only)");
    engine.process_key(&press_key(keysym::SPACE));
    engine.last_conversion_ms = 12;
    let aux = match engine.state() {
        InputState::Conversion { candidates, .. } => engine.format_aux_conversion_with_page("あ", Some(candidates)),
        _ => panic!("Not in conversion state"),
    };
    assert_eq!(aux, "あ [1/3] Karukan (kana-only) 12ms/3 candidates");
    assert_eq!(engine.format_aux_conversion_with_page("か", None), "か Karukan (kana-only) 12ms/0 candidates");
    engine.toggle_debug_info();
    assert_eq!(engine.format_aux_conversion_with_page("か", None), "か");
}

#[test]
fn conversion_offers_kana_forms() {
    assert_eq!(
        build_candidates("あ").iter().map(|c| c.text.clone()).collect::<Vec<_>>(),
        vec!["あ".to_string(), "ア".to_string(), "ｱ".to_string()]
    );
    assert_eq!(
        build_candidates("123").iter().map(|c| c.text.clone()).collect::<Vec<_>>(),
        vec!["123".to_string()]
    );
    assert_eq!(
        build_candidates("ｶﾞ").iter().map(|c| c.text.clone()).collect::<Vec<_>>(),
        vec!["ｶﾞ".to_string(), "が".to_string(), "ガ".to_string()]
    );
}

#[test]
fn conversion_navigation_wraps() {
    let mut engine = InputMethodEngine::new();
    type_text(&mut engine, "a");
    let r = engine.process_key(&press_key(keysym::SPACE));
    assert_eq!(aux_texts(&r.actions), vec!["あ [1/3]".to_string()]);
    match engine.state() {
        InputState::Conversion { candidates, .. } => {
            assert_eq!(candidate_texts(candidates), vec!["あ", "ア", "ｱ"]);
        }
        _ => panic!("Not in conversion state"),
    }
    engine.process_key(&press_key(keysym::SPACE));
    engine.process_key(&press_key(keysym::DOWN));
    assert_eq!(engine.preedit().unwrap().text(), "ｱ");
    let r = engine.process_key(&press_key(keysym::TAB));
    assert_eq!(engine.preedit().unwrap().text(), "あ");
    assert_eq!(aux_texts(&r.actions), vec!["あ [1/3]".to_string()]);
    engine.process_key(&press_key(keysym::UP));
    assert_eq!(engine.preedit().unwrap().text(), "ｱ");
    assert_eq!(engine.state().candidates().unwrap().cursor(), 2);
}

#[test]
fn return_in_conversion_commits_selection() {
    let mut engine = InputMethodEngine::new();
    type_text(&mut engine, "ai");
    engine.process_key(&press_key(keysym::SPACE));
    engine.process_key(&press_key(keysym::TAB));
    let r = engine.process_key(&press_key(keysym::RETURN));
    assert_eq!(commits(&r.actions), vec!["アイ".to_string()]);
    assert!(matches!(engine.state(), InputState::Empty));
    assert!(engine.input_buf.text.is_empty());
}

#[test]
fn escape_in_conversion_returns_to_composing() {
    let mut engine = InputMethodEngine::new();
    type_text(&mut engine, "ai");
    engine.process_key(&press_key(keysym::SPACE));
    engine.process_key(&press_key(keysym::TAB));
    let r = engine.process_key(&press_key(keysym::ESCAPE));
    assert!(r.consumed);
    assert!(matches!(engine.state(), InputState::Composing { .. }));
    assert_eq!(engine.preedit().unwrap().text(), "あい");
}

#[test]
fn escape_in_composing_clears() {
    let mut engine = InputMethodEngine::new();
    type_text(&mut engine, "ka");
    let r = engine.process_key(&press_key(keysym::ESCAPE));
    assert!(r.consumed);
    assert!(commits(&r.actions).is_empty());
    assert!(matches!(engine.state(), InputState::Empty));
    assert!(engine.preedit().is_none());
}

#[test]
fn backspace_deletes_pending_then_reading() {
    let mut engine = InputMethodEngine::new();
    type_text(&mut engine, "kak");
    assert_eq!(engine.preedit().unwrap().text(), "かk");
    engine.process_key(&press_key(keysym::BACKSPACE));
    assert_eq!(engine.preedit().unwrap().text(), "か");
    let r = engine.process_key(&press_key(keysym::BACKSPACE));
    assert!(r.consumed);
    assert!(matches!(engine.state(), InputState::Empty));
}

#[test]
fn return_commits_reading_with_pending_n() {
    let mut engine = InputMethodEngine::new();
    type_text(&mut engine, "kan");
    assert_eq!(engine.preedit().unwrap().text(), "かn");
    let r = engine.process_key(&press_key(keysym::RETURN));
    assert_eq!(commits(&r.actions), vec!["かん".to_string()]);
    assert!(matches!(engine.state(), InputState::Empty));
}

#[test]
fn keys_outside_composition_pass_through() {
    let mut engine = InputMethodEngine::new();
    assert!(!engine.process_key(&press_key(keysym::SPACE)).consumed);
    assert!(!engine.process_key(&press_key(keysym::RETURN)).consumed);
    let release = KeyEvent::new(Keysym('a' as u32), KeyModifiers::new(), false);
    assert!(!engine.process_key(&release).consumed);
    assert!(matches!(engine.state(), InputState::Empty));
    let ctrl_a = KeyEvent::new(Keysym('a' as u32), KeyModifiers::new().with_control(true), true);
    assert!(!engine.process_key(&ctrl_a).consumed);
}

#[test]
fn live_conversion_follows_reading() {
    let mut engine = InputMethodEngine::new();
    engine.live.enabled = true;
    type_text(&mut engine, "a");
    assert!(engine.live.text.is_empty());
    type_text(&mut engine, "i");
    assert_eq!(engine.live.text, "あい");
    type_text(&mut engine, "k");
    assert_eq!(engine.preedit().unwrap().text(), "あいk");
    let r = engine.process_key(&press_key(keysym::RETURN));
    assert_eq!(commits(&r.actions), vec!["あいk".to_string()]);
}

#[test]
fn f8_in_conversion_gives_half_katakana() {
    let mut engine = InputMethodEngine::new();
    type_text(&mut engine, "gaku");
    engine.process_key(&press_key(keysym::SPACE));
    engine.process_key(&press_key(keysym::F8));
    assert!(matches!(engine.state(), InputState::Composing { .. }));
    assert_eq!(engine.preedit().unwrap().text(), "ｶﾞｸ");
    let r = engine.process_key(&press_key(keysym::RETURN));
    assert_eq!(commits(&r.actions), vec!["ｶﾞｸ".to_string()]);
}

#[test]
fn ctrl_k_converts_to_katakana() {
    let mut engine = InputMethodEngine::new();
    type_text(&mut engine, "aiu");
    let ctrl_k = KeyEvent::new(Keysym(keysym::KEY_K), KeyModifiers::new().with_control(true), true);
    let r = engine.process_key(&ctrl_k);
    assert!(r.consumed);
    assert!(commits(&r.actions).is_empty());
    assert_eq!(engine.preedit().unwrap().text(), "アイウ");
    assert!(engine.live.frozen);
}

#[test]
fn f8_same_after_f7() {
    let mut a = InputMethodEngine::new();
    type_text(&mut a, "sakura");
    a.process_key(&press_key(keysym::F8));
    let mut b = InputMethodEngine::new();
    type_text(&mut b, "sakura");
    b.process_key(&press_key(keysym::F7));
    b.process_key(&press_key(keysym::F8));
    assert_eq!(a.preedit().unwrap().text(), "ｻｸﾗ");
    assert_eq!(b.preedit().unwrap().text(), "ｻｸﾗ");
    assert_eq!(a.input_buf.text, b.input_buf.text);
}

#[test]
fn ctrl_delete_in_conversion_is_not_taken() {
    let mut engine = InputMethodEngine::new();
    type_text(&mut engine, "xy");
    let r = engine.process_key(&press_key(keysym::SPACE));
    assert!(r.consumed);
    let ctrl_delete = KeyEvent::new(Keysym(keysym::DELETE), KeyModifiers::new().with_control(true), true);
    let r = engine.process_key(&ctrl_delete);
    assert!(!r.consumed);
    assert!(r.actions.is_empty());
    assert!(matches!(engine.state(), InputState::Conversion { .. }));
    assert_eq!(engine.preedit().unwrap().text(), "xy");
    let plain_delete = engine.process_key(&press_key(keysym::DELETE));
    assert!(plain_delete.consumed);
}
