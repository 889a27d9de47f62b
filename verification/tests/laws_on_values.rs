use karukan_im::engine::{EngineAction, InputMethodEngine, InputState};
use karukan_im::keycode::{KeyEvent, KeyModifiers, Keysym};
use karukan_im::keysym;

fn press(ch: char) -> KeyEvent {
    KeyEvent::press(Keysym(ch as u32))
}

fn press_key(code: u32) -> KeyEvent {
    KeyEvent::press(Keysym(code))
}

fn type_text(engine: &mut InputMethodEngine, text: &str) {
    for c in text.chars() {
        engine.process_key(&press(c));
    }
}

#[test]
fn katakana_key_twice_is_once() {
    let mut engine = InputMethodEngine::new();
    type_text(&mut engine, "sakura");
    engine.process_key(&press_key(keysym::F7));
    assert_eq!(engine.preedit().unwrap().text(), "サクラ");
    let r = engine.process_key(&press_key(keysym::F7));
    assert_eq!(engine.preedit().unwrap().text(), "サクラ");
    assert!(!r.actions.iter().any(|a| matches!(a, EngineAction::Commit(_))));
}

#[test]
fn half_then_hiragana_restores_reading() {
    let mut engine = InputMethodEngine::new();
    type_text(&mut engine, "gakkou");
    assert_eq!(engine.preedit().unwrap().text(), "がっこう");
    engine.process_key(&press_key(keysym::F8));
    assert_eq!(engine.preedit().unwrap().text(), "ｶﾞｯｺｳ");
    engine.process_key(&press_key(keysym::F7));
    assert_eq!(engine.preedit().unwrap().text(), "ガッコウ");
    engine.process_key(&press_key(keysym::F6));
    assert_eq!(engine.preedit().unwrap().text(), "がっこう");
}

#[test]
fn live_toggle_twice_restores() {
    let mut engine = InputMethodEngine::new();
    let key = KeyEvent::new(Keysym(keysym::KEY_L), KeyModifiers::new().with_control(true).with_shift(true), true);
    engine.process_key(&key);
    assert!(engine.live.enabled);
    engine.process_key(&key);
    assert!(!engine.live.enabled);
}

#[test]
fn tab_shift_tab_restores_selection() {
    let mut engine = InputMethodEngine::new();
    type_text(&mut engine, "ha");
    engine.process_key(&press_key(keysym::SPACE));
    engine.process_key(&press_key(keysym::TAB));
    engine.process_key(&press_key(keysym::TAB));
    assert_eq!(engine.preedit().unwrap().text(), "ﾊ");
    engine.process_key(&press_key(keysym::TAB));
    let shift_tab = KeyEvent::new(Keysym(keysym::TAB), KeyModifiers::new().with_shift(true), true);
    engine.process_key(&shift_tab);
    assert_eq!(engine.preedit().unwrap().text(), "ﾊ");
    assert_eq!(engine.state().candidates().unwrap().cursor(), 2);
}

#[test]
fn kana_key_with_nothing_typed_does_nothing() {
    let mut engine = InputMethodEngine::new();
    for code in [keysym::F6, keysym::F7, keysym::F8] {
        let r = engine.process_key(&press_key(code));
        assert!(r.consumed);
        assert!(r.actions.is_empty());
        assert!(matches!(engine.state(), InputState::Empty));
    }
}

#[test]
fn frozen_reading_commits_before_new_input() {
    let mut engine = InputMethodEngine::new();
    type_text(&mut engine, "ka");
    engine.process_key(&press_key(keysym::F8));
    let r = engine.process_key(&press('1'));
    assert!(matches!(&r.actions[0], EngineAction::Commit(t) if t == "ｶ"));
    assert_eq!(engine.preedit().unwrap().text(), "1");
    assert!(!engine.live.frozen);
}
