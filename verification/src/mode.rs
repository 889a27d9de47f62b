//! Kana conversion of the reading (F6, F7, F8) and the live conversion
//! switch.

use vstd::prelude::*;

use crate::engine::{
    convert_reading, live_message, toggle_live, EngineAction, EngineResult, InputMethodEngine, KanaMode,
};
use crate::kana::{half_width_to_full_width_katakana, hiragana_to_half_katakana, hiragana_to_katakana, katakana_to_hiragana};
use crate::text::push_str;

verus! {

impl InputMethodEngine {
    /// Converts the reading to hiragana (F6).
    pub fn convert_to_hiragana(&mut self) -> (r: EngineResult)
        ensures
            final(self)@ == convert_reading(old(self)@, KanaMode::Hiragana).0,
            r@ == convert_reading(old(self)@, KanaMode::Hiragana).1,
    {
        self.flush_romaji_to_composed();
        if self.input_buf.text.as_str().is_empty() {
            return EngineResult::consumed();
        }
        self.live.text = String::new();
        self.live.frozen = true;
        let full = half_width_to_full_width_katakana(self.input_buf.text.as_str());
        self.input_buf.text = katakana_to_hiragana(full.as_str());
        let preedit = self.set_composing_state();
        EngineResult::consumed().with_action(EngineAction::UpdatePreedit(preedit)).with_action(
            EngineAction::UpdateAuxText(self.format_aux_composing()),
        )
    }

    /// Converts the reading to katakana (F7, Ctrl+I, Ctrl+K). The conversion is one
    /// shot: the reading shows as katakana and is committed as katakana.
    pub fn convert_to_katakana(&mut self) -> (r: EngineResult)
        ensures
            final(self)@ == convert_reading(old(self)@, KanaMode::Katakana).0,
            r@ == convert_reading(old(self)@, KanaMode::Katakana).1,
    {
        self.flush_romaji_to_composed();
        if self.input_buf.text.as_str().is_empty() {
            return EngineResult::consumed();
        }
        self.live.text = String::new();
        self.live.frozen = true;
        let full = half_width_to_full_width_katakana(self.input_buf.text.as_str());
        self.input_buf.text = hiragana_to_katakana(full.as_str());
        let preedit = self.set_composing_state();
        EngineResult::consumed().with_action(EngineAction::UpdatePreedit(preedit)).with_action(
            EngineAction::UpdateAuxText(self.format_aux_composing()),
        )
    }

    /// Converts the reading to half-width katakana (F8).
    pub fn convert_to_half_katakana(&mut self) -> (r: EngineResult)
        ensures
            final(self)@ == convert_reading(old(self)@, KanaMode::HalfKatakana).0,
            r@ == convert_reading(old(self)@, KanaMode::HalfKatakana).1,
    {
        self.flush_romaji_to_composed();
        if self.input_buf.text.as_str().is_empty() {
            return EngineResult::consumed();
        }
        self.live.text = String::new();
        self.live.frozen = true;
        self.input_buf.text = hiragana_to_half_katakana(self.input_buf.text.as_str());
        let preedit = self.set_composing_state();
        EngineResult::consumed().with_action(EngineAction::UpdatePreedit(preedit)).with_action(
            EngineAction::UpdateAuxText(self.format_aux_composing()),
        )
    }

    /// Switches live conversion on or off (Ctrl+Shift+L), and answers with a
    /// message saying which.
    pub fn toggle_live_conversion(&mut self) -> (r: EngineResult)
        ensures
            final(self)@ == toggle_live(old(self)@).0,
            r@ == toggle_live(old(self)@).1,
    {
        self.live.enabled = !self.live.enabled;
        let mut message = String::new();
        push_str(&mut message, "ライブ変換: ");
        if self.live.enabled {
            push_str(&mut message, "ON");
        } else {
            push_str(&mut message, "OFF");
        }
        assert(message@ == live_message(self.live.enabled));
        EngineResult::consumed().with_action(EngineAction::UpdateAuxText(message))
    }
}

} // verus!
