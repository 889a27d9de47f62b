//! An input method engine for Japanese: romaji input, kana conversion
//! (hiragana, katakana, half-width katakana), candidate selection and live
//! conversion, modelled as a state machine whose steps are specified over
//! mathematical views and verified.
//!
//! The engine converts with kana rules only: it has no kana-kanji model and
//! no learning history. The candidates for a reading are its own kana forms,
//! and live conversion shows the reading itself.

pub mod candidate;
pub mod engine;
pub mod kana;
pub mod keycode;
pub mod keysym;
pub mod laws;
pub mod mode;
pub mod romaji;
pub mod text;
