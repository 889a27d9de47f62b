//! Key events as the engine receives them.

use vstd::prelude::*;

verus! {

/// An X11 keysym: printable ASCII keys carry their character code.
#[derive(Clone, Copy, PartialEq, Eq, Debug)]
pub struct Keysym(pub u32);

/// The modifier keys held during a key event.
#[derive(Clone, Copy, PartialEq, Eq, Debug)]
pub struct KeyModifiers {
    pub control: bool,
    pub shift: bool,
    pub alt: bool,
}

impl KeyModifiers {
    /// No modifier held.
    pub fn new() -> (r: Self)
        ensures
            !r.control && !r.shift && !r.alt,
    {
        KeyModifiers { control: false, shift: false, alt: false }
    }

    /// These modifiers with Control set to `on`.
    pub fn with_control(self, on: bool) -> (r: Self)
        ensures
            r == (KeyModifiers { control: on, ..self }),
    {
        KeyModifiers { control: on, ..self }
    }

    /// These modifiers with Shift set to `on`.
    pub fn with_shift(self, on: bool) -> (r: Self)
        ensures
            r == (KeyModifiers { shift: on, ..self }),
    {
        KeyModifiers { shift: on, ..self }
    }

    /// These modifiers with Alt set to `on`.
    pub fn with_alt(self, on: bool) -> (r: Self)
        ensures
            r == (KeyModifiers { alt: on, ..self }),
    {
        KeyModifiers { alt: on, ..self }
    }
}

/// A key press or release.
#[derive(Clone, Copy, PartialEq, Eq, Debug)]
pub struct KeyEvent {
    pub keysym: Keysym,
    pub modifiers: KeyModifiers,
    pub is_press: bool,
}

impl KeyEvent {
    /// A key event with the given keysym, modifiers and direction.
    pub fn new(keysym: Keysym, modifiers: KeyModifiers, is_press: bool) -> (r: Self)
        ensures
            r == (KeyEvent { keysym, modifiers, is_press }),
    {
        KeyEvent { keysym, modifiers, is_press }
    }

    /// A press of `keysym` with no modifier held.
    pub fn press(keysym: Keysym) -> (r: Self)
        ensures
            r.keysym == keysym,
            !r.modifiers.control && !r.modifiers.shift && !r.modifiers.alt,
            r.is_press,
    {
        KeyEvent { keysym, modifiers: KeyModifiers::new(), is_press: true }
    }
}

} // verus!
