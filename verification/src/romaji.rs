//! Romaji to hiragana input.
//!
//! Syllables are written in Kunrei style: an optional consonant from
//! `k g s z t d n h b p m y r w` followed by a vowel `a i u e o` gives one
//! hiragana from the gojūon table (`ka` → か, `ti` → ち, `hu` → ふ). A doubled
//! consonant gives a small っ and keeps the second consonant pending; `nn`, or
//! `n` before another consonant or any other character, gives ん. Any other
//! character is taken as it is.

use vstd::prelude::*;

use crate::text::push_char;

verus! {

/// Whether `c` is one of the five romaji vowels.
pub open spec fn is_vowel(c: char) -> bool {
    c == 'a' || c == 'i' || c == 'u' || c == 'e' || c == 'o'
}

/// The position of a vowel in the order a, i, u, e, o.
pub open spec fn vowel_index(c: char) -> u32 {
    if c == 'a' {
        0
    } else if c == 'i' {
        1
    } else if c == 'u' {
        2
    } else if c == 'e' {
        3
    } else {
        4
    }
}

/// Whether `c` starts a syllable and waits for its vowel.
pub open spec fn is_consonant(c: char) -> bool {
    c == 'k' || c == 'g' || c == 's' || c == 'z' || c == 't' || c == 'd' || c == 'n'
        || c == 'h' || c == 'b' || c == 'p' || c == 'm' || c == 'y' || c == 'r' || c == 'w'
}

/// The hiragana for `cons` followed by the vowel `v`, where the table has one.
pub open spec fn syllable(cons: Option<char>, v: char) -> Option<char> {
    let i = vowel_index(v);
    match cons {
        None => Some((0x3042 + 2 * i) as char),
        Some(c) => if c == 'k' {
            Some((0x304B + 2 * i) as char)
        } else if c == 'g' {
            Some((0x304C + 2 * i) as char)
        } else if c == 's' {
            Some((0x3055 + 2 * i) as char)
        } else if c == 'z' {
            Some((0x3056 + 2 * i) as char)
        } else if c == 't' {
            if i < 2 {
                Some((0x305F + 2 * i) as char)
            } else {
                Some((0x3064 + 2 * (i - 2)) as char)
            }
        } else if c == 'd' {
            if i < 2 {
                Some((0x3060 + 2 * i) as char)
            } else {
                Some((0x3065 + 2 * (i - 2)) as char)
            }
        } else if c == 'n' {
            Some((0x306A + i) as char)
        } else if c == 'h' {
            Some((0x306F + 3 * i) as char)
        } else if c == 'b' {
            Some((0x3070 + 3 * i) as char)
        } else if c == 'p' {
            Some((0x3071 + 3 * i) as char)
        } else if c == 'm' {
            Some((0x307E + i) as char)
        } else if c == 'y' {
            if i == 0 {
                Some('\u{3084}')
            } else if i == 2 {
                Some('\u{3086}')
            } else if i == 4 {
                Some('\u{3088}')
            } else {
                None
            }
        } else if c == 'r' {
            Some((0x3089 + i) as char)
        } else if c == 'w' {
            if i == 0 {
                Some('\u{308F}')
            } else if i == 4 {
                Some('\u{3092}')
            } else {
                None
            }
        } else {
            None
        },
    }
}

/// What a pending consonant turns into when no vowel follows it: `n` is ん,
/// any other consonant stays a letter.
pub open spec fn flushed(pending: Option<char>) -> Seq<char> {
    match pending {
        None => Seq::empty(),
        Some(c) => if c == 'n' {
            seq!['\u{3093}']
        } else {
            seq![c]
        },
    }
}

/// One step of romaji input: the text it emits and the consonant left
/// pending, from the pending consonant before and the typed character.
pub open spec fn feed(pending: Option<char>, c: char) -> (Seq<char>, Option<char>) {
    if is_vowel(c) {
        match syllable(pending, c) {
            Some(k) => (seq![k], None),
            None => (flushed(pending) + seq![syllable(None, c).unwrap()], None),
        }
    } else if is_consonant(c) {
        match pending {
            None => (Seq::empty(), Some(c)),
            Some(p) => if p == 'n' && c == 'n' {
                (seq!['\u{3093}'], None)
            } else if p == c {
                (seq!['\u{3063}'], Some(c))
            } else {
                (flushed(pending), Some(c))
            },
        }
    } else {
        (flushed(pending) + seq![c], None)
    }
}

fn syllable_of(cons: Option<char>, v: char) -> (r: Option<char>)
    requires
        is_vowel(v),
    ensures
        r == syllable(cons, v),
{
    match (cons, v) {
        (None, 'a') => Some('あ'),
        (None, 'i') => Some('い'),
        (None, 'u') => Some('う'),
        (None, 'e') => Some('え'),
        (None, 'o') => Some('お'),
        (Some('k'), 'a') => Some('か'),
        (Some('k'), 'i') => Some('き'),
        (Some('k'), 'u') => Some('く'),
        (Some('k'), 'e') => Some('け'),
        (Some('k'), 'o') => Some('こ'),
        (Some('g'), 'a') => Some('が'),
        (Some('g'), 'i') => Some('ぎ'),
        (Some('g'), 'u') => Some('ぐ'),
        (Some('g'), 'e') => Some('げ'),
        (Some('g'), 'o') => Some('ご'),
        (Some('s'), 'a') => Some('さ'),
        (Some('s'), 'i') => Some('し'),
        (Some('s'), 'u') => Some('す'),
        (Some('s'), 'e') => Some('せ'),
        (Some('s'), 'o') => Some('そ'),
        (Some('z'), 'a') => Some('ざ'),
        (Some('z'), 'i') => Some('じ'),
        (Some('z'), 'u') => Some('ず'),
        (Some('z'), 'e') => Some('ぜ'),
        (Some('z'), 'o') => Some('ぞ'),
        (Some('t'), 'a') => Some('た'),
        (Some('t'), 'i') => Some('ち'),
        (Some('t'), 'u') => Some('つ'),
        (Some('t'), 'e') => Some('て'),
        (Some('t'), 'o') => Some('と'),
        (Some('d'), 'a') => Some('だ'),
        (Some('d'), 'i') => Some('ぢ'),
        (Some('d'), 'u') => Some('づ'),
        (Some('d'), 'e') => Some('で'),
        (Some('d'), 'o') => Some('ど'),
        (Some('n'), 'a') => Some('な'),
        (Some('n'), 'i') => Some('に'),
        (Some('n'), 'u') => Some('ぬ'),
        (Some('n'), 'e') => Some('ね'),
        (Some('n'), 'o') => Some('の'),
        (Some('h'), 'a') => Some('は'),
        (Some('h'), 'i') => Some('ひ'),
        (Some('h'), 'u') => Some('ふ'),
        (Some('h'), 'e') => Some('へ'),
        (Some('h'), 'o') => Some('ほ'),
        (Some('b'), 'a') => Some('ば'),
        (Some('b'), 'i') => Some('び'),
        (Some('b'), 'u') => Some('ぶ'),
        (Some('b'), 'e') => Some('べ'),
        (Some('b'), 'o') => Some('ぼ'),
        (Some('p'), 'a') => Some('ぱ'),
        (Some('p'), 'i') => Some('ぴ'),
        (Some('p'), 'u') => Some('ぷ'),
        (Some('p'), 'e') => Some('ぺ'),
        (Some('p'), 'o') => Some('ぽ'),
        (Some('m'), 'a') => Some('ま'),
        (Some('m'), 'i') => Some('み'),
        (Some('m'), 'u') => Some('む'),
        (Some('m'), 'e') => Some('め'),
        (Some('m'), 'o') => Some('も'),
        (Some('y'), 'a') => Some('や'),
        (Some('y'), 'u') => Some('ゆ'),
        (Some('y'), 'o') => Some('よ'),
        (Some('r'), 'a') => Some('ら'),
        (Some('r'), 'i') => Some('り'),
        (Some('r'), 'u') => Some('る'),
        (Some('r'), 'e') => Some('れ'),
        (Some('r'), 'o') => Some('ろ'),
        (Some('w'), 'a') => Some('わ'),
        (Some('w'), 'o') => Some('を'),
        _ => None,
    }
}

/// Romaji input state: the consonant typed but not yet followed by a vowel.
pub struct RomajiConverter {
    pending: Option<char>,
}

impl View for RomajiConverter {
    type V = Option<char>;

    closed spec fn view(&self) -> Option<char> {
        self.pending
    }
}

impl RomajiConverter {
    /// A converter with nothing pending.
    pub fn new() -> (r: Self)
        ensures
            r@ is None,
    {
        RomajiConverter { pending: None }
    }

    /// The consonant waiting for its vowel, if any.
    pub fn pending(&self) -> (r: Option<char>)
        ensures
            r == self@,
    {
        self.pending
    }

    /// Drops the pending consonant.
    pub fn reset(&mut self)
        ensures
            final(self)@ is None,
    {
        self.pending = None;
    }

    /// Takes one typed character, appending what it completes to `out`.
    pub fn input(&mut self, c: char, out: &mut String)
        ensures
            final(out)@ == old(out)@ + feed(old(self)@, c).0,
            final(self)@ == feed(old(self)@, c).1,
    {
        let is_vowel = c == 'a' || c == 'i' || c == 'u' || c == 'e' || c == 'o';
        let is_consonant = c == 'k' || c == 'g' || c == 's' || c == 'z' || c == 't' || c == 'd'
            || c == 'n' || c == 'h' || c == 'b' || c == 'p' || c == 'm' || c == 'y' || c == 'r'
            || c == 'w';
        if is_vowel {
            match syllable_of(self.pending, c) {
                Some(k) => {
                    push_char(out, k);
                    assert(old(out)@.push(k) == old(out)@ + seq![k]);
                },
                None => {
                    self.flush(out);
                    let k = syllable_of(None, c).unwrap();
                    push_char(out, k);
                    assert(old(out)@ + flushed(old(self)@) + seq![k] == (old(out)@ + flushed(old(self)@)).push(k));
                },
            }
            self.pending = None;
        } else if is_consonant {
            match self.pending {
                None => {
                    assert(old(out)@ + Seq::<char>::empty() == old(out)@);
                    self.pending = Some(c);
                },
                Some(p) => {
                    if p == 'n' && c == 'n' {
                        push_char(out, '\u{3093}');
                        assert(old(out)@.push('\u{3093}') == old(out)@ + seq!['\u{3093}']);
                        self.pending = None;
                    } else if p == c {
                        push_char(out, '\u{3063}');
                        assert(old(out)@.push('\u{3063}') == old(out)@ + seq!['\u{3063}']);
                        self.pending = Some(c);
                    } else {
                        self.flush(out);
                        self.pending = Some(c);
                    }
                },
            }
        } else {
            self.flush(out);
            push_char(out, c);
            assert(old(out)@ + flushed(old(self)@) + seq![c] == (old(out)@ + flushed(old(self)@)).push(c));
        }
    }

    /// Ends the pending syllable: appends what the pending consonant stands
    /// for on its own to `out` and leaves nothing pending.
    pub fn flush(&mut self, out: &mut String)
        ensures
            final(out)@ == old(out)@ + flushed(old(self)@),
            final(self)@ is None,
    {
        match self.pending {
            None => {
                assert(old(out)@ + Seq::<char>::empty() == old(out)@);
            },
            Some(p) => {
                let c = if p == 'n' { '\u{3093}' } else { p };
                push_char(out, c);
                assert(old(out)@.push(c) == old(out)@ + seq![c]);
            },
        }
        self.pending = None;
    }
}

} // verus!
