//! Conversion candidates and the cursor that selects one of them.

use vstd::prelude::*;

verus! {

/// One conversion candidate.
pub struct Candidate {
    pub text: String,
}

impl View for Candidate {
    type V = Seq<char>;

    open spec fn view(&self) -> Seq<char> {
        self.text@
    }
}

/// The texts of a sequence of candidates.
pub open spec fn texts_of(cs: Seq<Candidate>) -> Seq<Seq<char>> {
    cs.map_values(|c: Candidate| c@)
}

/// What a candidate list holds: the candidate texts, in order, and the index
/// of the selected one.
#[verifier::ext_equal]
pub ghost struct CandidateListView {
    pub texts: Seq<Seq<char>>,
    pub cursor: int,
}

/// The cursor after moving one candidate forward, wrapping from the last
/// candidate to the first.
pub open spec fn next_cursor(cursor: int, len: int) -> int {
    if cursor + 1 < len {
        cursor + 1
    } else {
        0
    }
}

/// The cursor after moving one candidate back, wrapping from the first
/// candidate to the last.
pub open spec fn prev_cursor(cursor: int, len: int) -> int {
    if cursor == 0 {
        len - 1
    } else {
        cursor - 1
    }
}

/// A non-empty list of candidates with one of them selected.
pub struct CandidateList {
    candidates: Vec<Candidate>,
    cursor: usize,
}

impl View for CandidateList {
    type V = CandidateListView;

    closed spec fn view(&self) -> CandidateListView {
        CandidateListView { texts: texts_of(self.candidates@), cursor: self.cursor as int }
    }
}

impl CandidateList {
    #[verifier::type_invariant]
    spec fn well_formed(self) -> bool {
        0 <= self.cursor < self.candidates@.len()
    }

    /// A list of the given candidates with the first one selected, or `None`
    /// when there are none.
    pub fn new(candidates: Vec<Candidate>) -> (r: Option<Self>)
        ensures
            r is Some <==> candidates@.len() > 0,
            r matches Some(l) ==> l@ == (CandidateListView { texts: texts_of(candidates@), cursor: 0 }),
    {
        if candidates.len() == 0 {
            None
        } else {
            Some(CandidateList { candidates, cursor: 0 })
        }
    }

    /// The index of the selected candidate.
    pub fn cursor(&self) -> (r: usize)
        ensures
            r as int == self@.cursor,
            r < self@.texts.len(),
    {
        proof {
            use_type_invariant(self);
        }
        self.cursor
    }

    /// The number of candidates.
    pub fn len(&self) -> (r: usize)
        ensures
            r as int == self@.texts.len(),
            r > 0,
    {
        proof {
            use_type_invariant(self);
        }
        self.candidates.len()
    }

    /// All candidates, in order.
    pub fn candidates(&self) -> (r: &Vec<Candidate>)
        ensures
            texts_of(r@) == self@.texts,
    {
        &self.candidates
    }

    /// The selected candidate.
    pub fn selected(&self) -> (r: Option<&Candidate>)
        ensures
            r matches Some(c) && c@ == self@.texts[self@.cursor],
    {
        proof {
            use_type_invariant(self);
        }
        Some(&self.candidates[self.cursor])
    }

    /// A copy of the selected candidate's text.
    pub fn selected_text(&self) -> (r: String)
        ensures
            r@ == self@.texts[self@.cursor],
    {
        proof {
            use_type_invariant(self);
        }
        self.candidates[self.cursor].text.clone()
    }

    /// Selects the next candidate, wrapping around after the last.
    pub fn select_next(&mut self)
        ensures
            final(self)@ == (CandidateListView {
                texts: old(self)@.texts,
                cursor: next_cursor(old(self)@.cursor, old(self)@.texts.len() as int),
            }),
    {
        proof {
            use_type_invariant(&*self);
        }
        if self.cursor < self.candidates.len() - 1 {
            self.cursor = self.cursor + 1;
        } else {
            self.cursor = 0;
        }
    }

    /// Selects the previous candidate, wrapping around before the first.
    pub fn select_prev(&mut self)
        ensures
            final(self)@ == (CandidateListView {
                texts: old(self)@.texts,
                cursor: prev_cursor(old(self)@.cursor, old(self)@.texts.len() as int),
            }),
    {
        proof {
            use_type_invariant(&*self);
        }
        if self.cursor == 0 {
            self.cursor = self.candidates.len() - 1;
        } else {
            self.cursor = self.cursor - 1;
        }
    }
}

} // verus!
