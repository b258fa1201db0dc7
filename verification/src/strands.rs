//! A genome sequence as text: its forward strand and its reverse complement.

use crate::ascii::ascii_len;
use vstd::prelude::*;
use vstd::utf8::is_ascii_chars;

verus! {

/// What a [`GenomeStrands`] holds: two texts of one length.
pub struct StrandsView {
    pub forward: Seq<char>,
    pub reverse_complement: Seq<char>,
}

impl StrandsView {
    /// Both texts are ASCII, one character per symbol, and have the same
    /// number of symbols.
    pub open spec fn wf(self) -> bool {
        &&& is_ascii_chars(self.forward)
        &&& is_ascii_chars(self.reverse_complement)
        &&& self.forward.len() == self.reverse_complement.len()
    }
}

/// A sequence rendered as ASCII text, one character per symbol, together with
/// the text of its reverse complement.
pub struct GenomeStrands {
    forward: String,
    reverse_complement: String,
}

impl View for GenomeStrands {
    type V = StrandsView;

    closed spec fn view(&self) -> StrandsView {
        StrandsView { forward: self.forward@, reverse_complement: self.reverse_complement@ }
    }
}

impl GenomeStrands {
    #[verifier::type_invariant]
    spec fn well_formed(&self) -> bool {
        self@.wf()
    }

    /// Pairs a text with the text of its reverse complement. Refused unless
    /// both are ASCII and of the same length.
    pub fn new(forward: String, reverse_complement: String) -> (strands: Option<GenomeStrands>)
        ensures
            strands.is_some() <==> (StrandsView {
                forward: forward@,
                reverse_complement: reverse_complement@,
            }).wf(),
            strands matches Some(s) ==> s@.forward == forward@ && s@.reverse_complement
                == reverse_complement@,
    {
        let forward_text = forward.as_str();
        let reverse_complement_text = reverse_complement.as_str();
        let accepted = forward_text.is_ascii() && reverse_complement_text.is_ascii()
            && ascii_len(forward_text) == ascii_len(reverse_complement_text);
        if accepted {
            Some(GenomeStrands { forward, reverse_complement })
        } else {
            None
        }
    }

    /// The number of symbols of the sequence.
    pub fn len(&self) -> (len: usize)
        ensures
            len == self@.forward.len(),
            len == self@.reverse_complement.len(),
    {
        proof {
            use_type_invariant(self);
        }
        ascii_len(self.forward.as_str())
    }

    /// The text of the forward strand.
    pub fn forward(&self) -> (text: &str)
        ensures
            text@ == self@.forward,
            self@.wf(),
    {
        proof {
            use_type_invariant(self);
        }
        self.forward.as_str()
    }

    /// The text of the reverse complement.
    pub fn reverse_complement(&self) -> (text: &str)
        ensures
            text@ == self@.reverse_complement,
            self@.wf(),
    {
        proof {
            use_type_invariant(self);
        }
        self.reverse_complement.as_str()
    }
}

} // verus!
