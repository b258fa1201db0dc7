//! ASCII text: one byte for each character.

use crate::kmer::occurs_at;
use vstd::prelude::*;
use vstd::string::StringSliceAdditionalSpecFns;
use vstd::utf8::encode_utf8;
use vstd::utf8::is_ascii_chars;
use vstd::utf8::is_ascii_chars_encode_utf8;

verus! {

/// The bytes of an ASCII text: the code of each character.
pub open spec fn ascii_bytes(text: Seq<char>) -> Seq<u8> {
    Seq::new(text.len(), |i: int| text[i] as u8)
}

/// The UTF-8 encoding of an ASCII text is the code of each character.
pub proof fn lemma_ascii_encoding(text: Seq<char>)
    requires
        is_ascii_chars(text),
    ensures
        encode_utf8(text) == ascii_bytes(text),
{
    is_ascii_chars_encode_utf8(text);
    assert(encode_utf8(text) =~= ascii_bytes(text));
}

/// In ASCII text, bytes and characters are the same thing: a pattern stands
/// at a byte offset if and only if it stands there character by character.
pub proof fn lemma_ascii_occurrence(text: Seq<char>, pattern: Seq<char>, at: int)
    requires
        is_ascii_chars(text),
        is_ascii_chars(pattern),
    ensures
        occurs_at(ascii_bytes(text), ascii_bytes(pattern), at) <==> occurs_at(text, pattern, at),
{
    let text_bytes = ascii_bytes(text);
    let pattern_bytes = ascii_bytes(pattern);
    if 0 <= at && at + pattern.len() <= text.len() {
        let window = text.subrange(at, at + pattern.len());
        let window_bytes = text_bytes.subrange(at, at + pattern.len());
        if window_bytes == pattern_bytes {
            assert forall|i: int| 0 <= i < pattern.len() implies window[i] == pattern[i] by {
                assert(window_bytes[i] == pattern_bytes[i]);
                assert(text[at + i] as u8 == pattern[i] as u8);
            }
            assert(window =~= pattern);
        }
        if window == pattern {
            assert(window_bytes =~= pattern_bytes);
        }
    }
}

/// The number of characters of an ASCII text, which is the number of its
/// bytes.
pub(crate) fn ascii_len(text: &str) -> (len: usize)
    requires
        text.is_ascii(),
    ensures
        len == text@.len(),
        len == text.spec_bytes().len(),
{
    proof {
        is_ascii_chars_encode_utf8(text@);
    }
    text.as_bytes().len()
}

} // verus!
