//! The exact-substring index: a suffix table of the `suffix` crate over the
//! bytes of one text.

use crate::kmer::occurs_at;
use suffix::SuffixTable;
use vstd::prelude::*;
use vstd::string::StringSliceAdditionalSpecFns;

verus! {

/// `suffix::SuffixTable`, whose inside is not looked at here.
#[verifier::external_type_specification]
#[verifier::external_body]
pub struct ExSuffixTable<'s, 't>(SuffixTable<'s, 't>);

/// The bytes of the text that a suffix table was built over.
pub uninterp spec fn indexed_bytes(table: SuffixTable) -> Seq<u8>;

/// `at` is one of the offsets in `found`.
pub open spec fn found_at(found: Seq<u32>, at: int) -> bool {
    exists|i: int| 0 <= i < found.len() && #[trigger] found[i] as int == at
}

/// `found` holds the offsets at which `pattern` stands in `text`, each of them
/// and nothing else, if `pattern` is not empty; it holds nothing if it is.
pub open spec fn lists_occurrences(found: Seq<u32>, text: Seq<u8>, pattern: Seq<u8>) -> bool {
    forall|at: int|
        #![trigger found_at(found, at)]
        #![trigger occurs_at(text, pattern, at)]
        found_at(found, at) <==> pattern.len() > 0 && occurs_at(text, pattern, at)
}

/// `SuffixTable::new` on a borrowed text: the table is one of that text's
/// bytes. The call panics on a text of more than `u32::MAX` bytes.
#[verifier::external_body]
pub(crate) fn suffix_table<'a>(text: &'a str) -> (table: SuffixTable<'a, 'a>)
    requires
        text.spec_bytes().len() <= u32::MAX,
    ensures
        indexed_bytes(table) == text.spec_bytes(),
{
    SuffixTable::new(text)
}

/// An index over one text that answers where a pattern stands in it. The
/// table it holds is always one that [`ExactIndex::build`] had from
/// `SuffixTable::new`.
pub struct ExactIndex<'a> {
    table: SuffixTable<'a, 'a>,
}

/// `SuffixTable::positions`, on the table of an index: the byte offsets at
/// which `query` starts in the indexed text, all of them and in no particular
/// order, and none for the empty query.
#[verifier::external_body]
fn suffix_positions<'a>(index: &'a ExactIndex, query: &str) -> (found: &'a [u32])
    ensures
        lists_occurrences(found@, indexed_bytes(index.table), query.spec_bytes()),
{
    index.table.positions(query)
}

impl<'a> ExactIndex<'a> {
    /// The bytes of the indexed text.
    pub closed spec fn bytes(&self) -> Seq<u8> {
        indexed_bytes(self.table)
    }

    /// Indexes `text`. Refused for a text of more than `u32::MAX` bytes, whose
    /// offsets the index could not hold.
    pub fn build(text: &'a str) -> (index: Option<ExactIndex<'a>>)
        ensures
            index.is_some() <==> text.spec_bytes().len() <= u32::MAX,
            index matches Some(built) ==> built.bytes() == text.spec_bytes(),
    {
        if text.as_bytes().len() > u32::MAX as usize {
            None
        } else {
            Some(ExactIndex { table: suffix_table(text) })
        }
    }

    /// The byte offsets at which `pattern` stands in the indexed text: every
    /// occurrence of a non-empty pattern, in no particular order, and nothing
    /// for the empty pattern. A pattern longer than the text stands nowhere.
    pub fn positions(&self, pattern: &str) -> (found: &[u32])
        ensures
            lists_occurrences(found@, self.bytes(), pattern.spec_bytes()),
            pattern.spec_bytes().len() == 0 || pattern.spec_bytes().len() > self.bytes().len()
                ==> found@.len() == 0,
    {
        let found = suffix_positions(self, pattern);
        assert(found@.len() > 0 ==> found_at(found@, found@[0] as int));
        found
    }
}

} // verus!
