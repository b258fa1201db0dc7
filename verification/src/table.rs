//! The match table: the four relations between the k-mers of a reference and
//! a query and the k-mers of their reverse complements.

use crate::bits::bit_at;
use crate::bits::bits_of;
use crate::bits::max_bits;
use crate::bits::Bits;
use crate::error::MatchTableError;
use crate::index::ExactIndex;
use crate::kmer::cell;
use crate::kmer::kmer_count;
use crate::kmer::kmers_match;
use crate::kmer::lemma_cell_in_bounds;
use crate::relation::fits;
use crate::relation::holds_relation;
use crate::relation::relate;
use crate::strands::GenomeStrands;
use crate::strands::StrandsView;
use vstd::prelude::*;
use vstd::utf8::is_ascii_chars_encode_utf8;

verus! {

/// What a [`MatchTable`] was built from.
pub struct MatchTableView {
    pub reference: StrandsView,
    pub query: StrandsView,
    pub minimum_length: nat,
}

impl MatchTableView {
    /// The number of k-mers of the reference, and of its reverse complement.
    pub open spec fn reference_kmer_count(self) -> nat {
        kmer_count(self.reference.forward.len(), self.minimum_length)
    }

    /// The number of k-mers of the query, and of its reverse complement.
    pub open spec fn query_kmer_count(self) -> nat {
        kmer_count(self.query.forward.len(), self.minimum_length)
    }

    /// The k-mer of the reference at `primary_index` equals the k-mer of the
    /// reference's reverse complement at `secondary_rc_index`.
    pub open spec fn reference_reference(self, primary_index: int, secondary_rc_index: int) -> bool {
        kmers_match(
            self.reference.forward,
            primary_index,
            self.reference.reverse_complement,
            secondary_rc_index,
            self.minimum_length,
        )
    }

    /// The k-mer of the reference at `primary_index` equals the k-mer of the
    /// query's reverse complement at `secondary_rc_index`.
    pub open spec fn reference_query(self, primary_index: int, secondary_rc_index: int) -> bool {
        kmers_match(
            self.reference.forward,
            primary_index,
            self.query.reverse_complement,
            secondary_rc_index,
            self.minimum_length,
        )
    }

    /// The k-mer of the query at `primary_index` equals the k-mer of the
    /// reference's reverse complement at `secondary_rc_index`.
    pub open spec fn query_reference(self, primary_index: int, secondary_rc_index: int) -> bool {
        kmers_match(
            self.query.forward,
            primary_index,
            self.reference.reverse_complement,
            secondary_rc_index,
            self.minimum_length,
        )
    }

    /// The k-mer of the query at `primary_index` equals the k-mer of the
    /// query's reverse complement at `secondary_rc_index`.
    pub open spec fn query_query(self, primary_index: int, secondary_rc_index: int) -> bool {
        kmers_match(
            self.query.forward,
            primary_index,
            self.query.reverse_complement,
            secondary_rc_index,
            self.minimum_length,
        )
    }
}

/// Why no table is built for sequences of `reference_len` and `query_len`
/// symbols and k-mers of `minimum_length` symbols, if none is. The first
/// reason that applies is given.
pub open spec fn construction_error(
    reference_len: nat,
    query_len: nat,
    minimum_length: nat,
) -> Option<MatchTableError> {
    let reference_kmers = kmer_count(reference_len, minimum_length);
    let query_kmers = kmer_count(query_len, minimum_length);
    if minimum_length == 0 {
        Some(MatchTableError::ZeroMinimumLength)
    } else if minimum_length > reference_len {
        Some(MatchTableError::ReferenceTooShort)
    } else if minimum_length > query_len {
        Some(MatchTableError::QueryTooShort)
    } else if reference_kmers * reference_kmers > max_bits() || reference_kmers * query_kmers
        > max_bits() || query_kmers * query_kmers > max_bits() {
        Some(MatchTableError::TableTooLarge)
    } else if reference_len > u32::MAX || query_len > u32::MAX {
        Some(MatchTableError::SequenceTooLong)
    } else {
        None
    }
}

/// All exact matches between the k-mers of a reference and a query and the
/// k-mers of their reverse complements.
pub struct MatchTable {
    reference_reference: Bits,
    reference_query: Bits,
    query_reference: Bits,
    query_query: Bits,
    reference_kmer_count: usize,
    query_kmer_count: usize,
    sources: Ghost<MatchTableView>,
}

impl View for MatchTable {
    type V = MatchTableView;

    closed spec fn view(&self) -> MatchTableView {
        self.sources@
    }
}

impl MatchTable {
    #[verifier::type_invariant]
    spec fn well_formed(&self) -> bool {
        let reference = self@.reference;
        let query = self@.query;
        let k = self@.minimum_length;
        &&& reference.wf()
        &&& query.wf()
        &&& 1 <= k <= reference.forward.len()
        &&& k <= query.forward.len()
        &&& self.reference_kmer_count == self@.reference_kmer_count()
        &&& self.query_kmer_count == self@.query_kmer_count()
        &&& self.reference_kmer_count * self.reference_kmer_count <= usize::MAX
        &&& self.reference_kmer_count * self.query_kmer_count <= usize::MAX
        &&& self.query_kmer_count * self.query_kmer_count <= usize::MAX
        &&& holds_relation(
            bits_of(self.reference_reference),
            reference.forward,
            reference.reverse_complement,
            k,
        )
        &&& holds_relation(
            bits_of(self.reference_query),
            reference.forward,
            query.reverse_complement,
            k,
        )
        &&& holds_relation(
            bits_of(self.query_reference),
            query.forward,
            reference.reverse_complement,
            k,
        )
        &&& holds_relation(bits_of(self.query_query), query.forward, query.reverse_complement, k)
    }

    /// Finds every pair of a k-mer of the reference or the query and an equal
    /// k-mer of the reverse complement of the reference or the query, for
    /// k-mers of `minimum_length` symbols.
    ///
    /// The table is refused, with the first reason of [`construction_error`]
    /// that applies, and built otherwise.
    pub fn new(reference: &GenomeStrands, query: &GenomeStrands, minimum_length: usize) -> (built:
        Result<MatchTable, MatchTableError>)
        ensures
            match built {
                Ok(table) => {
                    &&& construction_error(
                        reference@.forward.len(),
                        query@.forward.len(),
                        minimum_length as nat,
                    ) is None
                    &&& table@ == (MatchTableView {
                        reference: reference@,
                        query: query@,
                        minimum_length: minimum_length as nat,
                    })
                },
                Err(error) => construction_error(
                    reference@.forward.len(),
                    query@.forward.len(),
                    minimum_length as nat,
                ) == Some(error),
            },
    {
        let reference_len = reference.len();
        let query_len = query.len();
        if minimum_length == 0 {
            return Err(MatchTableError::ZeroMinimumLength);
        }
        if minimum_length > reference_len {
            return Err(MatchTableError::ReferenceTooShort);
        }
        if minimum_length > query_len {
            return Err(MatchTableError::QueryTooShort);
        }
        let reference_kmer_count = reference_len - minimum_length + 1;
        let query_kmer_count = query_len - minimum_length + 1;
        let reference_text = reference.forward();
        let query_text = query.forward();
        proof {
            is_ascii_chars_encode_utf8(reference_text@);
            is_ascii_chars_encode_utf8(query_text@);
        }
        if !fits(reference_kmer_count, reference_kmer_count) || !fits(
            reference_kmer_count,
            query_kmer_count,
        ) || !fits(query_kmer_count, query_kmer_count) {
            return Err(MatchTableError::TableTooLarge);
        }
        let (reference_index, query_index) = match (
            ExactIndex::build(reference_text),
            ExactIndex::build(query_text),
        ) {
            (Some(reference_index), Some(query_index)) => (reference_index, query_index),
            _ => {
                return Err(MatchTableError::SequenceTooLong);
            },
        };
        proof {
            assert(query_kmer_count * reference_kmer_count == reference_kmer_count
                * query_kmer_count) by (nonlinear_arith);
        }
        let (reference_reference, query_reference) = relate(
            reference_text,
            &reference_index,
            query_text,
            &query_index,
            reference.reverse_complement(),
            minimum_length,
        );
        let (reference_query, query_query) = relate(
            reference_text,
            &reference_index,
            query_text,
            &query_index,
            query.reverse_complement(),
            minimum_length,
        );
        Ok(
            MatchTable {
                reference_reference,
                reference_query,
                query_reference,
                query_query,
                reference_kmer_count,
                query_kmer_count,
                sources: Ghost(
                    MatchTableView {
                        reference: reference@,
                        query: query@,
                        minimum_length: minimum_length as nat,
                    },
                ),
            },
        )
    }

    /// The number of k-mers of the reference: the bound of every index into
    /// the reference or its reverse complement.
    pub fn reference_kmer_count(&self) -> (count: usize)
        ensures
            count == self@.reference_kmer_count(),
            count == self@.reference.forward.len() - self@.minimum_length + 1,
            count >= 1,
    {
        proof {
            use_type_invariant(self);
        }
        self.reference_kmer_count
    }

    /// The number of k-mers of the query: the bound of every index into the
    /// query or its reverse complement.
    pub fn query_kmer_count(&self) -> (count: usize)
        ensures
            count == self@.query_kmer_count(),
            count == self@.query.forward.len() - self@.minimum_length + 1,
            count >= 1,
    {
        proof {
            use_type_invariant(self);
        }
        self.query_kmer_count
    }

    /// Whether the k-mer of the reference at `primary_index` equals the k-mer
    /// of the reverse complement of the reference at `secondary_rc_index`.
    pub fn has_reference_reference_match(
        &self,
        primary_index: usize,
        secondary_rc_index: usize,
    ) -> (matched: bool)
        requires
            primary_index < self@.reference_kmer_count(),
            secondary_rc_index < self@.reference_kmer_count(),
        ensures
            matched == self@.reference_reference(primary_index as int, secondary_rc_index as int),
    {
        proof {
            use_type_invariant(self);
        }
        stored_bit(
            &self.reference_reference,
            primary_index,
            secondary_rc_index,
            self.reference_kmer_count,
            self.reference_kmer_count,
            Ghost(self@.reference.forward),
            Ghost(self@.reference.reverse_complement),
            Ghost(self@.minimum_length),
        )
    }

    /// Whether the k-mer of the reference at `primary_index` equals the k-mer
    /// of the reverse complement of the query at `secondary_rc_index`.
    pub fn has_reference_query_match(
        &self,
        primary_index: usize,
        secondary_rc_index: usize,
    ) -> (matched: bool)
        requires
            primary_index < self@.reference_kmer_count(),
            secondary_rc_index < self@.query_kmer_count(),
        ensures
            matched == self@.reference_query(primary_index as int, secondary_rc_index as int),
    {
        proof {
            use_type_invariant(self);
        }
        stored_bit(
            &self.reference_query,
            primary_index,
            secondary_rc_index,
            self.reference_kmer_count,
            self.query_kmer_count,
            Ghost(self@.reference.forward),
            Ghost(self@.query.reverse_complement),
            Ghost(self@.minimum_length),
        )
    }

    /// Whether the k-mer of the query at `primary_index` equals the k-mer of
    /// the reverse complement of the reference at `secondary_rc_index`.
    pub fn has_query_reference_match(
        &self,
        primary_index: usize,
        secondary_rc_index: usize,
    ) -> (matched: bool)
        requires
            primary_index < self@.query_kmer_count(),
            secondary_rc_index < self@.reference_kmer_count(),
        ensures
            matched == self@.query_reference(primary_index as int, secondary_rc_index as int),
    {
        proof {
            use_type_invariant(self);
            assert(self.query_kmer_count * self.reference_kmer_count == self.reference_kmer_count
                * self.query_kmer_count) by (nonlinear_arith);
        }
        stored_bit(
            &self.query_reference,
            primary_index,
            secondary_rc_index,
            self.query_kmer_count,
            self.reference_kmer_count,
            Ghost(self@.query.forward),
            Ghost(self@.reference.reverse_complement),
            Ghost(self@.minimum_length),
        )
    }

    /// Whether the k-mer of the query at `primary_index` equals the k-mer of
    /// the reverse complement of the query at `secondary_rc_index`.
    pub fn has_query_query_match(&self, primary_index: usize, secondary_rc_index: usize) -> (matched:
        bool)
        requires
            primary_index < self@.query_kmer_count(),
            secondary_rc_index < self@.query_kmer_count(),
        ensures
            matched == self@.query_query(primary_index as int, secondary_rc_index as int),
    {
        proof {
            use_type_invariant(self);
        }
        stored_bit(
            &self.query_query,
            primary_index,
            secondary_rc_index,
            self.query_kmer_count,
            self.query_kmer_count,
            Ghost(self@.query.forward),
            Ghost(self@.query.reverse_complement),
            Ghost(self@.minimum_length),
        )
    }
}

/// The bit of one pair of k-mers in a relation.
fn stored_bit(
    bits: &Bits,
    row: usize,
    column: usize,
    rows: usize,
    columns: usize,
    Ghost(primary): Ghost<Seq<char>>,
    Ghost(secondary): Ghost<Seq<char>>,
    Ghost(k): Ghost<nat>,
) -> (bit: bool)
    requires
        holds_relation(bits_of(*bits), primary, secondary, k),
        rows == kmer_count(primary.len(), k),
        columns == kmer_count(secondary.len(), k),
        rows * columns <= usize::MAX,
        row < rows,
        column < columns,
    ensures
        bit == kmers_match(primary, row as int, secondary, column as int, k),
{
    proof {
        lemma_cell_in_bounds(row as int, column as int, rows as int, columns as int);
        assert(cell(row as int, column as int, columns as int) == row * columns + column);
    }
    bit_at(bits, row * columns + column)
}

} // verus!
