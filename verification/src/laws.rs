//! What holds of k-mer counts, of refusals and of the relations, whatever
//! the sequences are.

use crate::kmer::kmer;
use crate::kmer::kmer_count;
use crate::kmer::kmers_match;
use crate::table::construction_error;
use crate::table::MatchTableView;
use vstd::prelude::*;

verus! {

/// A sequence of exactly `k` symbols has one k-mer, so that an index into
/// it is valid if and only if it is 0.
pub proof fn lemma_single_kmer(len: nat, k: nat, index: nat)
    requires
        1 <= k,
        len == k,
    ensures
        kmer_count(len, k) == 1,
        index < kmer_count(len, k) <==> index == 0,
{
}

/// A sequence of at least `k` symbols has `len - k + 1` k-mers, at least
/// one, and every k-mer lies within the sequence.
pub proof fn lemma_kmers_lie_within(len: nat, k: nat, index: nat)
    requires
        k <= len,
        index < kmer_count(len, k),
    ensures
        kmer_count(len, k) == len - k + 1,
        kmer_count(len, k) >= 1,
        index + k <= len,
{
}

/// No table is built for a minimum length of zero, nor for one that is
/// greater than the length of the reference or of the query.
pub proof fn lemma_refused_lengths(reference_len: nat, query_len: nat, minimum_length: nat)
    requires
        minimum_length == 0 || minimum_length > reference_len || minimum_length > query_len,
    ensures
        construction_error(reference_len, query_len, minimum_length) is Some,
{
}

/// Where a table is built, the minimum length is at least one and at most
/// the length of either sequence, so that either has a k-mer.
pub proof fn lemma_built_lengths(reference_len: nat, query_len: nat, minimum_length: nat)
    requires
        construction_error(reference_len, query_len, minimum_length) is None,
    ensures
        1 <= minimum_length <= reference_len,
        minimum_length <= query_len,
        kmer_count(reference_len, minimum_length) == reference_len - minimum_length + 1,
        kmer_count(query_len, minimum_length) == query_len - minimum_length + 1,
{
}

/// Two k-mers match if and only if they agree symbol by symbol: a match is
/// exact, with no tolerance for a mismatch.
pub proof fn lemma_match_compares_every_symbol<T>(
    primary: Seq<T>,
    primary_index: int,
    secondary: Seq<T>,
    secondary_rc_index: int,
    k: nat,
)
    requires
        0 <= primary_index,
        primary_index + k <= primary.len(),
        0 <= secondary_rc_index,
        secondary_rc_index + k <= secondary.len(),
    ensures
        kmers_match(primary, primary_index, secondary, secondary_rc_index, k) <==> forall|i: int|
            primary_index <= i < primary_index + k ==> #[trigger] primary[i] == secondary[i
                - primary_index + secondary_rc_index],
{
    let left = kmer(primary, primary_index, k);
    let right = kmer(secondary, secondary_rc_index, k);
    if left == right {
        assert forall|i: int| primary_index <= i < primary_index + k implies #[trigger] primary[i]
            == secondary[i - primary_index + secondary_rc_index] by {
            assert(left[i - primary_index] == right[i - primary_index]);
        }
    }
    if forall|i: int|
        primary_index <= i < primary_index + k ==> #[trigger] primary[i] == secondary[i
            - primary_index + secondary_rc_index] {
        assert forall|j: int| 0 <= j < k implies left[j] == right[j] by {
            assert(primary[primary_index + j] == secondary[primary_index + j - primary_index
                + secondary_rc_index]);
        }
        assert(left =~= right);
    }
}

/// Where the query is the reference, the four relations are one.
pub proof fn lemma_equal_sources_share_relations(
    sources: MatchTableView,
    primary_index: int,
    secondary_rc_index: int,
)
    requires
        sources.reference == sources.query,
    ensures
        sources.reference_query(primary_index, secondary_rc_index) == sources.reference_reference(
            primary_index,
            secondary_rc_index,
        ),
        sources.query_reference(primary_index, secondary_rc_index) == sources.reference_reference(
            primary_index,
            secondary_rc_index,
        ),
        sources.query_query(primary_index, secondary_rc_index) == sources.reference_reference(
            primary_index,
            secondary_rc_index,
        ),
{
}

} // verus!
