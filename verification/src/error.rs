//! Why a match table cannot be built.

use vstd::prelude::*;

verus! {

/// The reasons for which the construction of a match table is refused.
#[derive(Debug, Clone, Copy, PartialEq, Eq, Structural)]
pub enum MatchTableError {
    /// The minimum length is zero.
    ZeroMinimumLength,
    /// The reference has fewer symbols than the minimum length.
    ReferenceTooShort,
    /// The query has fewer symbols than the minimum length.
    QueryTooShort,
    /// A relation has more k-mer pairs than a bit matrix can hold.
    TableTooLarge,
    /// A sequence has more symbols than the index can address.
    SequenceTooLong,
}

} // verus!
