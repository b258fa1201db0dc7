//! K-mers of a text, and the addressing of a k-mer pair in a flat bit matrix.

use vstd::prelude::*;

verus! {

/// How many k-mers of length `k` a sequence of `len` symbols has: one for each
/// start offset at which `k` symbols are left, none if the sequence is shorter
/// than `k`.
pub open spec fn kmer_count(len: nat, k: nat) -> nat {
    if k <= len {
        (len - k + 1) as nat
    } else {
        0
    }
}

/// The k-mer of `text` that starts at offset `at`.
pub open spec fn kmer<T>(text: Seq<T>, at: int, k: nat) -> Seq<T>
    recommends
        0 <= at,
        at + k <= text.len(),
{
    text.subrange(at, at + k)
}

/// The k-mer of `primary` at `primary_at` equals the k-mer of `secondary` at
/// `secondary_at`.
pub open spec fn kmers_match<T>(
    primary: Seq<T>,
    primary_at: int,
    secondary: Seq<T>,
    secondary_at: int,
    k: nat,
) -> bool {
    kmer(primary, primary_at, k) == kmer(secondary, secondary_at, k)
}

/// `pattern` stands in `text` at offset `at`.
pub open spec fn occurs_at<T>(text: Seq<T>, pattern: Seq<T>, at: int) -> bool {
    &&& 0 <= at
    &&& at + pattern.len() <= text.len()
    &&& text.subrange(at, at + pattern.len()) == pattern
}

/// Where the bit of the pair (`row`, `column`) lies in a row-major matrix with
/// `columns` columns.
pub open spec fn cell(row: int, column: int, columns: int) -> int {
    row * columns + column
}

/// A cell of a `rows` x `columns` matrix lies within its `rows * columns` bits.
pub proof fn lemma_cell_in_bounds(row: int, column: int, rows: int, columns: int)
    requires
        0 <= row < rows,
        0 <= column < columns,
    ensures
        0 <= cell(row, column, columns) < rows * columns,
{
    assert(0 <= row * columns && row * columns + columns <= rows * columns)
        by (nonlinear_arith)
        requires
            0 <= row < rows,
            0 < columns,
    ;
}

/// Two different pairs never share a cell.
pub proof fn lemma_cell_injective(
    row: int,
    column: int,
    other_row: int,
    other_column: int,
    columns: int,
)
    requires
        0 <= column < columns,
        0 <= other_column < columns,
        cell(row, column, columns) == cell(other_row, other_column, columns),
    ensures
        row == other_row,
        column == other_column,
{
    assert(row == other_row) by (nonlinear_arith)
        requires
            0 <= column < columns,
            0 <= other_column < columns,
            row * columns + column == other_row * columns + other_column,
    ;
}

/// An occurrence of a k-mer of `secondary` in `primary` is a matching pair of
/// k-mers, and the other way round.
pub proof fn lemma_occurrence_is_match<T>(
    primary: Seq<T>,
    primary_at: int,
    secondary: Seq<T>,
    secondary_at: int,
    k: nat,
)
    requires
        0 <= secondary_at,
        secondary_at + k <= secondary.len(),
    ensures
        occurs_at(primary, kmer(secondary, secondary_at, k), primary_at) <==> {
            &&& 0 <= primary_at < kmer_count(primary.len(), k)
            &&& kmers_match(primary, primary_at, secondary, secondary_at, k)
        },
{
}

} // verus!
