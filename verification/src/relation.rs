//! One relation between the k-mers of a sequence and those of a reverse
//! complement, as a row-major bit matrix, and how the index fills it.

use crate::ascii::ascii_bytes;
use crate::ascii::ascii_len;
use crate::ascii::lemma_ascii_encoding;
use crate::ascii::lemma_ascii_occurrence;
use crate::bits::bits_of;
use crate::bits::max_bits;
use crate::bits::repeated_bits;
use crate::bits::set_bit;
use crate::bits::Bits;
use crate::index::found_at;
use crate::index::lists_occurrences;
use crate::index::ExactIndex;
use crate::kmer::cell;
use crate::kmer::kmer;
use crate::kmer::kmer_count;
use crate::kmer::kmers_match;
use crate::kmer::lemma_cell_in_bounds;
use crate::kmer::lemma_cell_injective;
use crate::kmer::lemma_occurrence_is_match;
use vstd::prelude::*;
use vstd::string::StrSliceExecFns;
use vstd::string::StringSliceAdditionalSpecFns;
use vstd::utf8::is_ascii_chars;

verus! {

/// `bits` is a matrix with a row for each k-mer of `primary` and a column for
/// each k-mer of `secondary`, in which the columns before `done` are
/// filled: there a bit is set if and only if the two k-mers are equal. The
/// bits of the other columns are clear.
pub open spec fn filled_before(
    bits: Seq<bool>,
    primary: Seq<char>,
    secondary: Seq<char>,
    k: nat,
    done: int,
) -> bool {
    let rows = kmer_count(primary.len(), k) as int;
    let columns = kmer_count(secondary.len(), k) as int;
    &&& bits.len() == rows * columns
    &&& forall|p: int, s: int|
        0 <= p < rows && 0 <= s < columns ==> bits[#[trigger] cell(p, s, columns)] == (s < done
            && kmers_match(primary, p, secondary, s, k))
}

/// `bits` is the whole relation between the k-mers of `primary` and those of
/// `secondary`: the bit of a pair is set if and only if the two k-mers are
/// equal.
pub open spec fn holds_relation(
    bits: Seq<bool>,
    primary: Seq<char>,
    secondary: Seq<char>,
    k: nat,
) -> bool {
    filled_before(bits, primary, secondary, k, kmer_count(secondary.len(), k) as int)
}

/// What the index finds for a k-mer of `secondary` are the k-mers of `primary`
/// that equal it.
pub proof fn lemma_found_are_matches(
    found: Seq<u32>,
    primary: Seq<char>,
    secondary: Seq<char>,
    secondary_at: int,
    k: nat,
)
    requires
        is_ascii_chars(primary),
        is_ascii_chars(secondary),
        1 <= k,
        0 <= secondary_at,
        secondary_at + k <= secondary.len(),
        lists_occurrences(
            found,
            ascii_bytes(primary),
            ascii_bytes(kmer(secondary, secondary_at, k)),
        ),
    ensures
        forall|p: int|
            found_at(found, p) <==> 0 <= p < kmer_count(primary.len(), k) && kmers_match(
                primary,
                p,
                secondary,
                secondary_at,
                k,
            ),
{
    let pattern = kmer(secondary, secondary_at, k);
    assert(is_ascii_chars(pattern));
    assert forall|p: int|
        found_at(found, p) <==> 0 <= p < kmer_count(primary.len(), k) && kmers_match(
            primary,
            p,
            secondary,
            secondary_at,
            k,
        ) by {
        lemma_ascii_occurrence(primary, pattern, p);
        lemma_occurrence_is_match(primary, p, secondary, secondary_at, k);
    }
}

/// Sets, in one column of a matrix, the bit of each row in `found`.
fn mark_column(bits: &mut Bits, found: &[u32], column: usize, rows: usize, columns: usize)
    requires
        bits_of(*old(bits)).len() == rows * columns,
        rows * columns <= usize::MAX,
        column < columns,
        forall|i: int| 0 <= i < found@.len() ==> #[trigger] found@[i] < rows,
    ensures
        bits_of(*final(bits)).len() == rows * columns,
        forall|p: int, s: int|
            0 <= p < rows && 0 <= s < columns ==> bits_of(*final(bits))[#[trigger] cell(
                p,
                s,
                columns as int,
            )] == (bits_of(*old(bits))[cell(p, s, columns as int)] || (s == column && found_at(
                found@,
                p,
            ))),
{
    let ghost before = bits_of(*bits);
    let mut i: usize = 0;
    while i < found.len()
        invariant
            i <= found@.len(),
            bits_of(*bits).len() == rows * columns,
            before.len() == rows * columns,
            rows * columns <= usize::MAX,
            column < columns,
            forall|j: int| 0 <= j < found@.len() ==> #[trigger] found@[j] < rows,
            forall|p: int, s: int|
                0 <= p < rows && 0 <= s < columns ==> bits_of(*bits)[#[trigger] cell(
                    p,
                    s,
                    columns as int,
                )] == (before[cell(p, s, columns as int)] || (s == column && found_at(
                    found@.take(i as int),
                    p,
                ))),
        decreases found@.len() - i,
    {
        let row: usize = found[i] as usize;
        proof {
            lemma_cell_in_bounds(row as int, column as int, rows as int, columns as int);
        }
        set_bit(bits, row * columns + column, true);
        proof {
            let marked = found@.take(i as int);
            let extended = found@.take(i + 1);
            assert(extended[i as int] as int == row);
            assert forall|p: int, s: int| 0 <= p < rows && 0 <= s < columns implies bits_of(
                *bits,
            )[#[trigger] cell(p, s, columns as int)] == (before[cell(p, s, columns as int)] || (s
                == column && found_at(extended, p))) by {
                lemma_cell_in_bounds(p, s, rows as int, columns as int);
                if cell(p, s, columns as int) == cell(row as int, column as int, columns as int) {
                    lemma_cell_injective(p, s, row as int, column as int, columns as int);
                    assert(found_at(extended, p));
                } else {
                    if found_at(marked, p) {
                        let j = choose|j: int|
                            0 <= j < marked.len() && #[trigger] marked[j] as int == p;
                        assert(extended[j] as int == p);
                    }
                    if s == column && found_at(extended, p) {
                        let j = choose|j: int|
                            0 <= j < extended.len() && #[trigger] extended[j] as int == p;
                        assert(j < i);
                        assert(marked[j] as int == p);
                    }
                }
            }
        }
        i += 1;
    }
    proof {
        assert(found@.take(found@.len() as int) =~= found@);
    }
}

/// Whether a matrix of `rows` x `columns` bits can be held.
pub(crate) fn fits(rows: usize, columns: usize) -> (fitting: bool)
    ensures
        fitting == (rows * columns <= max_bits()),
{
    match rows.checked_mul(columns) {
        Some(cells) => cells <= usize::MAX / 8,
        None => false,
    }
}

/// The relations of the reference's and of the query's k-mers to the k-mers
/// of one reverse complement, `secondary`. Each k-mer of `secondary` is
/// looked up once, in both indexes.
pub(crate) fn relate(
    reference: &str,
    reference_index: &ExactIndex,
    query: &str,
    query_index: &ExactIndex,
    secondary: &str,
    minimum_length: usize,
) -> (relations: (Bits, Bits))
    requires
        reference.is_ascii(),
        query.is_ascii(),
        secondary.is_ascii(),
        reference_index.bytes() == reference.spec_bytes(),
        query_index.bytes() == query.spec_bytes(),
        1 <= minimum_length <= reference@.len(),
        minimum_length <= query@.len(),
        minimum_length <= secondary@.len(),
        kmer_count(reference@.len(), minimum_length as nat) * kmer_count(
            secondary@.len(),
            minimum_length as nat,
        ) <= max_bits(),
        kmer_count(query@.len(), minimum_length as nat) * kmer_count(
            secondary@.len(),
            minimum_length as nat,
        ) <= max_bits(),
    ensures
        holds_relation(bits_of(relations.0), reference@, secondary@, minimum_length as nat),
        holds_relation(bits_of(relations.1), query@, secondary@, minimum_length as nat),
{
    let ghost k = minimum_length as nat;
    let columns: usize = ascii_len(secondary) - minimum_length + 1;
    let reference_rows: usize = ascii_len(reference) - minimum_length + 1;
    let query_rows: usize = ascii_len(query) - minimum_length + 1;
    proof {
        lemma_ascii_encoding(reference@);
        lemma_ascii_encoding(query@);
    }
    let mut from_reference = repeated_bits(false, reference_rows * columns);
    let mut from_query = repeated_bits(false, query_rows * columns);
    proof {
        assert forall|p: int, s: int| 0 <= p < reference_rows && 0 <= s < columns implies !bits_of(
            from_reference,
        )[#[trigger] cell(p, s, columns as int)] by {
            lemma_cell_in_bounds(p, s, reference_rows as int, columns as int);
        }
        assert forall|p: int, s: int| 0 <= p < query_rows && 0 <= s < columns implies !bits_of(
            from_query,
        )[#[trigger] cell(p, s, columns as int)] by {
            lemma_cell_in_bounds(p, s, query_rows as int, columns as int);
        }
    }
    let mut column: usize = 0;
    while column < columns
        invariant
            column <= columns,
            columns == kmer_count(secondary@.len(), k),
            columns + minimum_length - 1 == secondary@.len() <= usize::MAX,
            reference_rows == kmer_count(reference@.len(), k),
            query_rows == kmer_count(query@.len(), k),
            k == minimum_length,
            reference.is_ascii(),
            query.is_ascii(),
            secondary.is_ascii(),
            reference_index.bytes() == ascii_bytes(reference@),
            query_index.bytes() == ascii_bytes(query@),
            1 <= minimum_length <= secondary@.len(),
            reference_rows * columns <= max_bits(),
            query_rows * columns <= max_bits(),
            filled_before(bits_of(from_reference), reference@, secondary@, k, column as int),
            filled_before(bits_of(from_query), query@, secondary@, k, column as int),
        decreases columns - column,
    {
        let pattern = secondary.substring_ascii(column, column + minimum_length);
        proof {
            assert(pattern@ == kmer(secondary@, column as int, k));
            lemma_ascii_encoding(pattern@);
        }
        let in_reference = reference_index.positions(pattern);
        proof {
            lemma_found_are_matches(in_reference@, reference@, secondary@, column as int, k);
            assert forall|i: int| 0 <= i < in_reference@.len() implies #[trigger] in_reference@[i]
                < reference_rows by {
                assert(found_at(in_reference@, in_reference@[i] as int));
            }
        }
        mark_column(&mut from_reference, in_reference, column, reference_rows, columns);
        let in_query = query_index.positions(pattern);
        proof {
            lemma_found_are_matches(in_query@, query@, secondary@, column as int, k);
            assert forall|i: int| 0 <= i < in_query@.len() implies #[trigger] in_query@[i]
                < query_rows by {
                assert(found_at(in_query@, in_query@[i] as int));
            }
        }
        mark_column(&mut from_query, in_query, column, query_rows, columns);
        column += 1;
    }
    (from_reference, from_query)
}

} // verus!
