use compact_genome::implementation::alphabets::dna_alphabet::DnaAlphabet;
use compact_genome::implementation::vec_sequence::VectorGenome;
use compact_genome::interface::sequence::GenomeSequence;
use compact_genome::interface::sequence::OwnedGenomeSequence;
use template_switch_error_free_inners::GenomeStrands;
use template_switch_error_free_inners::MatchTable;
use template_switch_error_free_inners::MatchTableError;
use traitsequence::interface::Sequence;

fn strands(genome: &VectorGenome<DnaAlphabet>) -> GenomeStrands {
    let genome = genome.as_genome_subsequence();
    let reverse_complement =
        VectorGenome::<DnaAlphabet>::from_iter(genome.reverse_complement_iter()).as_string();
    GenomeStrands::new(genome.as_string(), reverse_complement).unwrap()
}

fn dna(text: &[u8]) -> VectorGenome<DnaAlphabet> {
    VectorGenome::<DnaAlphabet>::from_slice_u8(text).unwrap()
}

fn table(reference: &[u8], query: &[u8], minimum_length: usize) -> MatchTable {
    MatchTable::new(&strands(&dna(reference)), &strands(&dna(query)), minimum_length).unwrap()
}

fn complement(symbol: u8) -> u8 {
    match symbol {
        b'A' => b'T',
        b'C' => b'G',
        b'G' => b'C',
        b'T' => b'A',
        other => other,
    }
}

fn reverse_complement(text: &[u8]) -> Vec<u8> {
    text.iter().rev().map(|symbol| complement(*symbol)).collect()
}

fn scan(primary: &[u8], secondary: &[u8], p: usize, s: usize, k: usize) -> bool {
    primary[p..p + k] == reverse_complement(secondary)[s..s + k]
}

fn assert_all_relations_match_scan(reference: &[u8], query: &[u8], k: usize) {
    let matches = table(reference, query, k);
    let reference_kmers = reference.len() - k + 1;
    let query_kmers = query.len() - k + 1;
    assert_eq!(matches.reference_kmer_count(), reference_kmers);
    assert_eq!(matches.query_kmer_count(), query_kmers);
    for p in 0..reference_kmers {
        for s in 0..reference_kmers {
            assert_eq!(
                matches.has_reference_reference_match(p, s),
                scan(reference, reference, p, s, k),
                "{p}/{s}"
            );
        }
        for s in 0..query_kmers {
            assert_eq!(
                matches.has_reference_query_match(p, s),
                scan(reference, query, p, s, k),
                "{p}/{s}"
            );
        }
    }
    for p in 0..query_kmers {
        for s in 0..reference_kmers {
            assert_eq!(
                matches.has_query_reference_match(p, s),
                scan(query, reference, p, s, k),
                "{p}/{s}"
            );
        }
        for s in 0..query_kmers {
            assert_eq!(
                matches.has_query_query_match(p, s),
                scan(query, query, p, s, k),
                "{p}/{s}"
            );
        }
    }
}

#[test]
fn reference_reference() {
    let reference = VectorGenome::<DnaAlphabet>::from_slice_u8(b"AGGGGAACCCCAA").unwrap();
    let query = VectorGenome::from_slice_u8(b"AAAAAAAA").unwrap();
    let matches = MatchTable::new(&strands(&reference), &strands(&query), 4).unwrap();

    for primary_index in 0..reference.len() - 3 {
        for secondary_rc_index in 0..reference.len() - 3 {
            assert_eq!(
                matches.has_reference_reference_match(primary_index, secondary_rc_index),
                (primary_index == 7 && secondary_rc_index == 8)
                    || (primary_index == 1 && secondary_rc_index == 2),
                "{primary_index}/{secondary_rc_index}"
            );
        }
    }

    for reference_kmer_index in 0..reference.len() - 3 {
        for query_kmer_index in 0..query.len() - 3 {
            assert!(!matches.has_reference_query_match(reference_kmer_index, query_kmer_index));
            assert!(!matches.has_query_reference_match(query_kmer_index, reference_kmer_index));
        }
    }

    for primary_index in 0..query.len() - 3 {
        for secondary_rc_index in 0..query.len() - 3 {
            assert!(!matches.has_query_query_match(primary_index, secondary_rc_index));
        }
    }
}

#[test]
fn reference_query() {
    let reference = VectorGenome::<DnaAlphabet>::from_slice_u8(b"AGGGGAA").unwrap();
    let query = VectorGenome::from_slice_u8(b"AACCCCA").unwrap();
    let matches = MatchTable::new(&strands(&reference), &strands(&query), 4).unwrap();

    for primary_index in 0..reference.len() - 3 {
        for secondary_rc_index in 0..reference.len() - 3 {
            assert!(!matches.has_reference_reference_match(primary_index, secondary_rc_index));
        }
    }

    for reference_kmer_index in 0..reference.len() - 3 {
        for query_kmer_index in 0..query.len() - 3 {
            assert_eq!(
                matches.has_reference_query_match(reference_kmer_index, query_kmer_index),
                reference_kmer_index == 1 && query_kmer_index == 1,
                "{reference_kmer_index}/{query_kmer_index}"
            );
            assert_eq!(
                matches.has_query_reference_match(query_kmer_index, reference_kmer_index),
                query_kmer_index == 2 && reference_kmer_index == 2,
                "{reference_kmer_index}/{query_kmer_index}"
            );
        }
    }

    for primary_index in 0..query.len() - 3 {
        for secondary_rc_index in 0..query.len() - 3 {
            assert!(!matches.has_query_query_match(primary_index, secondary_rc_index));
        }
    }
}

#[test]
fn query_query() {
    let reference = VectorGenome::<DnaAlphabet>::from_slice_u8(b"AAAAAAA").unwrap();
    let query = VectorGenome::from_slice_u8(b"AACCCCAGGGGA").unwrap();
    let matches = MatchTable::new(&strands(&reference), &strands(&query), 4).unwrap();

    for primary_index in 0..reference.len() - 3 {
        for secondary_rc_index in 0..reference.len() - 3 {
            assert!(!matches.has_reference_reference_match(primary_index, secondary_rc_index));
        }
    }

    for reference_kmer_index in 0..reference.len() - 3 {
        for query_kmer_index in 0..query.len() - 3 {
            assert!(!matches.has_reference_query_match(reference_kmer_index, query_kmer_index));
            assert!(!matches.has_query_reference_match(query_kmer_index, reference_kmer_index));
        }
    }

    for primary_index in 0..query.len() - 3 {
        for secondary_rc_index in 0..query.len() - 3 {
            assert_eq!(
                matches.has_query_query_match(primary_index, secondary_rc_index),
                (primary_index == 7 && secondary_rc_index == 6)
                    || (primary_index == 2 && secondary_rc_index == 1),
                "{primary_index}/{secondary_rc_index}"
            );
        }
    }
}

#[test]
fn palindromic_pairs_within_the_reference() {
    let matches = table(b"AGGGGAACCCCAA", b"AAAAAAAA", 4);
    assert!(matches.has_reference_reference_match(1, 2));
    assert!(matches.has_reference_reference_match(7, 8));
    assert!(!matches.has_reference_reference_match(2, 1));
}

#[test]
fn pairs_across_reference_and_query() {
    let matches = table(b"AGGGGAAA", b"ACCCCAA", 4);
    assert!(matches.has_reference_query_match(1, 2));
    assert!(matches.has_query_reference_match(1, 3));
}

#[test]
fn palindromic_pairs_within_the_query() {
    let matches = table(b"AAAAAA", b"AAGGGGACCCCA", 4);
    assert!(matches.has_query_query_match(2, 1));
    assert!(matches.has_query_query_match(7, 6));
}

#[test]
fn kmer_counts_are_length_minus_minimum_length_plus_one() {
    let matches = table(b"AGGGGAACCCCAA", b"AAAAAAAA", 4);
    assert_eq!(matches.reference_kmer_count(), 10);
    assert_eq!(matches.query_kmer_count(), 5);
    let matches = table(b"AGGGGAACCCCAA", b"AAAAAAAA", 1);
    assert_eq!(matches.reference_kmer_count(), 13);
    assert_eq!(matches.query_kmer_count(), 8);
}

#[test]
fn every_relation_equals_a_scan() {
    assert_all_relations_match_scan(b"ACGTTGCAACGTACGTAGCTAGCTAGGATCC", b"TTGCAACGGATCCTAGC", 3);
    assert_all_relations_match_scan(b"ACGTTGCAACGTACGTAGCTAGCTAGGATCC", b"TTGCAACGGATCCTAGC", 1);
    assert_all_relations_match_scan(b"GATTACA", b"TGTAATCTGTAATC", 5);
    assert_all_relations_match_scan(b"ATATATATAT", b"TATATA", 2);
}

#[test]
fn equal_sources_equal_a_scan_of_one_sequence() {
    let text = b"ACGTACGGCCGTACGTTAACCGGTTAACGT";
    for k in 1..=6 {
        let matches = table(text, text, k);
        let kmers = text.len() - k + 1;
        for p in 0..kmers {
            for s in 0..kmers {
                let expected = scan(text, text, p, s, k);
                assert_eq!(matches.has_reference_reference_match(p, s), expected, "{k}: {p}/{s}");
                assert_eq!(matches.has_reference_query_match(p, s), expected, "{k}: {p}/{s}");
                assert_eq!(matches.has_query_reference_match(p, s), expected, "{k}: {p}/{s}");
                assert_eq!(matches.has_query_query_match(p, s), expected, "{k}: {p}/{s}");
            }
        }
    }
}

#[test]
fn cross_relations_are_not_transposes() {
    let matches = table(b"AGGGGAA", b"AACCCCA", 4);
    assert!(matches.has_reference_query_match(1, 1));
    assert!(!matches.has_query_reference_match(1, 1));
    assert!(matches.has_query_reference_match(2, 2));
    assert!(!matches.has_reference_query_match(2, 2));
}

#[test]
fn cross_relations_have_their_own_shapes() {
    let matches = table(b"AGGGG", b"TTCCCCTAA", 4);
    assert_eq!(matches.reference_kmer_count(), 2);
    assert_eq!(matches.query_kmer_count(), 6);
    assert!(matches.has_reference_query_match(0, 2));
    assert!(matches.has_reference_query_match(1, 3));
    assert!(!matches.has_reference_query_match(0, 5));
    assert!(matches.has_query_reference_match(2, 0));
    assert!(matches.has_query_reference_match(3, 1));
    assert!(!matches.has_query_reference_match(5, 1));
}

#[test]
fn overlapping_kmers_are_all_reported() {
    let matches = table(b"AAAAA", b"TTTTTT", 3);
    for p in 0..3 {
        for s in 0..4 {
            assert!(matches.has_reference_query_match(p, s));
        }
        for s in 0..3 {
            assert!(!matches.has_reference_reference_match(p, s));
        }
    }
    for p in 0..4 {
        for s in 0..3 {
            assert!(matches.has_query_reference_match(p, s));
        }
    }
}

#[test]
fn a_sequence_of_minimum_length_has_one_kmer() {
    let matches = table(b"ACGT", b"AACGTT", 4);
    assert_eq!(matches.reference_kmer_count(), 1);
    assert_eq!(matches.query_kmer_count(), 3);
    assert!(matches.has_reference_reference_match(0, 0));
    assert!(matches.has_reference_query_match(0, 1));
    assert!(!matches.has_reference_query_match(0, 0));
    assert!(!matches.has_reference_query_match(0, 2));
    assert!(matches.has_query_reference_match(1, 0));
    assert!(!matches.has_query_reference_match(0, 0));

    let matches = table(b"ACGT", b"TTTT", 4);
    assert_eq!(matches.reference_kmer_count(), 1);
    assert_eq!(matches.query_kmer_count(), 1);
    assert!(matches.has_reference_reference_match(0, 0));
    assert!(!matches.has_reference_query_match(0, 0));
    assert!(!matches.has_query_reference_match(0, 0));
    assert!(!matches.has_query_query_match(0, 0));
}

#[test]
fn zero_minimum_length_is_refused() {
    let built = MatchTable::new(&strands(&dna(b"ACGT")), &strands(&dna(b"ACGT")), 0);
    assert_eq!(built.err(), Some(MatchTableError::ZeroMinimumLength));
    let built = MatchTable::new(&strands(&dna(b"")), &strands(&dna(b"")), 0);
    assert_eq!(built.err(), Some(MatchTableError::ZeroMinimumLength));
}

#[test]
fn a_short_reference_is_refused() {
    let built = MatchTable::new(&strands(&dna(b"ACG")), &strands(&dna(b"ACGTACGT")), 4);
    assert_eq!(built.err(), Some(MatchTableError::ReferenceTooShort));
    let built = MatchTable::new(&strands(&dna(b"")), &strands(&dna(b"")), 1);
    assert_eq!(built.err(), Some(MatchTableError::ReferenceTooShort));
    let built = MatchTable::new(&strands(&dna(b"AC")), &strands(&dna(b"A")), 3);
    assert_eq!(built.err(), Some(MatchTableError::ReferenceTooShort));
}

#[test]
fn a_short_query_is_refused() {
    let built = MatchTable::new(&strands(&dna(b"ACGTACGT")), &strands(&dna(b"ACG")), 4);
    assert_eq!(built.err(), Some(MatchTableError::QueryTooShort));
    let built = MatchTable::new(&strands(&dna(b"ACGTACGT")), &strands(&dna(b"")), 1);
    assert_eq!(built.err(), Some(MatchTableError::QueryTooShort));
}

#[test]
fn a_minimum_length_far_beyond_the_lengths_is_refused() {
    let built = MatchTable::new(&strands(&dna(b"ACGT")), &strands(&dna(b"ACGT")), usize::MAX);
    assert_eq!(built.err(), Some(MatchTableError::ReferenceTooShort));
    let built = MatchTable::new(&strands(&dna(b"ACGT")), &strands(&dna(b"ACG")), 6);
    assert_eq!(built.err(), Some(MatchTableError::ReferenceTooShort));
}
