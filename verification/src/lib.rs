//! Exact k-mer matches between two genome sequences and their reverse complements.

pub mod ascii;
pub mod bits;
pub mod error;
pub mod index;
pub mod kmer;
pub mod laws;
pub mod relation;
pub mod strands;
pub mod table;

pub use error::MatchTableError;
pub use strands::GenomeStrands;
pub use table::MatchTable;
