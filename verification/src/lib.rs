//! A strongly-typed vocabulary of taxonomic ranks with conversions to and
//! from the rank names used by the NCBI taxonomy database.

pub mod rank;

pub use rank::TaxRank;
pub use rank::TaxonomyError;
