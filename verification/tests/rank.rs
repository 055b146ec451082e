//! Tests for the taxonomic-rank vocabulary: conversions in both
//! directions, normalization, synonyms, and rejection of unknown input.

use taxonomy::TaxRank;
use taxonomy::TaxonomyError;

fn all_ranks() -> Vec<TaxRank> {
    vec![
        TaxRank::Domain,
        TaxRank::Subdomain,
        TaxRank::Realm,
        TaxRank::Subrealm,
        TaxRank::Hyperkingdom,
        TaxRank::Superkingdom,
        TaxRank::Kingdom,
        TaxRank::Subkingdom,
        TaxRank::Infrakingdom,
        TaxRank::Parvkingdom,
        TaxRank::Superphylum,
        TaxRank::Phylum,
        TaxRank::Subphylum,
        TaxRank::Infraphylum,
        TaxRank::Microphylum,
        TaxRank::Superclass,
        TaxRank::Class,
        TaxRank::Subclass,
        TaxRank::Infraclass,
        TaxRank::Parvclass,
        TaxRank::Superdivision,
        TaxRank::Division,
        TaxRank::Subdivision,
        TaxRank::Infradivision,
        TaxRank::Superlegion,
        TaxRank::Legion,
        TaxRank::Sublegion,
        TaxRank::Infralegion,
        TaxRank::Supercohort,
        TaxRank::Cohort,
        TaxRank::Subcohort,
        TaxRank::Infracohort,
        TaxRank::Superorder,
        TaxRank::Gigaorder,
        TaxRank::Magnorder,
        TaxRank::Grandorder,
        TaxRank::Mirorder,
        TaxRank::SeriesFish,
        TaxRank::Order,
        TaxRank::Nanorder,
        TaxRank::Hypoorder,
        TaxRank::Suborder,
        TaxRank::Infraorder,
        TaxRank::Parvorder,
        TaxRank::Section,
        TaxRank::Subsection,
        TaxRank::Gigafamily,
        TaxRank::Megafamily,
        TaxRank::Grandfamily,
        TaxRank::Hyperfamily,
        TaxRank::Superfamily,
        TaxRank::Epifamily,
        TaxRank::SeriesLepidoptera,
        TaxRank::GroupLepidoptera,
        TaxRank::Family,
        TaxRank::Subfamily,
        TaxRank::Infrafamily,
        TaxRank::Supertribe,
        TaxRank::Tribe,
        TaxRank::Subtribe,
        TaxRank::Infratribe,
        TaxRank::Genus,
        TaxRank::Subgenus,
        TaxRank::SeriesBotany,
        TaxRank::SubseriesBotany,
        TaxRank::SpeciesGroup,
        TaxRank::SpeciesSubgroup,
        TaxRank::Species,
        TaxRank::Subspecies,
        TaxRank::Varietas,
        TaxRank::Subvarietas,
        TaxRank::Forma,
        TaxRank::Subforma,
        TaxRank::Cultivar,
        TaxRank::Breed,
        TaxRank::Strain,
        TaxRank::Individual,
        TaxRank::Unspecified,
    ]
}

#[test]
fn test_ranks() {
    for rank in all_ranks() {
        let _ = rank.to_ncbi_rank();
    }
}

#[test]
fn test_str_to_rank() -> Result<(), TaxonomyError> {
    for rank in all_ranks() {
        let _ = TaxRank::from_str(rank.to_ncbi_rank())?;
    }
    assert!(TaxRank::from_str("fake_data").is_err());
    Ok(())
}

#[test]
fn ncbi_names_are_nonempty() {
    for rank in all_ranks() {
        assert!(!rank.to_ncbi_rank().is_empty());
    }
}

#[test]
fn ncbi_round_trip() {
    for rank in all_ranks() {
        let name = rank.to_ncbi_rank();
        if name != "no rank" {
            assert_eq!(TaxRank::from_str(name), Ok(rank));
        }
    }
}

#[test]
fn exact_ncbi_names() {
    assert_eq!(TaxRank::Superkingdom.to_ncbi_rank(), "superkingdom");
    assert_eq!(TaxRank::Species.to_ncbi_rank(), "species");
    assert_eq!(TaxRank::SpeciesGroup.to_ncbi_rank(), "species group");
    assert_eq!(TaxRank::SpeciesSubgroup.to_ncbi_rank(), "species subgroup");
    assert_eq!(TaxRank::Forma.to_ncbi_rank(), "forma");
    // ranks the NCBI taxonomy does not model fall back to "no rank"
    assert_eq!(TaxRank::Cultivar.to_ncbi_rank(), "no rank");
    assert_eq!(TaxRank::Gigaorder.to_ncbi_rank(), "no rank");
    assert_eq!(TaxRank::Breed.to_ncbi_rank(), "no rank");
}

#[test]
fn case_and_whitespace_insensitive() {
    assert_eq!(TaxRank::from_str(" Species "), Ok(TaxRank::Species));
    assert_eq!(TaxRank::from_str("species"), Ok(TaxRank::Species));
    assert_eq!(TaxRank::from_str("SPECIES"), Ok(TaxRank::Species));
    assert_eq!(TaxRank::from_str(" Species "), TaxRank::from_str("species"));
    assert_eq!(TaxRank::from_str("species"), TaxRank::from_str("SPECIES"));
    assert_eq!(TaxRank::from_str("\tOrder\n"), Ok(TaxRank::Order));
}

#[test]
fn classical_synonyms() {
    assert_eq!(TaxRank::from_str("kingdom"), TaxRank::from_str("regnum"));
    assert_eq!(TaxRank::from_str("phylum"), TaxRank::from_str("divisio"));
    assert_eq!(TaxRank::from_str("order"), TaxRank::from_str("ordo"));
    assert_eq!(TaxRank::from_str("regnum"), Ok(TaxRank::Kingdom));
    assert_eq!(TaxRank::from_str("familia"), Ok(TaxRank::Family));
    assert_eq!(TaxRank::from_str("genera"), Ok(TaxRank::Genus));
}

#[test]
fn unknown_input_is_rejected() {
    let err = TaxRank::from_str("fake_data");
    assert_eq!(
        err,
        Err(TaxonomyError::UnrecognizedRank { rank: "fake_data".to_string() })
    );
    // the error carries the original input, untrimmed and in its original case
    assert_eq!(
        TaxRank::from_str(" Fake Data "),
        Err(TaxonomyError::UnrecognizedRank { rank: " Fake Data ".to_string() })
    );
    assert!(TaxRank::from_str("").is_err());
}

#[test]
fn unspecified_sentinel() {
    assert_eq!(TaxRank::from_str("no rank"), Ok(TaxRank::Unspecified));
    assert_eq!(TaxRank::Unspecified.to_ncbi_rank(), "no rank");
}

#[test]
fn record_batch_scenario() {
    let inputs = vec!["Superkingdom", "phylum", " Genus", "regnum", "bogus"];
    let parsed: Vec<Result<TaxRank, TaxonomyError>> =
        inputs.into_iter().map(TaxRank::from_str).collect();
    assert_eq!(parsed[0], Ok(TaxRank::Superkingdom));
    assert_eq!(parsed[1], Ok(TaxRank::Phylum));
    assert_eq!(parsed[2], Ok(TaxRank::Genus));
    assert_eq!(parsed[3], Ok(TaxRank::Kingdom));
    assert_eq!(
        parsed[4],
        Err(TaxonomyError::UnrecognizedRank { rank: "bogus".to_string() })
    );
}

#[test]
fn from_normalized_lookup() {
    assert_eq!(TaxRank::from_normalized("species"), Some(TaxRank::Species));
    assert_eq!(TaxRank::from_normalized("subtribus"), Some(TaxRank::Tribe));
    // from_normalized expects already-normalized text: no trimming or lowercasing
    assert_eq!(TaxRank::from_normalized("Species"), None);
    assert_eq!(TaxRank::from_normalized(" species"), None);
    assert_eq!(TaxRank::from_normalized("bogus"), None);
}
