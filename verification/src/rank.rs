//! The taxonomic-rank vocabulary and its conversions to and from rank
//! strings.

use vstd::prelude::*;

verus! {

/// A taxonomic rank. For example, a species or phylum.
///
/// We use this instead of a String/&str to allow stricter type-checking
/// by forcing all taxonomic ranks to fall within the below categories
/// (this includes all current NCBI ranks and a few others, mostly ones
/// specific to zoology and botany).
///
/// Additional ranks may be added in the future, so downstream users should
/// not count on exhaustively matching this list.
#[derive(Clone, Copy, Debug, PartialEq, Eq, Structural)]
#[non_exhaustive]
pub enum TaxRank {
    Domain,
    Subdomain,
    Realm,
    Subrealm,
    Hyperkingdom,
    Superkingdom,
    Kingdom,
    Subkingdom,
    Infrakingdom,
    Parvkingdom,
    Superphylum,
    Phylum,
    Subphylum,
    Infraphylum,
    Microphylum,
    Superclass,
    Class,
    Subclass,
    Infraclass,
    Parvclass,
    Superdivision,
    Division,
    Subdivision,
    Infradivision,
    Superlegion,
    Legion,
    Sublegion,
    Infralegion,
    Supercohort,
    Cohort,
    Subcohort,
    Infracohort,
    Superorder,
    Gigaorder,
    Magnorder,
    Grandorder,
    Mirorder,
    SeriesFish,
    Order,
    Nanorder,
    Hypoorder,
    Suborder,
    Infraorder,
    Parvorder,
    Section,
    Subsection,
    Gigafamily,
    Megafamily,
    Grandfamily,
    Hyperfamily,
    Superfamily,
    Epifamily,
    SeriesLepidoptera,
    GroupLepidoptera,
    Family,
    Subfamily,
    Infrafamily,
    Supertribe,
    Tribe,
    Subtribe,
    Infratribe,
    Genus,
    Subgenus,
    SeriesBotany,
    SubseriesBotany,
    SpeciesGroup,
    SpeciesSubgroup,
    Species,
    Subspecies,
    Varietas,
    Subvarietas,
    Forma,
    Subforma,
    Cultivar,
    Breed,
    Strain,
    Individual,
    /// The sentinel for "no assigned rank". It has no defined place in any
    /// specificity ordering of ranks (like a NaN), so no ordering is derived
    /// for this type.
    Unspecified,
}

/// Whether a character has the Unicode `White_Space` property, the set of
/// characters that `str::trim` removes from the ends of a string.
pub open spec fn is_whitespace_char(c: char) -> bool {
    ('\u{09}' <= c && c <= '\u{0d}') || c == ' ' || c == '\u{85}' || c == '\u{a0}'
        || c == '\u{1680}' || ('\u{2000}' <= c && c <= '\u{200a}') || c == '\u{2028}'
        || c == '\u{2029}' || c == '\u{202f}' || c == '\u{205f}' || c == '\u{3000}'
}

/// A string with its leading and trailing whitespace removed.
pub open spec fn trim_of(s: Seq<char>) -> Seq<char>
    decreases s.len(),
{
    if s.len() == 0 {
        s
    } else if is_whitespace_char(s.first()) {
        trim_of(s.drop_first())
    } else if is_whitespace_char(s.last()) {
        trim_of(s.drop_last())
    } else {
        s
    }
}

/// Relies on str::trim: returns the substring left after removing leading
/// and trailing characters with the Unicode `White_Space` property.
#[verifier::external_body]
fn trim_str(s: &str) -> (res: &str)
    ensures
        res@ == trim_of(s@),
{
    s.trim()
}

/// The ASCII lowercase form of a character: `'A'..='Z'` map to
/// `'a'..='z'`, every other character is unchanged.
pub open spec fn ascii_lower_char(c: char) -> char {
    if 'A' <= c && c <= 'Z' {
        (((c as u32) + 32) as char)
    } else {
        c
    }
}

/// A string lowercased character by character under the ASCII mapping.
pub open spec fn ascii_lowercase_of(s: Seq<char>) -> Seq<char> {
    s.map_values(|c: char| ascii_lower_char(c))
}

/// The lowercase equivalent of a string under the full Unicode mapping,
/// which depends on the characters alone.
pub uninterp spec fn unicode_lowercase_of(s: Seq<char>) -> Seq<char>;

/// Relies on str::to_lowercase: the result is a function of the characters
/// alone, and on ASCII input it is the character-wise ASCII lowercase
/// mapping (`'A'..='Z'` to `'a'..='z'`, the rest unchanged).
#[verifier::external_body]
fn lowercase_str(s: &str) -> (res: String)
    ensures
        res@ == unicode_lowercase_of(s@),
        vstd::utf8::is_ascii_chars(s@) ==> res@ == ascii_lowercase_of(s@),
{
    s.to_lowercase()
}

/// Exact equality of two string slices, decided character by character.
fn str_eq(a: &str, b: &str) -> (res: bool)
    ensures
        res == (a@ == b@),
{
    let sa: String = a.to_owned();
    let sb: String = b.to_owned();
    sa == sb
}

/// The error raised when a rank string cannot be recognized.
#[derive(Clone, Debug, PartialEq, Eq)]
pub enum TaxonomyError {
    /// The input matched no entry in the table of recognized rank
    /// spellings; `rank` carries the original (untrimmed, original-case)
    /// input for diagnostics.
    UnrecognizedRank { rank: String },
}

/// The table of recognized rank spellings: the rank a normalized
/// (trimmed, lowercased) string denotes, or `None` when the string matches
/// no entry. The entries are the canonical English name of each rank plus
/// historically-used synonyms and classical-Latin forms; many of these
/// (and the ranks themselves) were pulled from the taxonomic-rank
/// literature.
pub open spec fn rank_of_normalized(t: Seq<char>) -> Option<TaxRank> {
    if t == "domain"@ || t == "regio"@ {
        Some(TaxRank::Domain)
    } else if t == "subdomain"@ {
        Some(TaxRank::Subdomain)
    } else if t == "superkingdom"@ {
        Some(TaxRank::Superkingdom)
    } else if t == "kingdom"@ || t == "regnum"@ {
        Some(TaxRank::Kingdom)
    } else if t == "subkingdom"@ || t == "subregnum"@ {
        Some(TaxRank::Subkingdom)
    } else if t == "superphylum"@ || t == "superphyla"@ {
        Some(TaxRank::Superphylum)
    } else if t == "phylum"@ || t == "phyla"@ || t == "divisio"@ {
        Some(TaxRank::Phylum)
    } else if t == "subphylum"@ || t == "subphyla"@ || t == "subdivisio"@ {
        Some(TaxRank::Subphylum)
    } else if t == "superclass"@ {
        Some(TaxRank::Superclass)
    } else if t == "class"@ || t == "classis"@ {
        Some(TaxRank::Class)
    } else if t == "subclass"@ || t == "subclassis"@ {
        Some(TaxRank::Subclass)
    } else if t == "infraclass"@ {
        Some(TaxRank::Infraclass)
    } else if t == "cohort"@ {
        Some(TaxRank::Cohort)
    } else if t == "superorder"@ {
        Some(TaxRank::Superorder)
    } else if t == "order"@ || t == "ordo"@ {
        Some(TaxRank::Order)
    } else if t == "suborder"@ || t == "subordo"@ {
        Some(TaxRank::Suborder)
    } else if t == "infraorder"@ {
        Some(TaxRank::Infraorder)
    } else if t == "parvorder"@ {
        Some(TaxRank::Parvorder)
    } else if t == "section"@ || t == "sectio"@ {
        Some(TaxRank::Section)
    } else if t == "subsection"@ {
        Some(TaxRank::Subsection)
    } else if t == "superfamily"@ {
        Some(TaxRank::Superfamily)
    } else if t == "family"@ || t == "familia"@ {
        Some(TaxRank::Family)
    } else if t == "subfamily"@ {
        Some(TaxRank::Subfamily)
    } else if t == "tribe"@ || t == "subtribus"@ {
        Some(TaxRank::Tribe)
    } else if t == "subtribe"@ {
        Some(TaxRank::Subtribe)
    } else if t == "genus"@ || t == "genera"@ {
        Some(TaxRank::Genus)
    } else if t == "subgenus"@ {
        Some(TaxRank::Subgenus)
    } else if t == "species group"@ {
        Some(TaxRank::SpeciesGroup)
    } else if t == "species subgroup"@ {
        Some(TaxRank::SpeciesSubgroup)
    } else if t == "species"@ {
        Some(TaxRank::Species)
    } else if t == "subspecies"@ {
        Some(TaxRank::Subspecies)
    } else if t == "variety"@ || t == "varietas"@ {
        Some(TaxRank::Varietas)
    } else if t == "form"@ || t == "forma"@ {
        Some(TaxRank::Forma)
    } else if t == "subform"@ || t == "subforma"@ {
        Some(TaxRank::Subforma)
    } else if t == "strain"@ {
        Some(TaxRank::Strain)
    } else if t == "no rank"@ {
        Some(TaxRank::Unspecified)
    } else {
        None
    }
}

/// A rank string normalized the way the parser normalizes it before the
/// table lookup: surrounding whitespace is trimmed and the text is
/// lowercased (on ASCII text, the character-wise ASCII mapping).
pub open spec fn normalized_of(s: Seq<char>) -> Seq<char> {
    if vstd::utf8::is_ascii_chars(trim_of(s)) {
        ascii_lowercase_of(trim_of(s))
    } else {
        unicode_lowercase_of(trim_of(s))
    }
}

/// The rank string NCBI uses for a rank, or `"no rank"` for the ranks the
/// NCBI taxonomy does not model and for `Unspecified`.
pub open spec fn ncbi_name(r: TaxRank) -> Seq<char> {
    match r {
        TaxRank::Superkingdom => "superkingdom"@,
        TaxRank::Kingdom => "kingdom"@,
        TaxRank::Subkingdom => "subkingdom"@,
        TaxRank::Superphylum => "superphylum"@,
        TaxRank::Phylum => "phylum"@,
        TaxRank::Subphylum => "subphylum"@,
        TaxRank::Superclass => "superclass"@,
        TaxRank::Class => "class"@,
        TaxRank::Subclass => "subclass"@,
        TaxRank::Infraclass => "infraclass"@,
        TaxRank::Cohort => "cohort"@,
        TaxRank::Superorder => "superorder"@,
        TaxRank::Order => "order"@,
        TaxRank::Suborder => "suborder"@,
        TaxRank::Infraorder => "infraorder"@,
        TaxRank::Parvorder => "parvorder"@,
        TaxRank::Superfamily => "superfamily"@,
        TaxRank::Family => "family"@,
        TaxRank::Subfamily => "subfamily"@,
        TaxRank::Tribe => "tribe"@,
        TaxRank::Subtribe => "subtribe"@,
        TaxRank::Genus => "genus"@,
        TaxRank::Subgenus => "subgenus"@,
        TaxRank::SpeciesGroup => "species group"@,
        TaxRank::SpeciesSubgroup => "species subgroup"@,
        TaxRank::Species => "species"@,
        TaxRank::Subspecies => "subspecies"@,
        TaxRank::Varietas => "varietas"@,
        TaxRank::Forma => "forma"@,
        _ => "no rank"@,
    }
}

/// Every rank has a non-empty NCBI rank string: the rank-to-string
/// conversion is total and never yields an empty name.
pub proof fn lemma_ncbi_name_nonempty(r: TaxRank)
    ensures
        ncbi_name(r).len() > 0,
{
    reveal_strlit("superkingdom");
    reveal_strlit("kingdom");
    reveal_strlit("subkingdom");
    reveal_strlit("superphylum");
    reveal_strlit("phylum");
    reveal_strlit("subphylum");
    reveal_strlit("superclass");
    reveal_strlit("class");
    reveal_strlit("subclass");
    reveal_strlit("infraclass");
    reveal_strlit("cohort");
    reveal_strlit("superorder");
    reveal_strlit("order");
    reveal_strlit("suborder");
    reveal_strlit("infraorder");
    reveal_strlit("parvorder");
    reveal_strlit("superfamily");
    reveal_strlit("family");
    reveal_strlit("subfamily");
    reveal_strlit("tribe");
    reveal_strlit("subtribe");
    reveal_strlit("genus");
    reveal_strlit("subgenus");
    reveal_strlit("species group");
    reveal_strlit("species subgroup");
    reveal_strlit("species");
    reveal_strlit("subspecies");
    reveal_strlit("varietas");
    reveal_strlit("forma");
    reveal_strlit("no rank");
}

impl TaxRank {
    /// Looks an already-normalized (trimmed, lowercased) rank string up in
    /// the table of recognized spellings. Returns the matching rank, or
    /// `None` when the string matches no table entry.
    pub fn from_normalized(t: &str) -> (res: Option<TaxRank>)
        ensures
            res == rank_of_normalized(t@),
    {
        if str_eq(t, "domain") || str_eq(t, "regio") {
            Some(TaxRank::Domain)
        } else if str_eq(t, "subdomain") {
            Some(TaxRank::Subdomain)
        } else if str_eq(t, "superkingdom") {
            Some(TaxRank::Superkingdom)
        } else if str_eq(t, "kingdom") || str_eq(t, "regnum") {
            Some(TaxRank::Kingdom)
        } else if str_eq(t, "subkingdom") || str_eq(t, "subregnum") {
            Some(TaxRank::Subkingdom)
        } else if str_eq(t, "superphylum") || str_eq(t, "superphyla") {
            Some(TaxRank::Superphylum)
        } else if str_eq(t, "phylum") || str_eq(t, "phyla") || str_eq(t, "divisio") {
            Some(TaxRank::Phylum)
        } else if str_eq(t, "subphylum") || str_eq(t, "subphyla") || str_eq(t, "subdivisio") {
            Some(TaxRank::Subphylum)
        } else if str_eq(t, "superclass") {
            Some(TaxRank::Superclass)
        } else if str_eq(t, "class") || str_eq(t, "classis") {
            Some(TaxRank::Class)
        } else if str_eq(t, "subclass") || str_eq(t, "subclassis") {
            Some(TaxRank::Subclass)
        } else if str_eq(t, "infraclass") {
            Some(TaxRank::Infraclass)
        } else if str_eq(t, "cohort") {
            Some(TaxRank::Cohort)
        } else if str_eq(t, "superorder") {
            Some(TaxRank::Superorder)
        } else if str_eq(t, "order") || str_eq(t, "ordo") {
            Some(TaxRank::Order)
        } else if str_eq(t, "suborder") || str_eq(t, "subordo") {
            Some(TaxRank::Suborder)
        } else if str_eq(t, "infraorder") {
            Some(TaxRank::Infraorder)
        } else if str_eq(t, "parvorder") {
            Some(TaxRank::Parvorder)
        } else if str_eq(t, "section") || str_eq(t, "sectio") {
            Some(TaxRank::Section)
        } else if str_eq(t, "subsection") {
            Some(TaxRank::Subsection)
        } else if str_eq(t, "superfamily") {
            Some(TaxRank::Superfamily)
        } else if str_eq(t, "family") || str_eq(t, "familia") {
            Some(TaxRank::Family)
        } else if str_eq(t, "subfamily") {
            Some(TaxRank::Subfamily)
        } else if str_eq(t, "tribe") || str_eq(t, "subtribus") {
            Some(TaxRank::Tribe)
        } else if str_eq(t, "subtribe") {
            Some(TaxRank::Subtribe)
        } else if str_eq(t, "genus") || str_eq(t, "genera") {
            Some(TaxRank::Genus)
        } else if str_eq(t, "subgenus") {
            Some(TaxRank::Subgenus)
        } else if str_eq(t, "species group") {
            Some(TaxRank::SpeciesGroup)
        } else if str_eq(t, "species subgroup") {
            Some(TaxRank::SpeciesSubgroup)
        } else if str_eq(t, "species") {
            Some(TaxRank::Species)
        } else if str_eq(t, "subspecies") {
            Some(TaxRank::Subspecies)
        } else if str_eq(t, "variety") || str_eq(t, "varietas") {
            Some(TaxRank::Varietas)
        } else if str_eq(t, "form") || str_eq(t, "forma") {
            Some(TaxRank::Forma)
        } else if str_eq(t, "subform") || str_eq(t, "subforma") {
            Some(TaxRank::Subforma)
        } else if str_eq(t, "strain") {
            Some(TaxRank::Strain)
        } else if str_eq(t, "no rank") {
            Some(TaxRank::Unspecified)
        } else {
            None
        }
    }

    /// Parses a free-form rank string. Surrounding whitespace is trimmed
    /// and the text is lowercased, then the result is matched exactly
    /// against the table of recognized spellings. On success the matching
    /// rank is returned; otherwise the error carries the original
    /// (untrimmed, original-case) input for diagnostics.
    pub fn from_str(s: &str) -> (res: Result<TaxRank, TaxonomyError>)
        ensures
            match res {
                Ok(r) => rank_of_normalized(normalized_of(s@)) == Some(r),
                Err(TaxonomyError::UnrecognizedRank { rank }) => {
                    &&& rank_of_normalized(normalized_of(s@)) is None
                    &&& rank@ == s@
                },
            },
    {
        let trimmed = trim_str(s);
        let lowered = lowercase_str(trimmed);
        match TaxRank::from_normalized(lowered.as_str()) {
            Some(r) => Ok(r),
            None => Err(TaxonomyError::UnrecognizedRank { rank: s.to_owned() }),
        }
    }

    /// Converts a TaxRank into one of the rank strings NCBI uses.
    /// Note that this doesn't handle ranks that are not used by the NCBI
    /// taxonomy: those (and `Unspecified`) all map to `"no rank"`.
    pub fn to_ncbi_rank(self) -> (res: &'static str)
        ensures
            res@ == ncbi_name(self),
            res@.len() > 0,
    {
        proof {
            lemma_ncbi_name_nonempty(self);
        }
        match self {
            TaxRank::Superkingdom => "superkingdom",
            TaxRank::Kingdom => "kingdom",
            TaxRank::Subkingdom => "subkingdom",
            TaxRank::Superphylum => "superphylum",
            TaxRank::Phylum => "phylum",
            TaxRank::Subphylum => "subphylum",
            TaxRank::Superclass => "superclass",
            TaxRank::Class => "class",
            TaxRank::Subclass => "subclass",
            TaxRank::Infraclass => "infraclass",
            TaxRank::Cohort => "cohort",
            TaxRank::Superorder => "superorder",
            TaxRank::Order => "order",
            TaxRank::Suborder => "suborder",
            TaxRank::Infraorder => "infraorder",
            TaxRank::Parvorder => "parvorder",
            TaxRank::Superfamily => "superfamily",
            TaxRank::Family => "family",
            TaxRank::Subfamily => "subfamily",
            TaxRank::Tribe => "tribe",
            TaxRank::Subtribe => "subtribe",
            TaxRank::Genus => "genus",
            TaxRank::Subgenus => "subgenus",
            TaxRank::SpeciesGroup => "species group",
            TaxRank::SpeciesSubgroup => "species subgroup",
            TaxRank::Species => "species",
            TaxRank::Subspecies => "subspecies",
            TaxRank::Varietas => "varietas",
            TaxRank::Forma => "forma",
            _ => "no rank",
        }
    }
}

/// Partial round trip for NCBI-recognized ranks: every rank whose NCBI
/// rank string is not `"no rank"` is recovered by parsing that string
/// back. (The converse direction does not hold: the many ranks NCBI does
/// not model all collapse to `"no rank"`, which parses to `Unspecified`.)
#[verifier::rlimit(100)]
pub proof fn lemma_ncbi_round_trip(r: TaxRank)
    requires
        ncbi_name(r) != "no rank"@,
    ensures
        rank_of_normalized(normalized_of(ncbi_name(r))) == Some(r),
{
    // Every NCBI rank string is lowercase ASCII with no surrounding
    // whitespace, so it is a fixed point of normalization; the lookup chain
    // then lands on its entry. Discriminating the string from the earlier
    // table entries needs every entry revealed, and, for each earlier entry
    // of the same length, a differing character named by index.
    reveal_strlit("domain");
    reveal_strlit("regio");
    reveal_strlit("subdomain");
    reveal_strlit("superkingdom");
    reveal_strlit("kingdom");
    reveal_strlit("regnum");
    reveal_strlit("subkingdom");
    reveal_strlit("subregnum");
    reveal_strlit("superphylum");
    reveal_strlit("superphyla");
    reveal_strlit("phylum");
    reveal_strlit("phyla");
    reveal_strlit("divisio");
    reveal_strlit("subphylum");
    reveal_strlit("subphyla");
    reveal_strlit("subdivisio");
    reveal_strlit("superclass");
    reveal_strlit("class");
    reveal_strlit("classis");
    reveal_strlit("subclass");
    reveal_strlit("subclassis");
    reveal_strlit("infraclass");
    reveal_strlit("cohort");
    reveal_strlit("superorder");
    reveal_strlit("order");
    reveal_strlit("ordo");
    reveal_strlit("suborder");
    reveal_strlit("subordo");
    reveal_strlit("infraorder");
    reveal_strlit("parvorder");
    reveal_strlit("section");
    reveal_strlit("sectio");
    reveal_strlit("subsection");
    reveal_strlit("superfamily");
    reveal_strlit("family");
    reveal_strlit("familia");
    reveal_strlit("subfamily");
    reveal_strlit("tribe");
    reveal_strlit("subtribus");
    reveal_strlit("subtribe");
    reveal_strlit("genus");
    reveal_strlit("genera");
    reveal_strlit("subgenus");
    reveal_strlit("species group");
    reveal_strlit("species subgroup");
    reveal_strlit("species");
    reveal_strlit("subspecies");
    reveal_strlit("variety");
    reveal_strlit("varietas");
    reveal_strlit("form");
    reveal_strlit("forma");
    reveal_strlit("subform");
    reveal_strlit("subforma");
    reveal_strlit("strain");
    reveal_strlit("no rank");
    match r {
        TaxRank::Superkingdom => {
            assert(trim_of("superkingdom"@) == "superkingdom"@);
            assert(vstd::utf8::is_ascii_chars("superkingdom"@));
            assert(ascii_lowercase_of("superkingdom"@) =~= "superkingdom"@);
            assert(rank_of_normalized(normalized_of("superkingdom"@)) == Some(TaxRank::Superkingdom));
        },
        TaxRank::Kingdom => {
            assert(trim_of("kingdom"@) == "kingdom"@);
            assert(vstd::utf8::is_ascii_chars("kingdom"@));
            assert(ascii_lowercase_of("kingdom"@) =~= "kingdom"@);
            assert(rank_of_normalized(normalized_of("kingdom"@)) == Some(TaxRank::Kingdom));
        },
        TaxRank::Subkingdom => {
            assert(trim_of("subkingdom"@) == "subkingdom"@);
            assert(vstd::utf8::is_ascii_chars("subkingdom"@));
            assert(ascii_lowercase_of("subkingdom"@) =~= "subkingdom"@);
            assert(rank_of_normalized(normalized_of("subkingdom"@)) == Some(TaxRank::Subkingdom));
        },
        TaxRank::Superphylum => {
            assert(trim_of("superphylum"@) == "superphylum"@);
            assert(vstd::utf8::is_ascii_chars("superphylum"@));
            assert(ascii_lowercase_of("superphylum"@) =~= "superphylum"@);
            assert(rank_of_normalized(normalized_of("superphylum"@)) == Some(TaxRank::Superphylum));
        },
        TaxRank::Phylum => {
            assert(trim_of("phylum"@) == "phylum"@);
            assert(vstd::utf8::is_ascii_chars("phylum"@));
            assert(ascii_lowercase_of("phylum"@) =~= "phylum"@);
            assert("phylum"@[0] == 'p' && "domain"@[0] == 'd');
            assert("phylum"@ != "domain"@);
            assert("phylum"@[0] == 'p' && "regnum"@[0] == 'r');
            assert("phylum"@ != "regnum"@);
            assert(rank_of_normalized(normalized_of("phylum"@)) == Some(TaxRank::Phylum));
        },
        TaxRank::Subphylum => {
            assert(trim_of("subphylum"@) == "subphylum"@);
            assert(vstd::utf8::is_ascii_chars("subphylum"@));
            assert(ascii_lowercase_of("subphylum"@) =~= "subphylum"@);
            assert("subphylum"@[3] == 'p' && "subdomain"@[3] == 'd');
            assert("subphylum"@ != "subdomain"@);
            assert("subphylum"@[3] == 'p' && "subregnum"@[3] == 'r');
            assert("subphylum"@ != "subregnum"@);
            assert(rank_of_normalized(normalized_of("subphylum"@)) == Some(TaxRank::Subphylum));
        },
        TaxRank::Superclass => {
            assert(trim_of("superclass"@) == "superclass"@);
            assert(vstd::utf8::is_ascii_chars("superclass"@));
            assert(ascii_lowercase_of("superclass"@) =~= "superclass"@);
            assert("superclass"@[2] == 'p' && "subkingdom"@[2] == 'b');
            assert("superclass"@ != "subkingdom"@);
            assert("superclass"@[5] == 'c' && "superphyla"@[5] == 'p');
            assert("superclass"@ != "superphyla"@);
            assert("superclass"@[2] == 'p' && "subdivisio"@[2] == 'b');
            assert("superclass"@ != "subdivisio"@);
            assert(rank_of_normalized(normalized_of("superclass"@)) == Some(TaxRank::Superclass));
        },
        TaxRank::Class => {
            assert(trim_of("class"@) == "class"@);
            assert(vstd::utf8::is_ascii_chars("class"@));
            assert(ascii_lowercase_of("class"@) =~= "class"@);
            assert("class"@[0] == 'c' && "regio"@[0] == 'r');
            assert("class"@ != "regio"@);
            assert("class"@[0] == 'c' && "phyla"@[0] == 'p');
            assert("class"@ != "phyla"@);
            assert(rank_of_normalized(normalized_of("class"@)) == Some(TaxRank::Class));
        },
        TaxRank::Subclass => {
            assert(trim_of("subclass"@) == "subclass"@);
            assert(vstd::utf8::is_ascii_chars("subclass"@));
            assert(ascii_lowercase_of("subclass"@) =~= "subclass"@);
            assert("subclass"@[3] == 'c' && "subphyla"@[3] == 'p');
            assert("subclass"@ != "subphyla"@);
            assert(rank_of_normalized(normalized_of("subclass"@)) == Some(TaxRank::Subclass));
        },
        TaxRank::Infraclass => {
            assert(trim_of("infraclass"@) == "infraclass"@);
            assert(vstd::utf8::is_ascii_chars("infraclass"@));
            assert(ascii_lowercase_of("infraclass"@) =~= "infraclass"@);
            assert("infraclass"@[0] == 'i' && "subkingdom"@[0] == 's');
            assert("infraclass"@ != "subkingdom"@);
            assert("infraclass"@[0] == 'i' && "superphyla"@[0] == 's');
            assert("infraclass"@ != "superphyla"@);
            assert("infraclass"@[0] == 'i' && "subdivisio"@[0] == 's');
            assert("infraclass"@ != "subdivisio"@);
            assert("infraclass"@[0] == 'i' && "superclass"@[0] == 's');
            assert("infraclass"@ != "superclass"@);
            assert("infraclass"@[0] == 'i' && "subclassis"@[0] == 's');
            assert("infraclass"@ != "subclassis"@);
            assert(rank_of_normalized(normalized_of("infraclass"@)) == Some(TaxRank::Infraclass));
        },
        TaxRank::Cohort => {
            assert(trim_of("cohort"@) == "cohort"@);
            assert(vstd::utf8::is_ascii_chars("cohort"@));
            assert(ascii_lowercase_of("cohort"@) =~= "cohort"@);
            assert("cohort"@[0] == 'c' && "domain"@[0] == 'd');
            assert("cohort"@ != "domain"@);
            assert("cohort"@[0] == 'c' && "regnum"@[0] == 'r');
            assert("cohort"@ != "regnum"@);
            assert("cohort"@[0] == 'c' && "phylum"@[0] == 'p');
            assert("cohort"@ != "phylum"@);
            assert(rank_of_normalized(normalized_of("cohort"@)) == Some(TaxRank::Cohort));
        },
        TaxRank::Superorder => {
            assert(trim_of("superorder"@) == "superorder"@);
            assert(vstd::utf8::is_ascii_chars("superorder"@));
            assert(ascii_lowercase_of("superorder"@) =~= "superorder"@);
            assert("superorder"@[2] == 'p' && "subkingdom"@[2] == 'b');
            assert("superorder"@ != "subkingdom"@);
            assert("superorder"@[5] == 'o' && "superphyla"@[5] == 'p');
            assert("superorder"@ != "superphyla"@);
            assert("superorder"@[2] == 'p' && "subdivisio"@[2] == 'b');
            assert("superorder"@ != "subdivisio"@);
            assert("superorder"@[5] == 'o' && "superclass"@[5] == 'c');
            assert("superorder"@ != "superclass"@);
            assert("superorder"@[2] == 'p' && "subclassis"@[2] == 'b');
            assert("superorder"@ != "subclassis"@);
            assert("superorder"@[0] == 's' && "infraclass"@[0] == 'i');
            assert("superorder"@ != "infraclass"@);
            assert(rank_of_normalized(normalized_of("superorder"@)) == Some(TaxRank::Superorder));
        },
        TaxRank::Order => {
            assert(trim_of("order"@) == "order"@);
            assert(vstd::utf8::is_ascii_chars("order"@));
            assert(ascii_lowercase_of("order"@) =~= "order"@);
            assert("order"@[0] == 'o' && "regio"@[0] == 'r');
            assert("order"@ != "regio"@);
            assert("order"@[0] == 'o' && "phyla"@[0] == 'p');
            assert("order"@ != "phyla"@);
            assert("order"@[0] == 'o' && "class"@[0] == 'c');
            assert("order"@ != "class"@);
            assert(rank_of_normalized(normalized_of("order"@)) == Some(TaxRank::Order));
        },
        TaxRank::Suborder => {
            assert(trim_of("suborder"@) == "suborder"@);
            assert(vstd::utf8::is_ascii_chars("suborder"@));
            assert(ascii_lowercase_of("suborder"@) =~= "suborder"@);
            assert("suborder"@[3] == 'o' && "subphyla"@[3] == 'p');
            assert("suborder"@ != "subphyla"@);
            assert("suborder"@[3] == 'o' && "subclass"@[3] == 'c');
            assert("suborder"@ != "subclass"@);
            assert(rank_of_normalized(normalized_of("suborder"@)) == Some(TaxRank::Suborder));
        },
        TaxRank::Infraorder => {
            assert(trim_of("infraorder"@) == "infraorder"@);
            assert(vstd::utf8::is_ascii_chars("infraorder"@));
            assert(ascii_lowercase_of("infraorder"@) =~= "infraorder"@);
            assert("infraorder"@[0] == 'i' && "subkingdom"@[0] == 's');
            assert("infraorder"@ != "subkingdom"@);
            assert("infraorder"@[0] == 'i' && "superphyla"@[0] == 's');
            assert("infraorder"@ != "superphyla"@);
            assert("infraorder"@[0] == 'i' && "subdivisio"@[0] == 's');
            assert("infraorder"@ != "subdivisio"@);
            assert("infraorder"@[0] == 'i' && "superclass"@[0] == 's');
            assert("infraorder"@ != "superclass"@);
            assert("infraorder"@[0] == 'i' && "subclassis"@[0] == 's');
            assert("infraorder"@ != "subclassis"@);
            assert("infraorder"@[5] == 'o' && "infraclass"@[5] == 'c');
            assert("infraorder"@ != "infraclass"@);
            assert("infraorder"@[0] == 'i' && "superorder"@[0] == 's');
            assert("infraorder"@ != "superorder"@);
            assert(rank_of_normalized(normalized_of("infraorder"@)) == Some(TaxRank::Infraorder));
        },
        TaxRank::Parvorder => {
            assert(trim_of("parvorder"@) == "parvorder"@);
            assert(vstd::utf8::is_ascii_chars("parvorder"@));
            assert(ascii_lowercase_of("parvorder"@) =~= "parvorder"@);
            assert("parvorder"@[0] == 'p' && "subdomain"@[0] == 's');
            assert("parvorder"@ != "subdomain"@);
            assert("parvorder"@[0] == 'p' && "subregnum"@[0] == 's');
            assert("parvorder"@ != "subregnum"@);
            assert("parvorder"@[0] == 'p' && "subphylum"@[0] == 's');
            assert("parvorder"@ != "subphylum"@);
            assert(rank_of_normalized(normalized_of("parvorder"@)) == Some(TaxRank::Parvorder));
        },
        TaxRank::Superfamily => {
            assert(trim_of("superfamily"@) == "superfamily"@);
            assert(vstd::utf8::is_ascii_chars("superfamily"@));
            assert(ascii_lowercase_of("superfamily"@) =~= "superfamily"@);
            assert("superfamily"@[5] == 'f' && "superphylum"@[5] == 'p');
            assert("superfamily"@ != "superphylum"@);
            assert(rank_of_normalized(normalized_of("superfamily"@)) == Some(TaxRank::Superfamily));
        },
        TaxRank::Family => {
            assert(trim_of("family"@) == "family"@);
            assert(vstd::utf8::is_ascii_chars("family"@));
            assert(ascii_lowercase_of("family"@) =~= "family"@);
            assert("family"@[0] == 'f' && "domain"@[0] == 'd');
            assert("family"@ != "domain"@);
            assert("family"@[0] == 'f' && "regnum"@[0] == 'r');
            assert("family"@ != "regnum"@);
            assert("family"@[0] == 'f' && "phylum"@[0] == 'p');
            assert("family"@ != "phylum"@);
            assert("family"@[0] == 'f' && "cohort"@[0] == 'c');
            assert("family"@ != "cohort"@);
            assert("family"@[0] == 'f' && "sectio"@[0] == 's');
            assert("family"@ != "sectio"@);
            assert(rank_of_normalized(normalized_of("family"@)) == Some(TaxRank::Family));
        },
        TaxRank::Subfamily => {
            assert(trim_of("subfamily"@) == "subfamily"@);
            assert(vstd::utf8::is_ascii_chars("subfamily"@));
            assert(ascii_lowercase_of("subfamily"@) =~= "subfamily"@);
            assert("subfamily"@[3] == 'f' && "subdomain"@[3] == 'd');
            assert("subfamily"@ != "subdomain"@);
            assert("subfamily"@[3] == 'f' && "subregnum"@[3] == 'r');
            assert("subfamily"@ != "subregnum"@);
            assert("subfamily"@[3] == 'f' && "subphylum"@[3] == 'p');
            assert("subfamily"@ != "subphylum"@);
            assert("subfamily"@[0] == 's' && "parvorder"@[0] == 'p');
            assert("subfamily"@ != "parvorder"@);
            assert(rank_of_normalized(normalized_of("subfamily"@)) == Some(TaxRank::Subfamily));
        },
        TaxRank::Tribe => {
            assert(trim_of("tribe"@) == "tribe"@);
            assert(vstd::utf8::is_ascii_chars("tribe"@));
            assert(ascii_lowercase_of("tribe"@) =~= "tribe"@);
            assert("tribe"@[0] == 't' && "regio"@[0] == 'r');
            assert("tribe"@ != "regio"@);
            assert("tribe"@[0] == 't' && "phyla"@[0] == 'p');
            assert("tribe"@ != "phyla"@);
            assert("tribe"@[0] == 't' && "class"@[0] == 'c');
            assert("tribe"@ != "class"@);
            assert("tribe"@[0] == 't' && "order"@[0] == 'o');
            assert("tribe"@ != "order"@);
            assert(rank_of_normalized(normalized_of("tribe"@)) == Some(TaxRank::Tribe));
        },
        TaxRank::Subtribe => {
            assert(trim_of("subtribe"@) == "subtribe"@);
            assert(vstd::utf8::is_ascii_chars("subtribe"@));
            assert(ascii_lowercase_of("subtribe"@) =~= "subtribe"@);
            assert("subtribe"@[3] == 't' && "subphyla"@[3] == 'p');
            assert("subtribe"@ != "subphyla"@);
            assert("subtribe"@[3] == 't' && "subclass"@[3] == 'c');
            assert("subtribe"@ != "subclass"@);
            assert("subtribe"@[3] == 't' && "suborder"@[3] == 'o');
            assert("subtribe"@ != "suborder"@);
            assert(rank_of_normalized(normalized_of("subtribe"@)) == Some(TaxRank::Subtribe));
        },
        TaxRank::Genus => {
            assert(trim_of("genus"@) == "genus"@);
            assert(vstd::utf8::is_ascii_chars("genus"@));
            assert(ascii_lowercase_of("genus"@) =~= "genus"@);
            assert("genus"@[0] == 'g' && "regio"@[0] == 'r');
            assert("genus"@ != "regio"@);
            assert("genus"@[0] == 'g' && "phyla"@[0] == 'p');
            assert("genus"@ != "phyla"@);
            assert("genus"@[0] == 'g' && "class"@[0] == 'c');
            assert("genus"@ != "class"@);
            assert("genus"@[0] == 'g' && "order"@[0] == 'o');
            assert("genus"@ != "order"@);
            assert("genus"@[0] == 'g' && "tribe"@[0] == 't');
            assert("genus"@ != "tribe"@);
            assert(rank_of_normalized(normalized_of("genus"@)) == Some(TaxRank::Genus));
        },
        TaxRank::Subgenus => {
            assert(trim_of("subgenus"@) == "subgenus"@);
            assert(vstd::utf8::is_ascii_chars("subgenus"@));
            assert(ascii_lowercase_of("subgenus"@) =~= "subgenus"@);
            assert("subgenus"@[3] == 'g' && "subphyla"@[3] == 'p');
            assert("subgenus"@ != "subphyla"@);
            assert("subgenus"@[3] == 'g' && "subclass"@[3] == 'c');
            assert("subgenus"@ != "subclass"@);
            assert("subgenus"@[3] == 'g' && "suborder"@[3] == 'o');
            assert("subgenus"@ != "suborder"@);
            assert("subgenus"@[3] == 'g' && "subtribe"@[3] == 't');
            assert("subgenus"@ != "subtribe"@);
            assert(rank_of_normalized(normalized_of("subgenus"@)) == Some(TaxRank::Subgenus));
        },
        TaxRank::SpeciesGroup => {
            assert(trim_of("species group"@) == "species group"@);
            assert(vstd::utf8::is_ascii_chars("species group"@));
            assert(ascii_lowercase_of("species group"@) =~= "species group"@);
            assert(rank_of_normalized(normalized_of("species group"@)) == Some(TaxRank::SpeciesGroup));
        },
        TaxRank::SpeciesSubgroup => {
            assert(trim_of("species subgroup"@) == "species subgroup"@);
            assert(vstd::utf8::is_ascii_chars("species subgroup"@));
            assert(ascii_lowercase_of("species subgroup"@) =~= "species subgroup"@);
            assert(rank_of_normalized(normalized_of("species subgroup"@)) == Some(TaxRank::SpeciesSubgroup));
        },
        TaxRank::Species => {
            assert(trim_of("species"@) == "species"@);
            assert(vstd::utf8::is_ascii_chars("species"@));
            assert(ascii_lowercase_of("species"@) =~= "species"@);
            assert("species"@[0] == 's' && "kingdom"@[0] == 'k');
            assert("species"@ != "kingdom"@);
            assert("species"@[0] == 's' && "divisio"@[0] == 'd');
            assert("species"@ != "divisio"@);
            assert("species"@[0] == 's' && "classis"@[0] == 'c');
            assert("species"@ != "classis"@);
            assert("species"@[1] == 'p' && "subordo"@[1] == 'u');
            assert("species"@ != "subordo"@);
            assert("species"@[1] == 'p' && "section"@[1] == 'e');
            assert("species"@ != "section"@);
            assert("species"@[0] == 's' && "familia"@[0] == 'f');
            assert("species"@ != "familia"@);
            assert(rank_of_normalized(normalized_of("species"@)) == Some(TaxRank::Species));
        },
        TaxRank::Subspecies => {
            assert(trim_of("subspecies"@) == "subspecies"@);
            assert(vstd::utf8::is_ascii_chars("subspecies"@));
            assert(ascii_lowercase_of("subspecies"@) =~= "subspecies"@);
            assert("subspecies"@[3] == 's' && "subkingdom"@[3] == 'k');
            assert("subspecies"@ != "subkingdom"@);
            assert("subspecies"@[2] == 'b' && "superphyla"@[2] == 'p');
            assert("subspecies"@ != "superphyla"@);
            assert("subspecies"@[3] == 's' && "subdivisio"@[3] == 'd');
            assert("subspecies"@ != "subdivisio"@);
            assert("subspecies"@[2] == 'b' && "superclass"@[2] == 'p');
            assert("subspecies"@ != "superclass"@);
            assert("subspecies"@[3] == 's' && "subclassis"@[3] == 'c');
            assert("subspecies"@ != "subclassis"@);
            assert("subspecies"@[0] == 's' && "infraclass"@[0] == 'i');
            assert("subspecies"@ != "infraclass"@);
            assert("subspecies"@[2] == 'b' && "superorder"@[2] == 'p');
            assert("subspecies"@ != "superorder"@);
            assert("subspecies"@[0] == 's' && "infraorder"@[0] == 'i');
            assert("subspecies"@ != "infraorder"@);
            assert("subspecies"@[4] == 'p' && "subsection"@[4] == 'e');
            assert("subspecies"@ != "subsection"@);
            assert(rank_of_normalized(normalized_of("subspecies"@)) == Some(TaxRank::Subspecies));
        },
        TaxRank::Varietas => {
            assert(trim_of("varietas"@) == "varietas"@);
            assert(vstd::utf8::is_ascii_chars("varietas"@));
            assert(ascii_lowercase_of("varietas"@) =~= "varietas"@);
            assert("varietas"@[0] == 'v' && "subphyla"@[0] == 's');
            assert("varietas"@ != "subphyla"@);
            assert("varietas"@[0] == 'v' && "subclass"@[0] == 's');
            assert("varietas"@ != "subclass"@);
            assert("varietas"@[0] == 'v' && "suborder"@[0] == 's');
            assert("varietas"@ != "suborder"@);
            assert("varietas"@[0] == 'v' && "subtribe"@[0] == 's');
            assert("varietas"@ != "subtribe"@);
            assert("varietas"@[0] == 'v' && "subgenus"@[0] == 's');
            assert("varietas"@ != "subgenus"@);
            assert(rank_of_normalized(normalized_of("varietas"@)) == Some(TaxRank::Varietas));
        },
        TaxRank::Forma => {
            assert(trim_of("forma"@) == "forma"@);
            assert(vstd::utf8::is_ascii_chars("forma"@));
            assert(ascii_lowercase_of("forma"@) =~= "forma"@);
            assert("forma"@[0] == 'f' && "regio"@[0] == 'r');
            assert("forma"@ != "regio"@);
            assert("forma"@[0] == 'f' && "phyla"@[0] == 'p');
            assert("forma"@ != "phyla"@);
            assert("forma"@[0] == 'f' && "class"@[0] == 'c');
            assert("forma"@ != "class"@);
            assert("forma"@[0] == 'f' && "order"@[0] == 'o');
            assert("forma"@ != "order"@);
            assert("forma"@[0] == 'f' && "tribe"@[0] == 't');
            assert("forma"@ != "tribe"@);
            assert("forma"@[0] == 'f' && "genus"@[0] == 'g');
            assert("forma"@ != "genus"@);
            assert(rank_of_normalized(normalized_of("forma"@)) == Some(TaxRank::Forma));
        },
        _ => {},
    }
}

impl core::str::FromStr for TaxRank {
    type Err = TaxonomyError;

    /// Parses a free-form rank string; see [`TaxRank::from_str`].
    fn from_str(s: &str) -> Result<TaxRank, TaxonomyError> {
        TaxRank::from_str(s)
    }
}

} // verus!
