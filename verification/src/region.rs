//! The administrative-region dataset and the tiered lookup of
//! province, city and district names for a region code and birth year.

use std::collections::BTreeMap;
use vstd::prelude::*;
use crate::digits::is_digit;
use crate::digits::region_code_val;
use crate::digits::u32_from_code6;

verus! {

/// One region of one year's table: a 6-digit code and its display name.
#[derive(Debug, Clone, PartialEq, Eq)]
pub struct RegionEntry {
    pub code: u32,
    pub name: String,
}

/// The regions known for one year.
#[derive(Debug, Clone, PartialEq, Eq)]
pub struct YearTable {
    pub year: u16,
    pub entries: Vec<RegionEntry>,
}

/// The whole dataset: per-year region tables. Built once, read-only
/// thereafter; parsing functions take it by shared reference.
#[derive(Debug, Clone, PartialEq, Eq)]
pub struct RegionDataset {
    pub years: Vec<YearTable>,
}

/// Region names resolved for an identity number: each of the three
/// tiers is independently absent when the dataset has no match.
#[derive(Debug, Clone, PartialEq, Eq)]
pub struct Region {
    pub province: Option<String>,
    pub city: Option<String>,
    pub district: Option<String>,
}

impl View for RegionEntry {
    type V = (int, Seq<char>);

    open spec fn view(&self) -> (int, Seq<char>) {
        (self.code as int, self.name@)
    }
}

/// Mathematical form of one year's entries: pairs of code and name.
pub open spec fn entries_view(entries: Seq<RegionEntry>) -> Seq<(int, Seq<char>)> {
    entries.map_values(|e: RegionEntry| e@)
}

impl View for YearTable {
    type V = (int, Seq<(int, Seq<char>)>);

    open spec fn view(&self) -> (int, Seq<(int, Seq<char>)>) {
        (self.year as int, entries_view(self.entries@))
    }
}

/// Mathematical form of the dataset: pairs of year and table.
pub open spec fn tables_view(tables: Seq<YearTable>) -> Seq<(int, Seq<(int, Seq<char>)>)> {
    tables.map_values(|t: YearTable| t@)
}

impl View for RegionDataset {
    type V = Seq<(int, Seq<(int, Seq<char>)>)>;

    open spec fn view(&self) -> Seq<(int, Seq<(int, Seq<char>)>)> {
        tables_view(self.years@)
    }
}

/// View of an optional display name.
pub open spec fn opt_name_view(o: Option<String>) -> Option<Seq<char>> {
    match o {
        Some(s) => Some(s@),
        None => None,
    }
}

/// Views of the three tiers of a resolved region.
pub open spec fn region_view(r: Region) -> (Option<Seq<char>>, Option<Seq<char>>, Option<
    Seq<char>,
>) {
    (opt_name_view(r.province), opt_name_view(r.city), opt_name_view(r.district))
}

/// Name of the first entry carrying the code, if any.
pub open spec fn lookup_code(entries: Seq<(int, Seq<char>)>, code: int) -> Option<Seq<char>>
    decreases entries.len(),
{
    if entries.len() == 0 {
        None
    } else if entries[0].0 == code {
        Some(entries[0].1)
    } else {
        lookup_code(entries.drop_first(), code)
    }
}

/// Table of the first year entry carrying the year, if any.
pub open spec fn lookup_year(ds: Seq<(int, Seq<(int, Seq<char>)>)>, year: int) -> Option<
    Seq<(int, Seq<char>)>,
>
    decreases ds.len(),
{
    if ds.len() == 0 {
        None
    } else if ds[0].0 == year {
        Some(ds[0].1)
    } else {
        lookup_year(ds.drop_first(), year)
    }
}

/// What region resolution returns: for a year absent from the dataset
/// every tier is absent; for a code of the abbreviated form `XX0000`
/// only the province is looked up; otherwise the three zero-padded
/// keys are looked up independently.
pub open spec fn spec_region(
    ds: Seq<(int, Seq<(int, Seq<char>)>)>,
    year: int,
    code: int,
) -> (Option<Seq<char>>, Option<Seq<char>>, Option<Seq<char>>) {
    match lookup_year(ds, year) {
        None => (None, None, None),
        Some(entries) => {
            if code % 10000 == 0 {
                (lookup_code(entries, code), None, None)
            } else {
                (
                    lookup_code(entries, code - code % 10000),
                    lookup_code(entries, code - code % 100),
                    lookup_code(entries, code),
                )
            }
        },
    }
}

/// Resolution of an abbreviated code never populates city or district,
/// whatever the dataset and the year hold.
pub proof fn lemma_abbreviated_code_region(
    ds: Seq<(int, Seq<(int, Seq<char>)>)>,
    year: int,
    code: int,
)
    requires
        code % 10000 == 0,
    ensures
        spec_region(ds, year, code).1 is None,
        spec_region(ds, year, code).2 is None,
{
}

/// Finds the index of the table of the given year.
fn find_year_index(tables: &Vec<YearTable>, year: u16) -> (r: Option<usize>)
    ensures
        match r {
            Some(idx) => idx < tables@.len() && lookup_year(tables_view(tables@), year as int)
                == Some(entries_view(tables@[idx as int].entries@)),
            None => lookup_year(tables_view(tables@), year as int) is None,
        },
{
    let ghost full = tables_view(tables@);
    proof {
        assert(full.skip(0) =~= full);
    }
    let mut i: usize = 0;
    while i < tables.len()
        invariant
            i <= tables@.len(),
            full == tables_view(tables@),
            full.len() == tables@.len(),
            lookup_year(full, year as int) == lookup_year(full.skip(i as int), year as int),
        decreases tables@.len() - i,
    {
        if tables[i].year == year {
            proof {
                assert(full.skip(i as int)[0] == tables@[i as int]@);
            }
            return Some(i);
        }
        proof {
            assert(full.skip(i as int)[0] == tables@[i as int]@);
            assert(full.skip(i as int).drop_first() =~= full.skip(i as int + 1));
        }
        i = i + 1;
    }
    proof {
        assert(full.skip(i as int) =~= Seq::<(int, Seq<(int, Seq<char>)>)>::empty());
    }
    None
}

/// Finds the name of the given code in one year's entries.
fn lookup_name(entries: &Vec<RegionEntry>, code: u32) -> (r: Option<String>)
    ensures
        opt_name_view(r) == lookup_code(entries_view(entries@), code as int),
{
    let ghost full = entries_view(entries@);
    proof {
        assert(full.skip(0) =~= full);
    }
    let mut i: usize = 0;
    while i < entries.len()
        invariant
            i <= entries@.len(),
            full == entries_view(entries@),
            full.len() == entries@.len(),
            lookup_code(full, code as int) == lookup_code(full.skip(i as int), code as int),
        decreases entries@.len() - i,
    {
        if entries[i].code == code {
            proof {
                assert(full.skip(i as int)[0] == entries@[i as int]@);
            }
            return Some(entries[i].name.clone());
        }
        proof {
            assert(full.skip(i as int)[0] == entries@[i as int]@);
            assert(full.skip(i as int).drop_first() =~= full.skip(i as int + 1));
        }
        i = i + 1;
    }
    proof {
        assert(full.skip(i as int) =~= Seq::<(int, Seq<char>)>::empty());
    }
    None
}

/// Resolves province, city and district names for a 6-digit region
/// code and a birth year. A miss at any tier is not an error: the
/// tier is absent.
pub fn get_region(dataset: &RegionDataset, region_code: [u8; 6], year: u16) -> (r: Region)
    requires
        forall|i: int| 0 <= i < 6 ==> is_digit(#[trigger] region_code@[i]),
    ensures
        region_view(r) == spec_region(dataset@, year as int, region_code_val(region_code@)),
{
    let code: u32 = u32_from_code6(region_code);
    match find_year_index(&dataset.years, year) {
        None => Region { province: None, city: None, district: None },
        Some(idx) => {
            let table = &dataset.years[idx];
            if code % 10000 == 0 {
                Region { province: lookup_name(&table.entries, code), city: None, district: None }
            } else {
                let province_code: u32 = code - code % 10000;
                let city_code: u32 = code - code % 100;
                Region {
                    province: lookup_name(&table.entries, province_code),
                    city: lookup_name(&table.entries, city_code),
                    district: lookup_name(&table.entries, code),
                }
            }
        },
    }
}

/// What an outside JSON decoder reads a dataset text as: the per-year
/// tables in ascending year order, or nothing when the text is not a
/// JSON object of year keys to objects of code keys and names.
pub uninterp spec fn dataset_of_json(text: Seq<char>) -> Option<
    Seq<(int, Seq<(int, Seq<char>)>)>,
>;

/// Relies on serde_json::from_str: deserializing into ordered maps of
/// integer keys depends on the text alone, and a text that is not a
/// dataset document is refused.
#[verifier::external_body]
fn parse_dataset_json(text: &str) -> (r: Option<RegionDataset>)
    ensures
        match r {
            Some(ds) => Some(ds@) == dataset_of_json(text@),
            None => dataset_of_json(text@) is None,
        },
{
    let tables: BTreeMap<u16, BTreeMap<u32, String>> = match serde_json::from_str(text) {
        Ok(t) => t,
        Err(_) => return None,
    };
    let years = tables
        .into_iter()
        .map(|(year, entries)| YearTable {
            year,
            entries: entries.into_iter().map(|(code, name)| RegionEntry { code, name }).collect(),
        })
        .collect();
    Some(RegionDataset { years })
}

impl RegionDataset {
    /// Loads a dataset from its serialized form: a JSON object mapping
    /// year strings to objects mapping 6-digit code strings to names.
    pub fn from_json(text: &str) -> (r: Option<RegionDataset>)
        ensures
            match r {
                Some(ds) => Some(ds@) == dataset_of_json(text@),
                None => dataset_of_json(text@) is None,
            },
    {
        parse_dataset_json(text)
    }
}

} // verus!
