//! The two top-level parsers: the 18-character second-generation
//! format with its check digit, and the legacy 15-character format.

use vstd::prelude::*;
use vstd::string::StringSliceAdditionalSpecFns;
use crate::calendar::is_valid_date;
use crate::calendar::validate_ymd;
use crate::checksum::checksum_ok;
use crate::checksum::lemma_single_flip_breaks_checksum;
use crate::checksum::validate_checksum;
use crate::digits::digit_val;
use crate::digits::is_digit;
use crate::digits::region_code_val;
use crate::digits::u16_from_char4;
use crate::digits::u8_from_char2;
use crate::region::Region;
use crate::region::RegionDataset;
use crate::region::get_region;
use crate::region::region_view;
use crate::region::spec_region;

verus! {

/// Why a candidate string is not a valid identity number. The set is
/// open to future kinds: consumers must keep a fallback arm.
#[derive(Debug, Clone, PartialEq, Eq)]
#[non_exhaustive]
pub enum Error {
    InvalidLength,
    InvalidCharacter,
    WrongCheckNumber,
    InvalidBirthday,
}

impl Error {
    /// Name of the error kind, as a test or a log line would render it.
    pub fn kind_name(&self) -> (r: &'static str)
        ensures
            r@ == (match *self {
                Error::InvalidLength => "InvalidLength"@,
                Error::InvalidCharacter => "InvalidCharacter"@,
                Error::WrongCheckNumber => "WrongCheckNumber"@,
                Error::InvalidBirthday => "InvalidBirthday"@,
            }),
    {
        match self {
            Error::InvalidLength => "InvalidLength",
            Error::InvalidCharacter => "InvalidCharacter",
            Error::WrongCheckNumber => "WrongCheckNumber",
            Error::InvalidBirthday => "InvalidBirthday",
        }
    }
}

/// Sex encoded by the parity of the designated sequence digit.
#[derive(Debug, Clone, Copy, PartialEq, Eq, Structural)]
pub enum Sex {
    Male,
    Female,
}

/// A successfully parsed identity number: sex, birth date and the
/// region names known for the encoded region code and birth year.
#[derive(Debug, PartialEq, Eq)]
pub struct ParsedIdNumber {
    sex: Sex,
    birthday: (u16, u8, u8),
    region: Region,
}

impl ParsedIdNumber {
    /// Sex held by the parsed number.
    pub closed spec fn spec_sex(self) -> Sex {
        self.sex
    }

    /// Birth date held by the parsed number.
    pub closed spec fn spec_birthday(self) -> (u16, u8, u8) {
        self.birthday
    }

    /// Region names held by the parsed number.
    pub closed spec fn spec_region(self) -> Region {
        self.region
    }

    #[must_use]
    pub fn sex(&self) -> (r: Sex)
        ensures
            r == self.spec_sex(),
    {
        self.sex
    }

    #[must_use]
    pub fn birthday_ymd(&self) -> (r: (u16, u8, u8))
        ensures
            r == self.spec_birthday(),
    {
        self.birthday
    }

    #[must_use]
    pub fn region(&self) -> (r: &Region)
        ensures
            *r == self.spec_region(),
    {
        &self.region
    }
}

/// The sane year window: strictly between 1800 and 2200.
pub open spec fn year_in_range(y: int) -> bool {
    1800 < y < 2200
}

/// Character classes of the 18-character format: seventeen digits,
/// then a digit or the letter `'X'`.
pub open spec fn v2_chars_ok(s: Seq<u8>) -> bool {
    (forall|i: int| 0 <= i < 17 ==> is_digit(#[trigger] s[i])) && (is_digit(s[17]) || s[17] == 88)
}

/// The final position is the only one where the letter `'X'` is
/// accepted: an `'X'` anywhere among the first seventeen characters
/// fails the character classes.
pub proof fn lemma_x_only_in_final_position(s: Seq<u8>, j: int)
    requires
        s.len() == 18,
        0 <= j < 17,
        s[j] == 88,
    ensures
        !v2_chars_ok(s),
{
}

/// Character classes of the 15-character format: digits throughout.
pub open spec fn v1_chars_ok(s: Seq<u8>) -> bool {
    forall|i: int| 0 <= i < 15 ==> is_digit(#[trigger] s[i])
}

/// Birth year of an 18-character number.
pub open spec fn v2_year(s: Seq<u8>) -> int {
    digit_val(s[6]) * 1000 + digit_val(s[7]) * 100 + digit_val(s[8]) * 10 + digit_val(s[9])
}

/// Birth month of an 18-character number.
pub open spec fn v2_month(s: Seq<u8>) -> int {
    digit_val(s[10]) * 10 + digit_val(s[11])
}

/// Birth day of an 18-character number.
pub open spec fn v2_day(s: Seq<u8>) -> int {
    digit_val(s[12]) * 10 + digit_val(s[13])
}

/// Birth year of a 15-character number: always within the 1900s.
pub open spec fn v1_year(s: Seq<u8>) -> int {
    1900 + digit_val(s[6]) * 10 + digit_val(s[7])
}

/// Birth month of a 15-character number.
pub open spec fn v1_month(s: Seq<u8>) -> int {
    digit_val(s[8]) * 10 + digit_val(s[9])
}

/// Birth day of a 15-character number.
pub open spec fn v1_day(s: Seq<u8>) -> int {
    digit_val(s[10]) * 10 + digit_val(s[11])
}

/// The encoded birth date is within the year window and is a real
/// calendar date.
pub open spec fn v2_birthday_ok(s: Seq<u8>) -> bool {
    year_in_range(v2_year(s)) && is_valid_date(v2_year(s), v2_month(s), v2_day(s))
}

/// The encoded birth date of a 15-character number is a real calendar
/// date; its year lies in the 1900s by construction.
pub open spec fn v1_birthday_ok(s: Seq<u8>) -> bool {
    is_valid_date(v1_year(s), v1_month(s), v1_day(s))
}

/// Sex encoded by an 18-character number: parity of digit 16.
pub open spec fn v2_sex(s: Seq<u8>) -> Sex {
    if digit_val(s[16]) % 2 == 1 {
        Sex::Male
    } else {
        Sex::Female
    }
}

/// Sex encoded by a 15-character number: parity of digit 14.
pub open spec fn v1_sex(s: Seq<u8>) -> Sex {
    if digit_val(s[14]) % 2 == 1 {
        Sex::Male
    } else {
        Sex::Female
    }
}

/// Everything `parse_v2` promises of its result, over the byte form
/// `s` of the input and the dataset view `ds`: each validation stage
/// fails with its own error, and a fully valid number yields the
/// encoded sex, birth date and resolved region.
pub open spec fn parse_v2_rel(
    s: Seq<u8>,
    ds: Seq<(int, Seq<(int, Seq<char>)>)>,
    r: Result<ParsedIdNumber, Error>,
) -> bool {
    &&& (s.len() != 18 ==> r == Err::<ParsedIdNumber, Error>(Error::InvalidLength))
    &&& (s.len() == 18 && !v2_chars_ok(s) ==> r == Err::<ParsedIdNumber, Error>(
        Error::InvalidCharacter,
    ))
    &&& (s.len() == 18 && v2_chars_ok(s) && !checksum_ok(s) ==> r == Err::<ParsedIdNumber, Error>(
        Error::WrongCheckNumber,
    ))
    &&& (s.len() == 18 && v2_chars_ok(s) && checksum_ok(s) && !v2_birthday_ok(s) ==> r == Err::<
        ParsedIdNumber,
        Error,
    >(Error::InvalidBirthday))
    &&& (s.len() == 18 && v2_chars_ok(s) && checksum_ok(s) && v2_birthday_ok(s) ==> {
        &&& r is Ok
        &&& r->Ok_0.spec_sex() == v2_sex(s)
        &&& r->Ok_0.spec_birthday() == (v2_year(s) as u16, v2_month(s) as u8, v2_day(s) as u8)
        &&& region_view(r->Ok_0.spec_region()) == spec_region(ds, v2_year(s), region_code_val(s))
    })
}

/// Everything `parse_v1` promises of its result, in the same shape as
/// `parse_v2_rel`; the 15-character format has no check digit.
pub open spec fn parse_v1_rel(
    s: Seq<u8>,
    ds: Seq<(int, Seq<(int, Seq<char>)>)>,
    r: Result<ParsedIdNumber, Error>,
) -> bool {
    &&& (s.len() != 15 ==> r == Err::<ParsedIdNumber, Error>(Error::InvalidLength))
    &&& (s.len() == 15 && !v1_chars_ok(s) ==> r == Err::<ParsedIdNumber, Error>(
        Error::InvalidCharacter,
    ))
    &&& (s.len() == 15 && v1_chars_ok(s) && !v1_birthday_ok(s) ==> r == Err::<
        ParsedIdNumber,
        Error,
    >(Error::InvalidBirthday))
    &&& (s.len() == 15 && v1_chars_ok(s) && v1_birthday_ok(s) ==> {
        &&& r is Ok
        &&& r->Ok_0.spec_sex() == v1_sex(s)
        &&& r->Ok_0.spec_birthday() == (v1_year(s) as u16, v1_month(s) as u8, v1_day(s) as u8)
        &&& region_view(r->Ok_0.spec_region()) == spec_region(ds, v1_year(s), region_code_val(s))
    })
}

/// Observable content of a parse result: the sex, birth date and
/// region-name views of a success, or the error kind of a failure.
pub open spec fn result_rep(r: Result<ParsedIdNumber, Error>) -> Result<
    (Sex, (u16, u8, u8), (Option<Seq<char>>, Option<Seq<char>>, Option<Seq<char>>)),
    Error,
> {
    match r {
        Ok(p) => Ok((p.spec_sex(), p.spec_birthday(), region_view(p.spec_region()))),
        Err(e) => Err(e),
    }
}

/// Parsing is deterministic: two results of parsing the same
/// 18-character string against the same dataset have the same
/// observable content.
pub proof fn lemma_parse_v2_deterministic(
    s: Seq<u8>,
    ds: Seq<(int, Seq<(int, Seq<char>)>)>,
    r1: Result<ParsedIdNumber, Error>,
    r2: Result<ParsedIdNumber, Error>,
)
    requires
        parse_v2_rel(s, ds, r1),
        parse_v2_rel(s, ds, r2),
    ensures
        result_rep(r1) == result_rep(r2),
{
}

/// Parsing is deterministic: two results of parsing the same
/// 15-character string against the same dataset have the same
/// observable content.
pub proof fn lemma_parse_v1_deterministic(
    s: Seq<u8>,
    ds: Seq<(int, Seq<(int, Seq<char>)>)>,
    r1: Result<ParsedIdNumber, Error>,
    r2: Result<ParsedIdNumber, Error>,
)
    requires
        parse_v1_rel(s, ds, r1),
        parse_v1_rel(s, ds, r2),
    ensures
        result_rep(r1) == result_rep(r2),
{
}

/// The parser's accept or reject decision agrees with recomputing the
/// checksum: a syntactically valid 18-character string is rejected
/// with `WrongCheckNumber` exactly when the weighted modulo-11
/// residue disagrees with the stored check symbol.
pub proof fn lemma_checksum_decides(
    s: Seq<u8>,
    ds: Seq<(int, Seq<(int, Seq<char>)>)>,
    r: Result<ParsedIdNumber, Error>,
)
    requires
        s.len() == 18,
        v2_chars_ok(s),
        parse_v2_rel(s, ds, r),
    ensures
        !checksum_ok(s) <==> r == Err::<ParsedIdNumber, Error>(Error::WrongCheckNumber),
{
}

/// Flipping any single digit of an 18-character number whose checksum
/// agrees, holding the check symbol and every other character fixed,
/// makes the parser reject the flipped string with `WrongCheckNumber`.
pub proof fn lemma_flipped_digit_rejected(
    s: Seq<u8>,
    t: Seq<u8>,
    i: int,
    ds: Seq<(int, Seq<(int, Seq<char>)>)>,
    rt: Result<ParsedIdNumber, Error>,
)
    requires
        s.len() == 18,
        t.len() == 18,
        0 <= i < 17,
        is_digit(t[i]),
        t[i] != s[i],
        forall|j: int| 0 <= j < 18 && j != i ==> s[j] == #[trigger] t[j],
        v2_chars_ok(s),
        v2_chars_ok(t),
        checksum_ok(s),
        parse_v2_rel(t, ds, rt),
    ensures
        rt == Err::<ParsedIdNumber, Error>(Error::WrongCheckNumber),
{
    lemma_single_flip_breaks_checksum(s, t, i);
}

/// Parses an 18-character second-generation identity number against
/// the given region dataset.
pub fn parse_v2(id_str: &str, dataset: &RegionDataset) -> (r: Result<ParsedIdNumber, Error>)
    ensures
        parse_v2_rel(id_str.spec_bytes(), dataset@, r),
{
    let id: &[u8] = id_str.as_bytes();
    if id.len() != 18 {
        return Err(Error::InvalidLength);
    }
    let mut i: usize = 0;
    while i < 17
        invariant
            i <= 17,
            id@ == id_str.spec_bytes(),
            id@.len() == 18,
            forall|j: int| 0 <= j < i ==> is_digit(#[trigger] id@[j]),
        decreases 17 - i,
    {
        if id[i] < 48 || id[i] > 57 {
            return Err(Error::InvalidCharacter);
        }
        i = i + 1;
    }
    if (id[17] < 48 || id[17] > 57) && id[17] != 88 {
        return Err(Error::InvalidCharacter);
    }
    if !validate_checksum(id) {
        return Err(Error::WrongCheckNumber);
    }
    let year: u16 = u16_from_char4([id[6], id[7], id[8], id[9]]);
    let month: u8 = u8_from_char2([id[10], id[11]]);
    let day: u8 = u8_from_char2([id[12], id[13]]);
    if year <= 1800 || year >= 2200 {
        return Err(Error::InvalidBirthday);
    }
    if !validate_ymd(year, month, day) {
        return Err(Error::InvalidBirthday);
    }
    let region_code: [u8; 6] = [id[0], id[1], id[2], id[3], id[4], id[5]];
    let region = get_region(dataset, region_code, year);
    let sex = if id[16] % 2 == 1 {
        Sex::Male
    } else {
        Sex::Female
    };
    Ok(ParsedIdNumber { sex, birthday: (year, month, day), region })
}

/// Parses a 15-character first-generation identity number against the
/// given region dataset.
pub fn parse_v1(id_str: &str, dataset: &RegionDataset) -> (r: Result<ParsedIdNumber, Error>)
    ensures
        parse_v1_rel(id_str.spec_bytes(), dataset@, r),
{
    let id: &[u8] = id_str.as_bytes();
    if id.len() != 15 {
        return Err(Error::InvalidLength);
    }
    let mut i: usize = 0;
    while i < 15
        invariant
            i <= 15,
            id@ == id_str.spec_bytes(),
            id@.len() == 15,
            forall|j: int| 0 <= j < i ==> is_digit(#[trigger] id@[j]),
        decreases 15 - i,
    {
        if id[i] < 48 || id[i] > 57 {
            return Err(Error::InvalidCharacter);
        }
        i = i + 1;
    }
    let year: u16 = u16_from_char4([49, 57, id[6], id[7]]);
    let month: u8 = u8_from_char2([id[8], id[9]]);
    let day: u8 = u8_from_char2([id[10], id[11]]);
    if !validate_ymd(year, month, day) {
        return Err(Error::InvalidBirthday);
    }
    let region_code: [u8; 6] = [id[0], id[1], id[2], id[3], id[4], id[5]];
    let region = get_region(dataset, region_code, year);
    let sex = if id[14] % 2 == 1 {
        Sex::Male
    } else {
        Sex::Female
    };
    Ok(ParsedIdNumber { sex, birthday: (year, month, day), region })
}

} // verus!
