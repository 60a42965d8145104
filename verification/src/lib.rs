//! Validation and decoding of Chinese citizen identity numbers: the
//! 18-character second-generation format (GB 11643-1999) and the legacy
//! 15-character first-generation format.
//!
//! A successful parse yields the holder's sex, birth date and, when the
//! region dataset knows the encoded region code for the birth year, the
//! names of the province, city and district.

pub mod calendar;
pub mod checksum;
pub mod digits;
pub mod parse;
pub mod region;

pub use calendar::validate_ymd;
pub use digits::u16_from_char4;
pub use digits::u8_from_char2;
pub use parse::Error;
pub use parse::ParsedIdNumber;
pub use parse::Sex;
pub use parse::parse_v1;
pub use parse::parse_v2;
pub use region::Region;
pub use region::RegionDataset;
pub use region::RegionEntry;
pub use region::YearTable;
pub use region::get_region;
