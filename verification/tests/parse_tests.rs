use cn_idcard::Error;
use cn_idcard::RegionDataset;
use cn_idcard::RegionEntry;
use cn_idcard::Sex;
use cn_idcard::YearTable;
use cn_idcard::parse_v1;
use cn_idcard::parse_v2;

fn entry(code: u32, name: &str) -> RegionEntry {
    RegionEntry { code, name: name.to_string() }
}

fn sample_dataset() -> RegionDataset {
    RegionDataset {
        years: vec![YearTable {
            year: 1982,
            entries: vec![
                entry(110000, "北京市"),
                entry(420000, "湖北省"),
                entry(420100, "武汉市"),
                entry(420111, "洪山区"),
            ],
        }],
    }
}

#[test]
fn test_parse() {
    let ds = sample_dataset();
    {
        let id = "11010519491231002X";
        let parsed = parse_v2(id, &ds).unwrap();
        assert_eq!(parsed.birthday_ymd(), (1949, 12, 31));
        assert_eq!(parsed.sex(), Sex::Female);
    }
    {
        let id = "440524188001010014";
        let parsed = parse_v2(id, &ds).unwrap();
        assert_eq!(parsed.birthday_ymd(), (1880, 1, 1));
        assert_eq!(parsed.sex(), Sex::Male);
    }
    {
        let id = "420111198203251029";
        let parsed = parse_v2(id, &ds).unwrap();
        assert_eq!(parsed.birthday_ymd(), (1982, 3, 25));
        assert_eq!(parsed.sex(), Sex::Female);
        assert_eq!(parsed.region().province.as_deref(), Some("湖北省"));
        assert_eq!(parsed.region().city.as_deref(), Some("武汉市"));
        assert_eq!(parsed.region().district.as_deref(), Some("洪山区"));
    }
}

#[test]
fn wrong_length_is_invalid_length() {
    let ds = sample_dataset();
    assert_eq!(parse_v2("", &ds), Err(Error::InvalidLength));
    assert_eq!(parse_v2("123", &ds), Err(Error::InvalidLength));
    assert_eq!(parse_v2("11010519491231002", &ds), Err(Error::InvalidLength));
    assert_eq!(parse_v2("11010519491231002X1", &ds), Err(Error::InvalidLength));
    assert_eq!(parse_v1("", &ds), Err(Error::InvalidLength));
    assert_eq!(parse_v1("11010549123100", &ds), Err(Error::InvalidLength));
    assert_eq!(parse_v1("1101054912310021", &ds), Err(Error::InvalidLength));
    // an 18-character number handed to the 15-character parser
    assert_eq!(parse_v1("11010519491231002X", &ds), Err(Error::InvalidLength));
    // a 15-character number handed to the 18-character parser
    assert_eq!(parse_v2("110105491231002", &ds), Err(Error::InvalidLength));
}

#[test]
fn bad_characters_are_invalid_character() {
    let ds = sample_dataset();
    // a letter in a digit-only position
    assert_eq!(parse_v2("1101A519491231002X", &ds), Err(Error::InvalidCharacter));
    // 'X' accepted in the final position only
    assert_eq!(parse_v2("1101X519491231002X", &ds), Err(Error::InvalidCharacter));
    // lowercase 'x' is rejected even in the final position
    assert_eq!(parse_v2("11010519491231002x", &ds), Err(Error::InvalidCharacter));
    // 18 bytes of non-ASCII text pass the length gate, not the character gate
    assert_eq!(parse_v2("北京市北京市", &ds), Err(Error::InvalidCharacter));
    // the 15-character format has no position that accepts 'X'
    assert_eq!(parse_v1("11010549123100X", &ds), Err(Error::InvalidCharacter));
    assert_eq!(parse_v1("110105a91231002", &ds), Err(Error::InvalidCharacter));
}

#[test]
fn flipped_digit_fails_checksum() {
    let ds = sample_dataset();
    // each of these flips one digit of "11010519491231002X",
    // holding the check symbol fixed
    let flipped = [
        "21010519491231002X",
        "12010519491231002X",
        "11110519491231002X",
        "11020519491231002X",
        "11011519491231002X",
        "11010619491231002X",
        "11010529491231002X",
        "11010510491231002X",
        "11010519591231002X",
        "11010519401231002X",
        "11010519492231002X",
        "11010519491331002X",
        "11010519491241002X",
        "11010519491232002X",
        "11010519491231102X",
        "11010519491231012X",
        "11010519491231003X",
    ];
    for id in flipped {
        assert_eq!(parse_v2(id, &ds), Err(Error::WrongCheckNumber));
    }
    // a flipped check symbol fails as well
    assert_eq!(parse_v2("110105194912310020", &ds), Err(Error::WrongCheckNumber));
    assert_eq!(parse_v2("440524188001010015", &ds), Err(Error::WrongCheckNumber));
}

#[test]
fn nonexistent_dates_are_invalid_birthday() {
    let ds = sample_dataset();
    // all four carry a correct check digit, so only the date can fail
    assert_eq!(parse_v2("110105202302300016", &ds), Err(Error::InvalidBirthday));
    assert_eq!(parse_v2("110105202304310015", &ds), Err(Error::InvalidBirthday));
    assert_eq!(parse_v2("110105202313010014", &ds), Err(Error::InvalidBirthday));
    assert_eq!(parse_v2("110105202300100010", &ds), Err(Error::InvalidBirthday));
    // first-generation numbers: 1923-02-30 and 1923-04-31
    assert_eq!(parse_v1("110105230230001", &ds), Err(Error::InvalidBirthday));
    assert_eq!(parse_v1("110105230431001", &ds), Err(Error::InvalidBirthday));
}

#[test]
fn leap_year_boundaries() {
    let ds = sample_dataset();
    assert!(parse_v2("110105200002290013", &ds).is_ok());
    assert!(parse_v2("110105202402290011", &ds).is_ok());
    assert_eq!(parse_v2("110105202302290014", &ds), Err(Error::InvalidBirthday));
    assert_eq!(parse_v2("110105190002290017", &ds), Err(Error::InvalidBirthday));
    // 1900-02-29 through the first-generation parser
    assert_eq!(parse_v1("110105000229001", &ds), Err(Error::InvalidBirthday));
    let ok = parse_v1("110105000228001", &ds).unwrap();
    assert_eq!(ok.birthday_ymd(), (1900, 2, 28));
}

#[test]
fn year_sanity_bounds() {
    let ds = sample_dataset();
    // 1800 and 2200 are excluded even with a correct check digit
    assert_eq!(parse_v2("110105180001010010", &ds), Err(Error::InvalidBirthday));
    assert_eq!(parse_v2("110105220001010014", &ds), Err(Error::InvalidBirthday));
    // 1801 and 2199 lie inside the window
    assert_eq!(parse_v2("110105180101010018", &ds).unwrap().birthday_ymd(), (1801, 1, 1));
    assert_eq!(parse_v2("11010521991231001X", &ds).unwrap().birthday_ymd(), (2199, 12, 31));
}

#[test]
fn sex_parity() {
    let ds = sample_dataset();
    // digit 16 even: female; odd: male
    assert_eq!(parse_v2("11010519491231002X", &ds).unwrap().sex(), Sex::Female);
    assert_eq!(parse_v2("440524188001010014", &ds).unwrap().sex(), Sex::Male);
    // first generation: parity of the final digit
    assert_eq!(parse_v1("110105491231002", &ds).unwrap().sex(), Sex::Female);
    assert_eq!(parse_v1("110105491231001", &ds).unwrap().sex(), Sex::Male);
}

#[test]
fn parsing_twice_is_idempotent() {
    let ds = sample_dataset();
    let first = parse_v2("420111198203251029", &ds);
    let second = parse_v2("420111198203251029", &ds);
    assert_eq!(first, second);
    let first = parse_v1("110105491231002", &ds);
    let second = parse_v1("110105491231002", &ds);
    assert_eq!(first, second);
}

#[test]
fn error_kind_names() {
    assert_eq!(Error::InvalidLength.kind_name(), "InvalidLength");
    assert_eq!(Error::InvalidCharacter.kind_name(), "InvalidCharacter");
    assert_eq!(Error::WrongCheckNumber.kind_name(), "WrongCheckNumber");
    assert_eq!(Error::InvalidBirthday.kind_name(), "InvalidBirthday");
}
