use talan::garland::item_url;
use talan::garland::parse_id;
use talan::garland::search_url;

#[test]
fn query_rakshasa_dogi_of_casting() {
    const RAKSHASA_DOGI_OF_CASTING_ID: u64 = 23821;
    assert_eq!(
        search_url("Rakshasa Dogi of Casting"),
        "https://www.garlandtools.org/api/search.php?&craftable=1&type=item&text=Rakshasa+Dogi+of+Casting&lang=en"
    );
    let id = parse_id("23821").unwrap();
    assert_eq!(id, RAKSHASA_DOGI_OF_CASTING_ID);
}

#[test]
fn query_crimson_cider_recipe() {
    const CRIMSON_CIDER_ID: u64 = 22436;
    assert_eq!(
        item_url(CRIMSON_CIDER_ID),
        "http://www.garlandtools.org/db/doc/item/en/3/22436.json"
    );
}

#[test]
fn search_url_encodes_the_name() {
    assert_eq!(
        search_url("Crème & co=1"),
        "https://www.garlandtools.org/api/search.php?&craftable=1&type=item&text=Cr%C3%A8me+%26+co%3D1&lang=en"
    );
    assert_eq!(
        search_url(""),
        "https://www.garlandtools.org/api/search.php?&craftable=1&type=item&text=&lang=en"
    );
}

#[test]
fn item_url_holds_the_id_in_decimal() {
    assert_eq!(item_url(0), "http://www.garlandtools.org/db/doc/item/en/3/0.json");
    assert_eq!(item_url(9), "http://www.garlandtools.org/db/doc/item/en/3/9.json");
    assert_eq!(item_url(10), "http://www.garlandtools.org/db/doc/item/en/3/10.json");
    assert_eq!(
        item_url(u64::MAX),
        "http://www.garlandtools.org/db/doc/item/en/3/18446744073709551615.json"
    );
}

#[test]
fn parse_id_reads_decimal_numbers() {
    assert_eq!(parse_id("0"), Some(0));
    assert_eq!(parse_id("7"), Some(7));
    assert_eq!(parse_id("007"), Some(7));
    assert_eq!(parse_id("+7"), Some(7));
    assert_eq!(parse_id("22436"), Some(22436));
    assert_eq!(parse_id("18446744073709551615"), Some(u64::MAX));
}

#[test]
fn parse_id_refuses_everything_else() {
    assert_eq!(parse_id(""), None);
    assert_eq!(parse_id("+"), None);
    assert_eq!(parse_id("-7"), None);
    assert_eq!(parse_id("++7"), None);
    assert_eq!(parse_id("7+"), None);
    assert_eq!(parse_id(" 7"), None);
    assert_eq!(parse_id("7 "), None);
    assert_eq!(parse_id("12a"), None);
    assert_eq!(parse_id("1.5"), None);
    assert_eq!(parse_id("٣"), None);
    assert_eq!(parse_id("18446744073709551616"), None);
    assert_eq!(parse_id("99999999999999999999999"), None);
}

#[test]
fn parse_id_agrees_with_std() {
    for text in ["0", "+0", "42", "+42", "", "+", "-1", "4 2", "18446744073709551615", "18446744073709551616", "0000000000000000000000001"] {
        assert_eq!(parse_id(text), text.parse::<u64>().ok());
    }
}
