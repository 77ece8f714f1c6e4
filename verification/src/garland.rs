//! Addresses and answers of the recipe database.
//!
//! The database is asked over the network, which is not done here: this
//! module says where to ask and reads the item id out of the answer.

use crate::decimal::decimal;
use crate::decimal::push_decimal;
use crate::text::chars_of;
use crate::text::digits_value;
use crate::text::is_digit;
use crate::text::leading_digits;
use crate::text::lemma_digit_run;
use crate::text::read_number;
use url::form_urlencoded::Serializer;
use vstd::prelude::*;

verus! {

/// A text in the `application/x-www-form-urlencoded` form: what
/// `url::form_urlencoded::byte_serialize` makes of its UTF-8 bytes.
pub uninterp spec fn form_encoded(text: Seq<char>) -> Seq<char>;

/// A query with one more pair: unless the query is empty, an ampersand
/// parts the pair from what is there; the pair is the encoded name, an
/// equals sign and the encoded value.
pub open spec fn with_pair(query: Seq<char>, name: Seq<char>, value: Seq<char>) -> Seq<char> {
    query + (if query.len() > 0 {
        seq!['&']
    } else {
        Seq::empty()
    }) + form_encoded(name) + seq!['='] + form_encoded(value)
}

/// `Serializer::append_pair` of `url::form_urlencoded`, on a serializer
/// made by `Serializer::new` for `query` and finished at once. The
/// serializer takes all of `query` for pairs written earlier, so it puts an
/// ampersand first unless `query` is empty, and then appends the name, an
/// equals sign and the value, both in the encoded form.
#[verifier::external_body]
fn append_pair(query: String, name: &str, value: &str) -> (res: String)
    ensures
        res@ == query@ + (if query@.len() > 0 {
            seq!['&']
        } else {
            Seq::empty()
        }) + form_encoded(name@) + seq!['='] + form_encoded(value@),
{
    Serializer::new(query).append_pair(name, value).finish()
}

/// Where the search for craftable items is asked.
pub open spec fn search_address() -> Seq<char> {
    "https://www.garlandtools.org/api/search.php?"@
}

/// The address that searches the database for the craftable items with
/// `item_name` in their English name.
pub open spec fn search_url_text(item_name: Seq<char>) -> Seq<char> {
    with_pair(
        with_pair(
            with_pair(with_pair(search_address(), "craftable"@, "1"@), "type"@, "item"@),
            "text"@,
            item_name,
        ),
        "lang"@,
        "en"@,
    )
}

/// The address that searches the database for `item_name`.
pub fn search_url(item_name: &str) -> (res: String)
    ensures
        res@ == search_url_text(item_name@),
{
    let url = "https://www.garlandtools.org/api/search.php?".to_owned();
    let url = append_pair(url, "craftable", "1");
    let url = append_pair(url, "type", "item");
    let url = append_pair(url, "text", item_name);
    append_pair(url, "lang", "en")
}

/// The address of the description of the item with the id `id`.
pub open spec fn item_url_text(id: nat) -> Seq<char> {
    "http://www.garlandtools.org/db/doc/item/en/3/"@ + decimal(id) + ".json"@
}

/// The address of the description of the item with the id `id`.
pub fn item_url(id: u64) -> (res: String)
    ensures
        res@ == item_url_text(id as nat),
{
    let mut url = "http://www.garlandtools.org/db/doc/item/en/3/".to_owned();
    push_decimal(&mut url, id);
    url.append(".json");
    url
}

/// `text` without the plus sign that it may begin with.
pub open spec fn unsigned(text: Seq<char>) -> Seq<char> {
    if text.len() > 0 && text[0] == '+' {
        text.drop_first()
    } else {
        text
    }
}

/// The id that `text` holds: `text` is an optional plus sign and at least
/// one decimal digit, nothing else, and the number fits in 64 bits.
pub open spec fn parsed_id(text: Seq<char>) -> Option<nat> {
    let digits = unsigned(text);
    if digits.len() > 0 && (forall|i: int| 0 <= i < digits.len() ==> is_digit(digits[i]))
        && digits_value(digits) <= u64::MAX {
        Some(digits_value(digits))
    } else {
        None
    }
}

/// Reads an item id.
pub fn parse_id(text: &str) -> (res: Option<u64>)
    ensures
        match res {
            Some(id) => parsed_id(text@) == Some(id as nat),
            None => parsed_id(text@) is None,
        },
{
    let chars = chars_of(text);
    let start: usize = if chars.len() > 0 && chars[0] == '+' {
        1
    } else {
        0
    };
    let (end, value) = read_number(&chars, start);
    proof {
        let digits = unsigned(text@);
        assert(digits == chars@.skip(start as int));
        lemma_digit_run(digits);
        if end == chars.len() {
            assert(leading_digits(digits) == digits);
        }
    }
    if start < end && end == chars.len() {
        value
    } else {
        None
    }
}

} // verus!
