//! The metadata record of a listing page and its extraction.

use vstd::prelude::*;
use vstd::string::StringExecFns;
use crate::links::group_at;
use crate::matching::{Groups, group_view, matches_view, regex_matches, find_matches};
use crate::text::{decimal, decimal_of, strip_commas, without_commas};

verus! {

/// The composite pattern of a listing's page title: street, city, state,
/// zip code and listing number.
pub const ADDRESS_PATTERN: &'static str =
    r"<title>(.*?), (.*?), (..) (\d\d\d\d\d) \| MLS #(\d*?) \| Compass</title>";

/// The pattern of the listed price in the property history table.
pub const PRICE_PATTERN: &'static str =
    r"propertyHistory-table-td.><div>\$([0-9,]+)</div></td></tr>";

/// What was read from one page. Each field other than `url` is absent where
/// its pattern did not match; present fields hold a label and the value.
#[derive(Clone, Debug, PartialEq, Eq)]
pub struct PropertyMetadata {
    pub url: String,
    pub description: Option<String>,
    pub street: Option<String>,
    pub city: Option<String>,
    pub state: Option<String>,
    pub zip: Option<String>,
    pub mls: Option<String>,
    pub price: Option<String>,
    pub num_images: Option<String>,
}

/// The groups of the first match, or none at all when nothing matched.
pub open spec fn first_match(ms: Seq<Seq<Option<Seq<char>>>>) -> Seq<Option<Seq<char>>> {
    if ms.len() > 0 {
        ms[0]
    } else {
        Seq::empty()
    }
}

/// Whether the first match of the address pattern has all five groups.
pub open spec fn address_complete(ms: Seq<Seq<Option<Seq<char>>>>) -> bool {
    forall|k: int| 1 <= k <= 5 ==> (#[trigger] group_at(first_match(ms), k)) is Some
}

/// Address field `k`, labelled; present only when the whole address matched.
pub open spec fn address_field(ms: Seq<Seq<Option<Seq<char>>>>, k: int, label: Seq<char>) -> Option<Seq<char>> {
    if address_complete(ms) {
        Some(label + group_at(first_match(ms), k)->Some_0)
    } else {
        None
    }
}

/// The labelled price, its thousands separators removed.
pub open spec fn price_field(ms: Seq<Seq<Option<Seq<char>>>>) -> Option<Seq<char>> {
    match group_at(first_match(ms), 1) {
        Some(p) => Some("Price: $"@ + without_commas(p)),
        None => None,
    }
}

/// The record built from the page's source, its number of distinct images,
/// and the matches `price` and `address` of the two patterns.
pub open spec fn metadata_matches(
    r: PropertyMetadata,
    url: Seq<char>,
    num_images: nat,
    price: Seq<Seq<Option<Seq<char>>>>,
    address: Seq<Seq<Option<Seq<char>>>>,
) -> bool {
    &&& r.url@ == "URL: "@ + url
    &&& r.description is None
    &&& group_view(r.num_images) == Some("Number of unique images found: "@ + decimal_of(num_images))
    &&& group_view(r.price) == price_field(price)
    &&& group_view(r.street) == address_field(address, 1, "Street: "@)
    &&& group_view(r.city) == address_field(address, 2, "City: "@)
    &&& group_view(r.state) == address_field(address, 3, "State: "@)
    &&& group_view(r.zip) == address_field(address, 4, "Zip: "@)
    &&& group_view(r.mls) == address_field(address, 5, "MLS: "@)
}

fn labelled(label: &str, value: &str) -> (r: String)
    ensures
        r@ == label@ + value@,
{
    let mut r = String::from_str(label);
    r.append(value);
    r
}

fn first_group(ms: &Vec<Groups>, k: usize) -> (r: Option<String>)
    ensures
        group_view(r) == group_at(first_match(matches_view(ms@)), k as int),
{
    if ms.len() == 0 {
        return None;
    }
    let m = &ms[0];
    if k < m.len() {
        match &m[k] {
            Some(t) => Some(t.clone()),
            None => None,
        }
    } else {
        None
    }
}

/// Builds the record from the matches of the price and address patterns.
/// The address fields are filled together or not at all.
pub fn metadata_from_matches(
    url: &str,
    num_images: usize,
    price: &Vec<Groups>,
    address: &Vec<Groups>,
) -> (r: PropertyMetadata)
    ensures
        metadata_matches(r, url@, num_images as nat, matches_view(price@), matches_view(address@)),
{
    let price_text = match first_group(price, 1) {
        Some(p) => {
            let digits = strip_commas(p.as_str());
            Some(labelled("Price: $", digits.as_str()))
        },
        None => None,
    };
    let ghost a = matches_view(address@);
    let street = first_group(address, 1);
    let city = first_group(address, 2);
    let state = first_group(address, 3);
    let zip = first_group(address, 4);
    let mls = first_group(address, 5);
    let (street, city, state, zip, mls) = match (street, city, state, zip, mls) {
        (Some(st), Some(c), Some(s), Some(z), Some(m)) => {
            assert(address_complete(a)) by {
                assert forall|k: int| 1 <= k <= 5 implies (#[trigger] group_at(first_match(a), k)) is Some by {
                    if k == 1 {} else if k == 2 {} else if k == 3 {} else if k == 4 {} else {}
                }
            }
            (
                Some(labelled("Street: ", st.as_str())),
                Some(labelled("City: ", c.as_str())),
                Some(labelled("State: ", s.as_str())),
                Some(labelled("Zip: ", z.as_str())),
                Some(labelled("MLS: ", m.as_str())),
            )
        },
        (st, c, s, z, m) => {
            assert(!address_complete(a)) by {
                if st is None {
                    assert(group_at(first_match(a), 1) is None);
                } else if c is None {
                    assert(group_at(first_match(a), 2) is None);
                } else if s is None {
                    assert(group_at(first_match(a), 3) is None);
                } else if z is None {
                    assert(group_at(first_match(a), 4) is None);
                } else {
                    assert(group_at(first_match(a), 5) is None);
                }
            }
            (None, None, None, None, None)
        },
    };
    let count = decimal(num_images as u64);
    PropertyMetadata {
        url: labelled("URL: ", url),
        description: None,
        street,
        city,
        state,
        zip,
        mls,
        price: price_text,
        num_images: Some(labelled("Number of unique images found: ", count.as_str())),
    }
}

/// Reads the metadata record out of a page's text.
pub fn extract_metadata(html: &str, url: &str, num_images: usize) -> (r: PropertyMetadata)
    ensures
        metadata_matches(
            r,
            url@,
            num_images as nat,
            regex_matches(PRICE_PATTERN@, html@),
            regex_matches(ADDRESS_PATTERN@, html@),
        ),
{
    let price = find_matches(PRICE_PATTERN, html);
    let address = find_matches(ADDRESS_PATTERN, html);
    metadata_from_matches(url, num_images, &price, &address)
}

} // verus!

verus! {

/// A page on which the price pattern matches but the address pattern does
/// not yields a record with its price and with every address field absent.
pub proof fn price_kept_without_address(
    r: PropertyMetadata,
    url: Seq<char>,
    num_images: nat,
    price: Seq<Seq<Option<Seq<char>>>>,
    address: Seq<Seq<Option<Seq<char>>>>,
)
    requires
        metadata_matches(r, url, num_images, price, address),
        group_at(first_match(price), 1) is Some,
        !address_complete(address),
    ensures
        r.price is Some,
        r.street is None,
        r.city is None,
        r.state is None,
        r.zip is None,
        r.mls is None,
{
}

} // verus!
