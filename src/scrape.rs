//! Reading what the cataloguing site's pages show.
use vstd::prelude::*;
use crate::release_date::{integer_literal, parse_i32};
use crate::text::{concat, replace, replaced, trim, trimmed};

verus! {

/// The rating count a page shows as `text` ("12,345"): thousands separators
/// dropped, surrounding whitespace trimmed, then read as an `i32`.
pub open spec fn rating_count_spec(text: Seq<char>) -> Option<i32> {
    let digits = trimmed(replaced(text, ","@, ""@));
    match integer_literal(digits) {
        Some(v) => if i32::MIN <= v <= i32::MAX {
            Some(v as i32)
        } else {
            None
        },
        None => None,
    }
}

/// Reads the rating count shown on an album page.
pub fn parse_rating_count(text: &str) -> (r: Option<i32>)
    ensures
        r == rating_count_spec(text@),
{
    let plain = replace(text, ",", "");
    let digits = trim(plain.as_str());
    parse_i32(digits.as_str())
}

/// Address of an album page from the path a search result links to.
pub fn album_page_url(path: &str) -> (r: String)
    ensures
        r@ == "https://rateyourmusic.com"@ + path@,
{
    concat("https://rateyourmusic.com", path)
}

} // verus!
