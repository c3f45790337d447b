//! Addresses the orchestrator navigates to or queries.
use vstd::prelude::*;
use vstd::utf8::encode_utf8;
use crate::text::{concat, replace, replaced};

verus! {

/// Bytes that percent-encoding leaves as they are: ASCII letters, digits,
/// `-`, `.`, `_` and `~`.
pub open spec fn unreserved(b: u8) -> bool {
    (48 <= b <= 57) || (65 <= b <= 90) || (97 <= b <= 122) || b == 45 || b == 46 || b == 95
        || b == 126
}

/// Upper-case hexadecimal digit of `d` (below 16).
pub open spec fn hex_digit(d: int) -> char {
    if d < 10 {
        ((48 + d) as u32) as char
    } else {
        ((55 + d) as u32) as char
    }
}

/// One byte, percent-encoded.
pub open spec fn encode_byte(b: u8) -> Seq<char> {
    if unreserved(b) {
        seq![(b as u32) as char]
    } else {
        seq!['%', hex_digit(b as int / 16), hex_digit(b as int % 16)]
    }
}

/// Percent-encoding of a byte sequence.
pub open spec fn percent_encoded(bytes: Seq<u8>) -> Seq<char>
    decreases bytes.len(),
{
    if bytes.len() == 0 {
        Seq::empty()
    } else {
        percent_encoded(bytes.drop_last()) + encode_byte(bytes.last())
    }
}

/// Percent-encoding of a text's UTF-8 bytes.
pub open spec fn url_encoded(s: Seq<char>) -> Seq<char> {
    percent_encoded(encode_utf8(s))
}

/// Relies on `urlencoding::encode`: percent-encodes every byte of the UTF-8
/// text, with upper-case hexadecimal digits, except alphanumerics and `-`,
/// `_`, `.`, `~`.
#[verifier::external_body]
fn url_encode(s: &str) -> (r: String)
    ensures
        r@ == url_encoded(s@),
{
    urlencoding::encode(s).into_owned()
}

/// The free-text query for an identity: artist, a space, album.
pub open spec fn query_spec(artist: Seq<char>, album: Seq<char>) -> Seq<char> {
    artist + " "@ + album
}

/// Search page of the cataloguing site for an identity.
pub open spec fn catalog_search_spec(artist: Seq<char>, album: Seq<char>) -> Seq<char> {
    "https://rateyourmusic.com/search?searchterm="@ + url_encoded(query_spec(artist, album))
        + "&searchtype=l"@
}

/// Web search scoped to the cataloguing site's release pages.
pub open spec fn web_search_spec(artist: Seq<char>, album: Seq<char>) -> Seq<char> {
    "https://duckduckgo.com/?q="@ + url_encoded(
        "\\ site:rateyourmusic.com/release "@ + query_spec(artist, album),
    )
}

/// Exact-key query of the remote cache's ratings table at `base`.
pub open spec fn remote_query_spec(base: Seq<char>, artist: Seq<char>, album: Seq<char>) -> Seq<
    char,
> {
    base + "/rest/v1/RYM-APPLE-MUSIC-PLAYER_ratings?artist_name=eq."@ + url_encoded(artist)
        + "&album_name=eq."@ + url_encoded(album)
}

/// Upsert endpoint of the remote cache's ratings table at `base`.
pub open spec fn remote_table_spec(base: Seq<char>) -> Seq<char> {
    base + "/rest/v1/RYM-APPLE-MUSIC-PLAYER_ratings"@
}

fn search_query(artist: &str, album: &str) -> (r: String)
    ensures
        r@ == query_spec(artist@, album@),
{
    let head = concat(artist, " ");
    concat(head.as_str(), album)
}

/// Search page of the cataloguing site for (`artist`, `album`).
pub fn catalog_search_url(artist: &str, album: &str) -> (r: String)
    ensures
        r@ == catalog_search_spec(artist@, album@),
{
    let query = search_query(artist, album);
    let encoded = url_encode(query.as_str());
    let head = concat("https://rateyourmusic.com/search?searchterm=", encoded.as_str());
    concat(head.as_str(), "&searchtype=l")
}

/// Site-scoped web search for (`artist`, `album`), used when no page of the
/// cataloguing site is known.
pub fn web_search_url(artist: &str, album: &str) -> (r: String)
    ensures
        r@ == web_search_spec(artist@, album@),
{
    let query = search_query(artist, album);
    let scoped = concat("\\ site:rateyourmusic.com/release ", query.as_str());
    proof {
        assert(scoped@ == "\\ site:rateyourmusic.com/release "@ + query_spec(artist@, album@));
    }
    let encoded = url_encode(scoped.as_str());
    concat("https://duckduckgo.com/?q=", encoded.as_str())
}

/// Exact-key query of the remote cache for (`artist`, `album`).
pub fn remote_query_url(base: &str, artist: &str, album: &str) -> (r: String)
    ensures
        r@ == remote_query_spec(base@, artist@, album@),
{
    let a = url_encode(artist);
    let b = url_encode(album);
    let s1 = concat(base, "/rest/v1/RYM-APPLE-MUSIC-PLAYER_ratings?artist_name=eq.");
    let s2 = concat(s1.as_str(), a.as_str());
    let s3 = concat(s2.as_str(), "&album_name=eq.");
    concat(s3.as_str(), b.as_str())
}

/// Upsert endpoint of the remote cache.
pub fn remote_table_url(base: &str) -> (r: String)
    ensures
        r@ == remote_table_spec(base@),
{
    concat(base, "/rest/v1/RYM-APPLE-MUSIC-PLAYER_ratings")
}

/// A music page address with the regional host folded into the main one.
pub open spec fn music_page_spec(url: Seq<char>) -> Seq<char> {
    replaced(url, "geo.music.apple.com"@, "music.apple.com"@)
}

/// Whether two music page addresses name the same page once the regional
/// host is folded into the main one.
pub fn same_music_page(a: &str, b: &str) -> (r: bool)
    ensures
        r == (music_page_spec(a@) == music_page_spec(b@)),
{
    let fa = replace(a, "geo.music.apple.com", "music.apple.com");
    let fb = replace(b, "geo.music.apple.com", "music.apple.com");
    fa == fb
}

} // verus!
