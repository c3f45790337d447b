use rym_bridge::record::{AlbumRating, RatingStatus};
use rym_bridge::store::RatingStore;

fn record(artist: &str, album: &str, url: &str, timestamp: i64) -> AlbumRating {
    AlbumRating {
        album_name: album.to_string(),
        artist_name: artist.to_string(),
        rym_rating_hundredths: 423,
        rating_count: 1200,
        rym_url: url.to_string(),
        genres: "Art Rock".to_string(),
        secondary_genres: None,
        descriptors: None,
        language: None,
        rank: None,
        track_ratings: Some("[{\"title\":\"Airbag\"}]".to_string()),
        reviews: None,
        release_date: "21 May 1997".to_string(),
        timestamp,
        status: None,
    }
}

#[test]
fn exact_lookup_ignores_case() {
    let mut store = RatingStore::new();
    store.save_rating(record("Radiohead", "OK Computer", "u1", 10));
    let found = store.get_rating("ok computer", "RADIOHEAD").expect("exact match");
    assert_eq!(found.rym_url, "u1");
}

#[test]
fn fuzzy_lookup_matches_canonical_form() {
    let mut store = RatingStore::new();
    store.save_rating(record("The Beatles", "Abbey Road", "u1", 10));
    let found = store.get_rating("Abbey Road (Remastered)", "the beatles!").expect("fuzzy match");
    assert_eq!(found.rym_url, "u1");
    assert!(store.get_rating("Let It Be", "The Beatles").is_none());
}

#[test]
fn exact_match_wins_over_earlier_fuzzy_match() {
    let mut store = RatingStore::new();
    store.save_rating(record("Artist", "Album (Deluxe)", "fuzzy", 10));
    store.save_rating(record("Artist", "Album", "exact", 10));
    assert_eq!(store.get_rating("ALBUM", "artist").unwrap().rym_url, "exact");
}

#[test]
fn first_fuzzy_match_in_store_order_wins() {
    let mut store = RatingStore::new();
    store.save_rating(record("Artist", "Album (Deluxe)", "first", 10));
    store.save_rating(record("Artist", "Album [Live]", "second", 10));
    assert_eq!(store.get_rating("Album", "Artist").unwrap().rym_url, "first");
}

#[test]
fn save_replaces_the_same_raw_key() {
    let mut store = RatingStore::new();
    store.save_rating(record("A", "B", "old", 10));
    store.save_rating(record("A", "B", "new", 20));
    store.save_rating(record("a", "B", "other", 30));
    assert_eq!(store.len(), 2);
    assert_eq!(store.record_at(0).rym_url, "new");
    assert_eq!(store.record_at(0).timestamp, 20);
    assert_eq!(store.record_at(1).artist_name, "a");
}

#[test]
fn manual_link_twice_keeps_one_record_under_the_target() {
    let mut store = RatingStore::new();
    store.save_rating(record("Other", "Page", "p", 5));
    let page = record("Scraped Artist", "Scraped Album", "https://rateyourmusic.com/release/x", 50);
    let linked = page.linked_to("Target Artist", "Target Album");
    assert_eq!(linked.rym_url, page.rym_url);
    store.save_rating(linked.duplicate());
    store.save_rating(page.linked_to("Target Artist", "Target Album"));
    let mut under_target = 0;
    for i in 0..store.len() {
        let r = store.record_at(i);
        if r.artist_name == "Target Artist" && r.album_name == "Target Album" {
            under_target += 1;
            assert_eq!(r.rym_url, "https://rateyourmusic.com/release/x");
        }
    }
    assert_eq!(under_target, 1);
    assert_eq!(store.len(), 2);
    let found = store.get_rating("Target Album", "Target Artist").unwrap();
    assert_eq!(found.timestamp, 50);
}

#[test]
fn completeness_and_status() {
    let mut r = record("A", "B", "u", 1);
    assert!(r.is_complete());
    r.track_ratings = Some("[]".to_string());
    assert!(!r.is_complete());
    r.track_ratings = None;
    assert!(!r.is_complete());
    r.set_status(RatingStatus::Stale);
    assert_eq!(r.status, Some(RatingStatus::Stale));
    assert_eq!(RatingStatus::Fresh.as_str(), "fresh");
    assert_eq!(RatingStatus::Missing.as_str(), "missing");
}

#[test]
fn stored_records_come_back_without_status() {
    let mut store = RatingStore::new();
    let mut r = record("Radiohead", "OK Computer", "u1", 10);
    r.status = Some(RatingStatus::Fresh);
    store.save_rating(r);
    assert_eq!(store.record_at(0).status, None);
    let exact = store.get_rating("OK Computer", "Radiohead").unwrap();
    assert_eq!(exact.status, None);
    assert_eq!(exact.timestamp, 10);
    let fuzzy = store.get_rating("OK Computer (Remastered)", "radiohead").unwrap();
    assert_eq!(fuzzy.status, None);
}
