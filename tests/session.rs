use rym_bridge::identity::{identity_label, loosely_equal};
use rym_bridge::record::{AlbumRating, RatingStatus};
use rym_bridge::resolver::Resolution;
use rym_bridge::scrape::{album_page_url, parse_rating_count};
use rym_bridge::session::{decide_sync, lookup_navigation, SessionState, SyncDecision, SyncPlan};
use rym_bridge::urls::{catalog_search_url, remote_query_url, remote_table_url, same_music_page, web_search_url};

const NOW: i64 = 1792368000;

fn record(artist: &str, album: &str, url: &str) -> AlbumRating {
    AlbumRating {
        album_name: album.to_string(),
        artist_name: artist.to_string(),
        rym_rating_hundredths: 390,
        rating_count: 10,
        rym_url: url.to_string(),
        genres: String::new(),
        secondary_genres: None,
        descriptors: None,
        language: None,
        rank: None,
        track_ratings: None,
        reviews: None,
        release_date: String::new(),
        timestamp: NOW - 1000 * 86400,
        status: Some(RatingStatus::Stale),
    }
}

fn missing() -> Resolution {
    Resolution { record: None, needs_refresh: true }
}

#[test]
fn primary_sync_navigates_once_and_the_report_back_does_not() {
    let mut s = SessionState::new();
    let plan = s.begin_music_sync("A", "B", false, false, Some("https://music.apple.com/album/1"));
    let (blocked, shown) = match plan {
        SyncPlan::Resolve { navigation_blocked, already_shown } => (navigation_blocked, already_shown),
        SyncPlan::Skip => panic!("must resolve"),
    };
    assert!(!blocked && !shown);
    let out = s.finish_music_sync("A", "B", &missing(), blocked, shown, false, false, false, NOW);
    assert_eq!(
        out.navigate_to.as_deref(),
        Some("https://duckduckgo.com/?q=%5C%20site%3Arateyourmusic.com%2Frelease%20A%20B")
    );
    assert!(out.show_rym);
    assert_eq!(out.broadcast.rym_url, "NO_MATCH");
    assert_eq!(out.broadcast.status, Some(RatingStatus::Missing));
    assert_eq!(out.broadcast.timestamp, NOW);
    assert_eq!(s.rym_current.as_deref(), Some("A - B"));

    // The secondary surface reports the page it was sent to.
    assert!(!s.request_music_sync("https://music.apple.com/album/1", Some("A"), Some("B")));
    assert!(!s.request_music_sync("https://music.apple.com/album/other", Some("A"), Some("B")));
    // A background report of the primary surface is skipped as well.
    assert_eq!(s.begin_music_sync("A", "B", true, false, None), SyncPlan::Skip);
}

#[test]
fn scrape_completion_updates_the_secondary_identity() {
    let mut s = SessionState::new();
    s.on_scrape_completed(&record("Artist", "Album", "u"));
    assert_eq!(s.rym_current.as_deref(), Some("Artist - Album"));
    assert_eq!(s.begin_music_sync("artist", "album", true, false, None), SyncPlan::Skip);
}

#[test]
fn suppression_flag_swallows_exactly_one_navigation() {
    let mut s = SessionState::new();
    assert!(s.request_music_sync("https://music.apple.com/x", Some("C"), Some("D")));
    assert!(s.prevent_next_music_sync);
    assert_eq!(s.pending_music_url.as_deref(), Some("https://music.apple.com/x"));
    assert_eq!(s.rym_current.as_deref(), Some("C - D"));

    let plan = s.begin_music_sync("E", "F", false, false, None);
    assert_eq!(plan, SyncPlan::Resolve { navigation_blocked: true, already_shown: false });
    assert!(!s.prevent_next_music_sync);
    let out = s.finish_music_sync("E", "F", &missing(), true, false, false, false, true, NOW);
    assert!(out.navigate_to.is_none());
    assert_eq!(out.broadcast.album_name, "F");

    let plan = s.begin_music_sync("G", "H", false, false, None);
    assert_eq!(plan, SyncPlan::Resolve { navigation_blocked: false, already_shown: false });
}

#[test]
fn music_request_ignores_same_page_and_repeated_url() {
    let mut s = SessionState::new();
    assert!(s.request_music_sync("https://geo.music.apple.com/us/album/1", None, None));
    s.prevent_next_music_sync = false;
    assert!(!s.request_music_sync("https://music.apple.com/us/album/1", None, None));
    assert!(!s.prevent_next_music_sync);
    assert!(s.request_music_sync("https://music.apple.com/us/album/2", None, None));
}

#[test]
fn stale_background_data_out_of_sight_is_served_without_navigation() {
    let mut s = SessionState::new();
    let res = Resolution { record: Some(record("A", "B", "https://rateyourmusic.com/release/album/a/b/")), needs_refresh: true };
    let out = s.finish_music_sync("A", "B", &res, false, false, true, false, false, NOW);
    assert!(out.navigate_to.is_none());
    assert_eq!(out.broadcast.rym_url, "https://rateyourmusic.com/release/album/a/b/");
    assert!(s.rym_current.is_none());

    let out = s.finish_music_sync("A", "B", &res, false, false, true, true, false, NOW);
    assert_eq!(out.navigate_to.as_deref(), Some("https://rateyourmusic.com/release/album/a/b/"));
    assert!(!out.show_rym);
}

#[test]
fn navigation_policy_table() {
    assert_eq!(decide_sync(true, true, false, false, true, false, true), SyncDecision::Stay);
    assert_eq!(decide_sync(true, true, false, true, false, false, true), SyncDecision::Show);
    assert_eq!(decide_sync(true, true, false, false, false, false, true), SyncDecision::Navigate);
    assert_eq!(decide_sync(false, false, false, false, true, false, false), SyncDecision::Navigate);
    assert_eq!(decide_sync(false, true, false, true, false, false, false), SyncDecision::Show);
    assert_eq!(decide_sync(false, true, true, false, false, false, true), SyncDecision::Stay);
}

#[test]
fn rate_limiter_spaces_navigations() {
    let mut s = SessionState::new();
    assert_eq!(s.reserve_navigation(10_000), 0);
    assert_eq!(s.reserve_navigation(10_500), 1500);
    assert_eq!(s.last_navigation_ms, Some(12_000));
    assert_eq!(s.reserve_navigation(12_100), 1900);
    assert_eq!(s.last_navigation_ms, Some(14_000));
    assert_eq!(s.reserve_navigation(20_000), 0);
    assert_eq!(s.last_navigation_ms, Some(20_000));
}

#[test]
fn secondary_home_and_navigation_flags() {
    let mut s = SessionState::new();
    assert!(s.needs_rym_home());
    s.on_rym_home_loaded();
    assert!(!s.needs_rym_home());
    assert_eq!(s.rym_current.as_deref(), Some("Home"));
    let mut t = SessionState::new();
    t.on_rym_navigated();
    assert!(t.rym_initialized);
}

#[test]
fn rating_lookup_navigates_only_when_refresh_due_and_visible() {
    let due = missing();
    assert_eq!(
        lookup_navigation(&due, "Radiohead", "OK Computer", true).as_deref(),
        Some("https://rateyourmusic.com/search?searchterm=Radiohead%20OK%20Computer&searchtype=l")
    );
    assert!(lookup_navigation(&due, "Radiohead", "OK Computer", false).is_none());
    let fresh = Resolution { record: None, needs_refresh: false };
    assert!(lookup_navigation(&fresh, "Radiohead", "OK Computer", true).is_none());
}

#[test]
fn loose_identity_match() {
    assert!(loosely_equal("A - B", "A - B"));
    assert!(loosely_equal("a - b", "A - B"));
    assert!(loosely_equal("Artist - Number Two", "Artist - Number"));
    assert!(loosely_equal("x", "Artist - x"));
    assert!(!loosely_equal("A - B", "A - C"));
    assert_eq!(identity_label("A", "B"), "A - B");
}

#[test]
fn addresses() {
    assert_eq!(
        catalog_search_url("Radiohead", "OK Computer"),
        "https://rateyourmusic.com/search?searchterm=Radiohead%20OK%20Computer&searchtype=l"
    );
    assert_eq!(
        web_search_url("Radiohead", "OK Computer"),
        "https://duckduckgo.com/?q=%5C%20site%3Arateyourmusic.com%2Frelease%20Radiohead%20OK%20Computer"
    );
    assert_eq!(
        remote_query_url("https://x.supabase.co", "Sigur Rós", "( )"),
        "https://x.supabase.co/rest/v1/RYM-APPLE-MUSIC-PLAYER_ratings?artist_name=eq.Sigur%20R%C3%B3s&album_name=eq.%28%20%29"
    );
    assert_eq!(remote_table_url("https://x.supabase.co"), "https://x.supabase.co/rest/v1/RYM-APPLE-MUSIC-PLAYER_ratings");
    assert!(same_music_page("https://geo.music.apple.com/a", "https://music.apple.com/a"));
    assert!(!same_music_page("https://music.apple.com/a", "https://music.apple.com/b"));
}

#[test]
fn rating_count_and_album_page() {
    assert_eq!(parse_rating_count(" 12,345 "), Some(12345));
    assert_eq!(parse_rating_count("987"), Some(987));
    assert_eq!(parse_rating_count("n/a"), None);
    assert_eq!(parse_rating_count("9,999,999,999"), None);
    assert_eq!(album_page_url("/release/album/radiohead/ok-computer/"), "https://rateyourmusic.com/release/album/radiohead/ok-computer/");
}

#[test]
fn forced_sync_navigates_even_with_fresh_data() {
    let mut fresh = record("A", "B", "https://rateyourmusic.com/release/album/a/b/");
    fresh.status = Some(RatingStatus::Fresh);
    let res = Resolution { record: Some(fresh), needs_refresh: false };
    let mut s = SessionState::new();
    let out = s.finish_music_sync("A", "B", &res, false, true, true, true, false, NOW);
    assert_eq!(out.navigate_to.as_deref(), Some("https://rateyourmusic.com/release/album/a/b/"));
    assert_eq!(out.broadcast.status, Some(RatingStatus::Fresh));
    assert!(!out.show_rym);
    assert_eq!(s.rym_current.as_deref(), Some("A - B"));

    let out = s.finish_music_sync("A", "B", &res, true, true, true, true, false, NOW);
    assert!(out.navigate_to.is_none());
    assert_eq!(decide_sync(true, true, false, true, false, true, true), SyncDecision::Navigate);
    assert_eq!(decide_sync(true, true, false, false, true, false, false), SyncDecision::Stay);
}
