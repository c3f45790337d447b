//! Cross-surface session state and its transitions.
//!
//! The primary surface shows the music catalogue, the secondary surface the
//! cataloguing site. Each handler below is one transition: it reads and
//! writes only the session's fields and tells the caller what to do (resolve
//! a rating, navigate, show a surface, broadcast a record). The caller
//! performs those effects and reports back.
use vstd::prelude::*;
use crate::identity::{identity_label, label_spec, loosely_equal, loosely_equal_spec};
use crate::record::{AlbumRating, RatingStatus};
use crate::resolver::Resolution;
use crate::urls::{catalog_search_spec, catalog_search_url, music_page_spec, same_music_page, web_search_spec, web_search_url};

verus! {

/// Minimum spacing between two navigations of the secondary surface.
pub const MIN_NAVIGATION_GAP_MS: u64 = 2000;

/// The session: what each surface shows, the one-shot suppression flag, and
/// the navigation clock of the secondary surface.
pub struct SessionState {
    /// Music page the primary surface was last sent to.
    pub pending_music_url: Option<String>,
    /// Identity label the primary surface shows.
    pub music_current: Option<String>,
    /// Identity label the secondary surface shows.
    pub rym_current: Option<String>,
    /// Music page address the primary surface shows.
    pub current_music_url: Option<String>,
    /// When the last navigation of the secondary surface was issued (ms).
    pub last_navigation_ms: Option<u64>,
    /// The secondary surface has loaded a page at least once.
    pub rym_initialized: bool,
    /// Swallow the next sync request of the primary surface: it follows a
    /// navigation that this session issued itself.
    pub prevent_next_music_sync: bool,
}

/// The session with its texts as character sequences.
pub struct SessionView {
    pub pending_music_url: Option<Seq<char>>,
    pub music_current: Option<Seq<char>>,
    pub rym_current: Option<Seq<char>>,
    pub current_music_url: Option<Seq<char>>,
    pub last_navigation_ms: Option<u64>,
    pub rym_initialized: bool,
    pub prevent_next_music_sync: bool,
}

pub open spec fn text_view(t: Option<String>) -> Option<Seq<char>> {
    match t {
        Some(s) => Some(s@),
        None => None,
    }
}

pub open spec fn str_view(t: Option<&str>) -> Option<Seq<char>> {
    match t {
        Some(s) => Some(s@),
        None => None,
    }
}

impl View for SessionState {
    type V = SessionView;

    open spec fn view(&self) -> SessionView {
        SessionView {
            pending_music_url: text_view(self.pending_music_url),
            music_current: text_view(self.music_current),
            rym_current: text_view(self.rym_current),
            current_music_url: text_view(self.current_music_url),
            last_navigation_ms: self.last_navigation_ms,
            rym_initialized: self.rym_initialized,
            prevent_next_music_sync: self.prevent_next_music_sync,
        }
    }
}

/// What a sync request of the primary surface calls for first.
#[derive(Clone, Copy, PartialEq, Eq, Structural, Debug)]
pub enum SyncPlan {
    /// The secondary surface already shows the identity: nothing to do.
    Skip,
    /// Resolve the rating, then call `finish_music_sync`.
    Resolve { navigation_blocked: bool, already_shown: bool },
}

/// What the secondary surface is to do once the rating is resolved.
#[derive(Clone, Copy, PartialEq, Eq, Structural, Debug)]
pub enum SyncDecision {
    Stay,
    Show,
    Navigate,
}

/// Effects of a finished sync: the record to broadcast, where to navigate
/// the secondary surface, and whether to bring it to the front.
pub struct SyncOutcome {
    pub broadcast: AlbumRating,
    pub navigate_to: Option<String>,
    pub show_rym: bool,
}

/// The session after a sync request of the primary surface, and the plan.
pub open spec fn begin_sync_spec(
    s: SessionView,
    artist: Seq<char>,
    album: Seq<char>,
    background: bool,
    force: bool,
    music_url: Option<Seq<char>>,
) -> (SessionView, SyncPlan) {
    let key = label_spec(artist, album);
    let blocked = s.prevent_next_music_sync;
    let cleared = SessionView { prevent_next_music_sync: false, ..s };
    let shown = s.rym_current is Some && loosely_equal_spec(s.rym_current->0, key);
    if !blocked && shown && !force && background {
        (cleared, SyncPlan::Skip)
    } else {
        (
            SessionView {
                music_current: Some(key),
                current_music_url: if music_url is Some {
                    music_url
                } else {
                    s.current_music_url
                },
                ..cleared
            },
            SyncPlan::Resolve { navigation_blocked: blocked, already_shown: shown },
        )
    }
}

/// Navigation policy once the rating is resolved. Without force, a fresh
/// rating needs no page load in the background, and stale data present in
/// the background, with the secondary surface out of sight, is served as it
/// is. A forced request navigates unless the suppression flag blocks it.
pub open spec fn sync_decision_spec(
    fresh: bool,
    has_record: bool,
    blocked: bool,
    shown: bool,
    background: bool,
    force: bool,
    rym_visible: bool,
) -> SyncDecision {
    if !force && fresh && background {
        SyncDecision::Stay
    } else if !force && fresh && shown {
        SyncDecision::Show
    } else if background && !rym_visible && !force && has_record {
        SyncDecision::Stay
    } else if !force && shown && !background && !rym_visible {
        SyncDecision::Show
    } else if blocked {
        SyncDecision::Stay
    } else {
        SyncDecision::Navigate
    }
}

/// The placeholder broadcast when nothing is known of an identity.
pub open spec fn is_missing_record(r: AlbumRating, artist: Seq<char>, album: Seq<char>, now: i64) -> bool {
    &&& r.album_name@ == album
    &&& r.artist_name@ == artist
    &&& r.rym_rating_hundredths == 0
    &&& r.rating_count == 0
    &&& r.rym_url@ == "NO_MATCH"@
    &&& r.genres@ == Seq::<char>::empty()
    &&& r.secondary_genres is None
    &&& r.descriptors is None
    &&& r.language is None
    &&& r.rank is None
    &&& r.track_ratings is None
    &&& r.reviews is None
    &&& r.release_date@ == Seq::<char>::empty()
    &&& r.timestamp == now
    &&& r.status == Some(RatingStatus::Missing)
}

/// The session after a sync request from the secondary surface (it asks
/// the primary surface to show `url`), and whether to navigate there.
pub open spec fn music_request_spec(
    s: SessionView,
    url: Seq<char>,
    artist: Option<Seq<char>>,
    album: Option<Seq<char>>,
) -> (SessionView, bool) {
    let key = if artist is Some && album is Some {
        Some(label_spec(artist->0, album->0))
    } else {
        None
    };
    if key is Some && s.music_current is Some && loosely_equal_spec(s.music_current->0, key->0) {
        (SessionView { rym_current: key, current_music_url: Some(url), ..s }, false)
    } else if s.current_music_url is Some && music_page_spec(s.current_music_url->0)
        == music_page_spec(url) {
        (s, false)
    } else if s.pending_music_url == Some(url) {
        (s, false)
    } else {
        (
            SessionView {
                pending_music_url: Some(url),
                current_music_url: Some(url),
                rym_current: if key is Some {
                    key
                } else {
                    s.rym_current
                },
                prevent_next_music_sync: true,
                ..s
            },
            true,
        )
    }
}

/// When the next navigation may be issued, and the wait before it.
pub open spec fn navigation_slot(last: Option<u64>, now: u64) -> (u64, u64) {
    match last {
        None => (now, 0),
        Some(l) => {
            let earliest = if l + 2000 <= u64::MAX {
                (l + 2000) as u64
            } else {
                u64::MAX
            };
            if now < earliest {
                (earliest, (earliest - now) as u64)
            } else {
                (now, 0)
            }
        },
    }
}

fn missing_record(artist: &str, album: &str, now: i64) -> (r: AlbumRating)
    ensures
        is_missing_record(r, artist@, album@, now),
{
    AlbumRating {
        album_name: album.to_owned(),
        artist_name: artist.to_owned(),
        rym_rating_hundredths: 0,
        rating_count: 0,
        rym_url: "NO_MATCH".to_owned(),
        genres: String::new(),
        secondary_genres: None,
        descriptors: None,
        language: None,
        rank: None,
        track_ratings: None,
        reviews: None,
        release_date: String::new(),
        timestamp: now,
        status: Some(RatingStatus::Missing),
    }
}

fn copy_str(t: Option<&str>) -> (r: Option<String>)
    ensures
        text_view(r) == str_view(t),
{
    match t {
        Some(s) => Some(s.to_owned()),
        None => None,
    }
}

/// Chooses what the secondary surface does once the rating is resolved.
pub fn decide_sync(
    fresh: bool,
    has_record: bool,
    blocked: bool,
    shown: bool,
    background: bool,
    force: bool,
    rym_visible: bool,
) -> (d: SyncDecision)
    ensures
        d == sync_decision_spec(fresh, has_record, blocked, shown, background, force, rym_visible),
{
    if !force && fresh && background {
        SyncDecision::Stay
    } else if !force && fresh && shown {
        SyncDecision::Show
    } else if background && !rym_visible && !force && has_record {
        SyncDecision::Stay
    } else if !force && shown && !background && !rym_visible {
        SyncDecision::Show
    } else if blocked {
        SyncDecision::Stay
    } else {
        SyncDecision::Navigate
    }
}

/// Where a plain rating request sends the secondary surface: to the site's
/// search page when a refresh is due and the surface is in view.
pub fn lookup_navigation(resolution: &Resolution, artist: &str, album: &str, rym_visible: bool) -> (r:
    Option<String>)
    ensures
        resolution.needs_refresh && rym_visible ==> r is Some && r->0@ == catalog_search_spec(
            artist@,
            album@,
        ),
        !(resolution.needs_refresh && rym_visible) ==> r is None,
{
    if resolution.needs_refresh && rym_visible {
        Some(catalog_search_url(artist, album))
    } else {
        None
    }
}

impl SessionState {
    /// A fresh session: nothing shown, no navigation yet.
    pub fn new() -> (r: SessionState)
        ensures
            r@ == (SessionView {
                pending_music_url: None,
                music_current: None,
                rym_current: None,
                current_music_url: None,
                last_navigation_ms: None,
                rym_initialized: false,
                prevent_next_music_sync: false,
            }),
    {
        SessionState {
            pending_music_url: None,
            music_current: None,
            rym_current: None,
            current_music_url: None,
            last_navigation_ms: None,
            rym_initialized: false,
            prevent_next_music_sync: false,
        }
    }

    /// The primary surface now shows (`artist`, `album`). Consumes the
    /// suppression flag; skips when the secondary surface already shows the
    /// identity and the request is a non-forced background one; otherwise
    /// records the identity and asks for a resolution.
    pub fn begin_music_sync(
        &mut self,
        artist: &str,
        album: &str,
        background: bool,
        force: bool,
        music_url: Option<&str>,
    ) -> (plan: SyncPlan)
        ensures
            (final(self)@, plan) == begin_sync_spec(
                old(self)@,
                artist@,
                album@,
                background,
                force,
                str_view(music_url),
            ),
    {
        let key = identity_label(artist, album);
        let blocked = self.prevent_next_music_sync;
        self.prevent_next_music_sync = false;
        let shown = match &self.rym_current {
            Some(current) => loosely_equal(current.as_str(), key.as_str()),
            None => false,
        };
        if !blocked && shown && !force && background {
            return SyncPlan::Skip;
        }
        self.music_current = Some(key);
        if music_url.is_some() {
            self.current_music_url = copy_str(music_url);
        }
        SyncPlan::Resolve { navigation_blocked: blocked, already_shown: shown }
    }

    /// Finishes a sync once the rating is resolved: always broadcasts the
    /// best knowledge (the record, or a missing placeholder), and decides the
    /// navigation. Before a navigation the target identity is written into
    /// the secondary surface's tracked state, so that its own report of the
    /// page is recognised.
    pub fn finish_music_sync(
        &mut self,
        artist: &str,
        album: &str,
        resolution: &Resolution,
        navigation_blocked: bool,
        already_shown: bool,
        background: bool,
        force: bool,
        rym_visible: bool,
        now: i64,
    ) -> (out: SyncOutcome)
        ensures
            match resolution.record {
                Some(r) => out.broadcast == r,
                None => is_missing_record(out.broadcast, artist@, album@, now),
            },
            ({
                let d = sync_decision_spec(
                    !resolution.needs_refresh,
                    resolution.record is Some,
                    navigation_blocked,
                    already_shown,
                    background,
                    force,
                    rym_visible,
                );
                match d {
                    SyncDecision::Stay => {
                        &&& out.navigate_to is None
                        &&& !out.show_rym
                        &&& final(self)@ == old(self)@
                    },
                    SyncDecision::Show => {
                        &&& out.navigate_to is None
                        &&& out.show_rym
                        &&& final(self)@ == old(self)@
                    },
                    SyncDecision::Navigate => {
                        &&& out.navigate_to is Some
                        &&& out.navigate_to->0@ == match resolution.record {
                            Some(r) => r.rym_url@,
                            None => web_search_spec(artist@, album@),
                        }
                        &&& out.show_rym == !background
                        &&& final(self)@ == (SessionView {
                            rym_current: Some(label_spec(artist@, album@)),
                            ..old(self)@
                        })
                    },
                }
            }),
    {
        let broadcast = match &resolution.record {
            Some(r) => r.duplicate(),
            None => missing_record(artist, album, now),
        };
        let decision = decide_sync(
            !resolution.needs_refresh,
            resolution.record.is_some(),
            navigation_blocked,
            already_shown,
            background,
            force,
            rym_visible,
        );
        match decision {
            SyncDecision::Stay => SyncOutcome { broadcast, navigate_to: None, show_rym: false },
            SyncDecision::Show => SyncOutcome { broadcast, navigate_to: None, show_rym: true },
            SyncDecision::Navigate => {
                let target = match &resolution.record {
                    Some(r) => r.rym_url.clone(),
                    None => web_search_url(artist, album),
                };
                self.rym_current = Some(identity_label(artist, album));
                SyncOutcome { broadcast, navigate_to: Some(target), show_rym: !background }
            },
        }
    }

    /// The secondary surface asks the primary one to show `url` (and names
    /// the identity when it knows it). Returns whether to navigate the
    /// primary surface; before doing so the suppression flag is set, so that
    /// the primary surface's report of that page does not navigate back.
    pub fn request_music_sync(
        &mut self,
        url: &str,
        artist: Option<&str>,
        album: Option<&str>,
    ) -> (navigate: bool)
        ensures
            (final(self)@, navigate) == music_request_spec(
                old(self)@,
                url@,
                str_view(artist),
                str_view(album),
            ),
    {
        let key = match (artist, album) {
            (Some(a), Some(b)) => Some(identity_label(a, b)),
            _ => None,
        };
        if let Some(k) = &key {
            if let Some(current) = &self.music_current {
                if loosely_equal(current.as_str(), k.as_str()) {
                    self.rym_current = key;
                    self.current_music_url = Some(url.to_owned());
                    return false;
                }
            }
        }
        if let Some(current) = &self.current_music_url {
            if same_music_page(current.as_str(), url) {
                return false;
            }
        }
        let same_pending = match &self.pending_music_url {
            Some(p) => {
                let requested = url.to_owned();
                *p == requested
            },
            None => false,
        };
        if same_pending {
            return false;
        }
        self.pending_music_url = Some(url.to_owned());
        self.current_music_url = Some(url.to_owned());
        if key.is_some() {
            self.rym_current = key;
        }
        self.prevent_next_music_sync = true;
        true
    }

    /// The secondary surface produced a full record: it shows that identity.
    pub fn on_scrape_completed(&mut self, rating: &AlbumRating)
        ensures
            final(self)@ == (SessionView {
                rym_current: Some(label_spec(rating.artist_name@, rating.album_name@)),
                ..old(self)@
            }),
    {
        self.rym_current = Some(identity_label(rating.artist_name.as_str(), rating.album_name.as_str()));
    }

    /// Whether showing the secondary surface first loads its home page.
    pub fn needs_rym_home(&self) -> (r: bool)
        ensures
            r == !self.rym_initialized,
    {
        !self.rym_initialized
    }

    /// The secondary surface loaded its home page.
    pub fn on_rym_home_loaded(&mut self)
        ensures
            final(self)@ == (SessionView {
                rym_initialized: true,
                rym_current: Some("Home"@),
                ..old(self)@
            }),
    {
        self.rym_initialized = true;
        self.rym_current = Some("Home".to_owned());
    }

    /// A navigation of the secondary surface succeeded.
    pub fn on_rym_navigated(&mut self)
        ensures
            final(self)@ == (SessionView { rym_initialized: true, ..old(self)@ }),
    {
        self.rym_initialized = true;
    }

    /// Reserves the next navigation slot of the secondary surface at
    /// `now_ms`: returns how long to wait before navigating, and records the
    /// slot, so that slots stay at least the minimum gap apart.
    pub fn reserve_navigation(&mut self, now_ms: u64) -> (wait_ms: u64)
        ensures
            ({
                let (slot, wait) = navigation_slot(old(self).last_navigation_ms, now_ms);
                &&& wait_ms == wait
                &&& final(self)@ == (SessionView {
                    last_navigation_ms: Some(slot),
                    ..old(self)@
                })
            }),
    {
        match self.last_navigation_ms {
            None => {
                self.last_navigation_ms = Some(now_ms);
                0
            },
            Some(last) => {
                let earliest = if last <= u64::MAX - MIN_NAVIGATION_GAP_MS {
                    last + MIN_NAVIGATION_GAP_MS
                } else {
                    u64::MAX
                };
                if now_ms < earliest {
                    self.last_navigation_ms = Some(earliest);
                    earliest - now_ms
                } else {
                    self.last_navigation_ms = Some(now_ms);
                    0
                }
            },
        }
    }
}

/// A sync of the primary surface that navigates the secondary surface to
/// (`artist`, `album`) starts no loop: the secondary surface's report of
/// that identity navigates nothing, and a later background report of the
/// primary surface is skipped.
pub proof fn lemma_no_ping_pong(
    s: SessionView,
    artist: Seq<char>,
    album: Seq<char>,
    background: bool,
    force: bool,
    music_url: Option<Seq<char>>,
    reported_url: Seq<char>,
    next_music_url: Option<Seq<char>>,
)
    requires
        begin_sync_spec(s, artist, album, background, force, music_url).1 is Resolve,
    ensures
        ({
            let begun = begin_sync_spec(s, artist, album, background, force, music_url).0;
            let navigated = SessionView { rym_current: Some(label_spec(artist, album)), ..begun };
            let (reported, navigate) = music_request_spec(
                navigated,
                reported_url,
                Some(artist),
                Some(album),
            );
            &&& !navigate
            &&& begin_sync_spec(reported, artist, album, true, false, next_music_url).1
                == SyncPlan::Skip
        }),
{
    let key = label_spec(artist, album);
    assert(loosely_equal_spec(key, key));
}

/// Reserved navigation slots keep the minimum gap: a slot is never earlier
/// than the previous one plus the gap, nor earlier than the request, and the
/// wait is the time from the request to the slot (at most the gap when the
/// clock has not gone back).
pub proof fn lemma_navigation_gap(last: u64, now: u64)
    requires
        last + 2000 <= u64::MAX,
    ensures
        ({
            let (slot, wait) = navigation_slot(Some(last), now);
            &&& slot >= last + 2000
            &&& slot >= now
            &&& slot == now + wait
            &&& now >= last ==> wait <= 2000
        }),
{
}

/// The suppression flag swallows exactly one sync request of the primary
/// surface: the request that finds it set has its navigation blocked and
/// clears it, so the next request is not blocked.
pub proof fn lemma_suppression_is_one_shot(
    s: SessionView,
    artist: Seq<char>,
    album: Seq<char>,
    background: bool,
    force: bool,
    music_url: Option<Seq<char>>,
    next_artist: Seq<char>,
    next_album: Seq<char>,
    next_background: bool,
    next_force: bool,
    next_music_url: Option<Seq<char>>,
)
    requires
        s.prevent_next_music_sync,
    ensures
        ({
            let (after, plan) = begin_sync_spec(s, artist, album, background, force, music_url);
            let (_, next_plan) = begin_sync_spec(
                after,
                next_artist,
                next_album,
                next_background,
                next_force,
                next_music_url,
            );
            &&& plan matches SyncPlan::Resolve { navigation_blocked: true, .. }
            &&& !after.prevent_next_music_sync
            &&& !(next_plan matches SyncPlan::Resolve { navigation_blocked: true, .. })
        }),
{
}

/// A forced sync navigates the secondary surface whatever the rating's
/// freshness, the surface's visibility or a loose match say, unless the
/// suppression flag blocks it.
pub proof fn lemma_force_navigates(
    fresh: bool,
    has_record: bool,
    shown: bool,
    background: bool,
    rym_visible: bool,
)
    ensures
        sync_decision_spec(fresh, has_record, false, shown, background, true, rym_visible)
            == SyncDecision::Navigate,
        sync_decision_spec(fresh, has_record, true, shown, background, true, rym_visible)
            == SyncDecision::Stay,
{
}

} // verus!
