//! The rating record and its derived status.
use vstd::prelude::*;
use vstd::utf8::encode_utf8;

verus! {

/// Status of a record as served: fresh, stale (served while a refresh is
/// due) or missing (nothing known).
#[derive(Clone, Copy, PartialEq, Eq, Structural, Debug)]
pub enum RatingStatus {
    Fresh,
    Stale,
    Missing,
}

impl RatingStatus {
    /// The status as the UI layer spells it.
    pub fn as_str(&self) -> (r: &'static str)
        ensures
            r@ == match *self {
                RatingStatus::Fresh => "fresh"@,
                RatingStatus::Stale => "stale"@,
                RatingStatus::Missing => "missing"@,
            },
    {
        match self {
            RatingStatus::Fresh => "fresh",
            RatingStatus::Stale => "stale",
            RatingStatus::Missing => "missing",
        }
    }
}

/// One album's rating data as scraped from the cataloguing site. The rating
/// is held in hundredths of a point (0 to 500).
#[derive(Clone, Debug)]
pub struct AlbumRating {
    pub album_name: String,
    pub artist_name: String,
    pub rym_rating_hundredths: u32,
    pub rating_count: i32,
    pub rym_url: String,
    pub genres: String,
    pub secondary_genres: Option<String>,
    pub descriptors: Option<String>,
    pub language: Option<String>,
    pub rank: Option<String>,
    /// Track ratings, as JSON text.
    pub track_ratings: Option<String>,
    /// Review excerpts, as JSON text.
    pub reviews: Option<String>,
    pub release_date: String,
    /// When the data was fetched, in seconds since the Unix epoch.
    pub timestamp: i64,
    pub status: Option<RatingStatus>,
}

/// A record is complete when its track-rating payload is longer than an
/// empty JSON list: more than five bytes.
pub open spec fn complete_spec(r: AlbumRating) -> bool {
    match r.track_ratings {
        Some(t) => (encode_utf8(t@).len() as usize) > 5,
        None => false,
    }
}

/// `r` with its status replaced.
pub open spec fn with_status(r: AlbumRating, s: RatingStatus) -> AlbumRating {
    AlbumRating { status: Some(s), ..r }
}

/// `r` as the store keeps it: status is derived when read, never stored.
pub open spec fn without_status(r: AlbumRating) -> AlbumRating {
    AlbumRating { status: None, ..r }
}

/// `r` filed under another identity, every other field kept.
pub open spec fn relabelled(r: AlbumRating, artist: String, album: String) -> AlbumRating {
    AlbumRating { artist_name: artist, album_name: album, ..r }
}

fn copy_text(s: &Option<String>) -> (r: Option<String>)
    ensures
        r == *s,
{
    match s {
        Some(t) => Some(t.clone()),
        None => None,
    }
}

impl AlbumRating {
    /// A field-for-field copy.
    pub fn duplicate(&self) -> (r: AlbumRating)
        ensures
            r == *self,
    {
        AlbumRating {
            album_name: self.album_name.clone(),
            artist_name: self.artist_name.clone(),
            rym_rating_hundredths: self.rym_rating_hundredths,
            rating_count: self.rating_count,
            rym_url: self.rym_url.clone(),
            genres: self.genres.clone(),
            secondary_genres: copy_text(&self.secondary_genres),
            descriptors: copy_text(&self.descriptors),
            language: copy_text(&self.language),
            rank: copy_text(&self.rank),
            track_ratings: copy_text(&self.track_ratings),
            reviews: copy_text(&self.reviews),
            release_date: self.release_date.clone(),
            timestamp: self.timestamp,
            status: self.status,
        }
    }

    /// Whether the record carries track ratings.
    pub fn is_complete(&self) -> (r: bool)
        ensures
            r == complete_spec(*self),
    {
        match &self.track_ratings {
            Some(t) => t.as_str().len() > 5,
            None => false,
        }
    }

    /// Sets the served status.
    pub fn set_status(&mut self, s: RatingStatus)
        ensures
            *final(self) == with_status(*old(self), s),
    {
        self.status = Some(s);
    }

    /// The record that a manual link files: this page's data under the
    /// target identity.
    pub fn linked_to(&self, target_artist: &str, target_album: &str) -> (r: AlbumRating)
        ensures
            r.artist_name@ == target_artist@,
            r.album_name@ == target_album@,
            r == relabelled(*self, r.artist_name, r.album_name),
    {
        let mut r = self.duplicate();
        r.artist_name = target_artist.to_owned();
        r.album_name = target_album.to_owned();
        r
    }
}

} // verus!
