//! Local rating store: records keyed by their raw (album, artist) pair, with
//! an exact case-insensitive lookup and a fuzzy lookup by canonical form.
use vstd::prelude::*;
use crate::normalize::{normalize, normalized, same_identity};
use crate::record::{relabelled, without_status, AlbumRating};
use crate::text::{lowercase, lowered};

verus! {

/// Both records are filed under the same raw (album, artist) pair.
pub open spec fn same_raw_key(a: AlbumRating, b: AlbumRating) -> bool {
    a.album_name@ == b.album_name@ && a.artist_name@ == b.artist_name@
}

/// The record is filed under the raw pair (`album`, `artist`).
pub open spec fn keyed_by(r: AlbumRating, album: Seq<char>, artist: Seq<char>) -> bool {
    r.album_name@ == album && r.artist_name@ == artist
}

/// No two records share a raw key.
pub open spec fn keys_unique(s: Seq<AlbumRating>) -> bool {
    forall|i: int, j: int|
        0 <= i < s.len() && 0 <= j < s.len() && i != j ==> !same_raw_key(
            #[trigger] s[i],
            #[trigger] s[j],
        )
}

/// No stored record carries a status.
pub open spec fn statuses_cleared(s: Seq<AlbumRating>) -> bool {
    forall|i: int| 0 <= i < s.len() ==> (#[trigger] s[i]).status is None
}

/// The records after storing `r` without its status: it replaces the record
/// under its raw key, or is appended when there is none.
pub open spec fn upserted(s: Seq<AlbumRating>, r: AlbumRating) -> Seq<AlbumRating> {
    if exists|i: int| 0 <= i < s.len() && same_raw_key(#[trigger] s[i], r) {
        let i = choose|i: int| 0 <= i < s.len() && same_raw_key(#[trigger] s[i], r);
        s.update(i, without_status(r))
    } else {
        s.push(without_status(r))
    }
}

/// Same labels up to case.
pub open spec fn exact_match(r: AlbumRating, album: Seq<char>, artist: Seq<char>) -> bool {
    lowered(r.album_name@) == lowered(album) && lowered(r.artist_name@) == lowered(artist)
}

/// Same canonical labels.
pub open spec fn fuzzy_match(r: AlbumRating, album: Seq<char>, artist: Seq<char>) -> bool {
    same_identity(r.album_name@, album) && same_identity(r.artist_name@, artist)
}

/// Records that match (`album`, `artist`) up to case.
pub open spec fn exact_pred(album: Seq<char>, artist: Seq<char>) -> spec_fn(AlbumRating) -> bool {
    |r: AlbumRating| exact_match(r, album, artist)
}

/// Records that match (`album`, `artist`) by canonical form.
pub open spec fn fuzzy_pred(album: Seq<char>, artist: Seq<char>) -> spec_fn(AlbumRating) -> bool {
    |r: AlbumRating| fuzzy_match(r, album, artist)
}

/// Index of the first record that satisfies `p`.
pub open spec fn first_where(s: Seq<AlbumRating>, p: spec_fn(AlbumRating) -> bool) -> Option<int>
    decreases s.len(),
{
    if s.len() == 0 {
        None
    } else {
        match first_where(s.drop_last(), p) {
            Some(i) => Some(i),
            None => if p(s.last()) {
                Some(s.len() - 1)
            } else {
                None
            },
        }
    }
}

/// Index of the record a lookup finds: the first exact match, else the
/// first fuzzy match.
pub open spec fn lookup_index(s: Seq<AlbumRating>, album: Seq<char>, artist: Seq<char>) -> Option<
    int,
> {
    match first_where(s, exact_pred(album, artist)) {
        Some(i) => Some(i),
        None => first_where(s, fuzzy_pred(album, artist)),
    }
}

proof fn lemma_first_where_bounds(s: Seq<AlbumRating>, p: spec_fn(AlbumRating) -> bool)
    ensures
        match first_where(s, p) {
            Some(i) => 0 <= i < s.len() && p(s[i]),
            None => forall|k: int| 0 <= k < s.len() ==> !p(#[trigger] s[k]),
        },
    decreases s.len(),
{
    if s.len() > 0 {
        let prefix = s.drop_last();
        lemma_first_where_bounds(prefix, p);
        assert forall|k: int| 0 <= k < prefix.len() implies prefix[k] == s[k] by {}
    }
}

proof fn lemma_first_where_extend(s: Seq<AlbumRating>, p: spec_fn(AlbumRating) -> bool, n: int)
    requires
        0 <= n <= s.len(),
        first_where(s.subrange(0, n), p) is Some,
    ensures
        first_where(s, p) == first_where(s.subrange(0, n), p),
    decreases s.len(),
{
    if n < s.len() {
        assert(s.drop_last().subrange(0, n) =~= s.subrange(0, n));
        lemma_first_where_extend(s.drop_last(), p, n);
    } else {
        assert(s.subrange(0, n) =~= s);
    }
}

proof fn lemma_first_where_step(s: Seq<AlbumRating>, p: spec_fn(AlbumRating) -> bool, i: int)
    requires
        0 <= i < s.len(),
        first_where(s.subrange(0, i), p) is None,
    ensures
        p(s[i]) ==> first_where(s.subrange(0, i + 1), p) == Some(i),
        !p(s[i]) ==> first_where(s.subrange(0, i + 1), p) is None,
{
    assert(s.subrange(0, i + 1).drop_last() =~= s.subrange(0, i));
}

/// The local rating store.
pub struct RatingStore {
    records: Vec<AlbumRating>,
}

impl View for RatingStore {
    type V = Seq<AlbumRating>;

    closed spec fn view(&self) -> Seq<AlbumRating> {
        self.records@
    }
}

impl RatingStore {
    /// No two stored records share a raw key, and none carries a status.
    pub open spec fn well_formed(&self) -> bool {
        keys_unique(self@) && statuses_cleared(self@)
    }

    /// An empty store.
    pub fn new() -> (r: RatingStore)
        ensures
            r.well_formed(),
            r@ == Seq::<AlbumRating>::empty(),
    {
        RatingStore { records: Vec::new() }
    }

    /// Number of stored records.
    pub fn len(&self) -> (n: usize)
        ensures
            n == self@.len(),
    {
        self.records.len()
    }

    /// The stored record at `i`, in store order.
    pub fn record_at(&self, i: usize) -> (r: &AlbumRating)
        requires
            i < self@.len(),
        ensures
            *r == self@[i as int],
    {
        &self.records[i]
    }

    fn find_exact(&self, album: &str, artist: &str) -> (r: Option<usize>)
        ensures
            match r {
                Some(i) => i < self@.len() && first_where(self@, exact_pred(album@, artist@))
                    == Some(i as int),
                None => first_where(self@, exact_pred(album@, artist@)) is None,
            },
    {
        let ghost p = exact_pred(album@, artist@);
        let album_low = lowercase(album);
        let artist_low = lowercase(artist);
        let mut i: usize = 0;
        while i < self.records.len()
            invariant
                i <= self@.len(),
                p == exact_pred(album@, artist@),
                album_low@ == lowered(album@),
                artist_low@ == lowered(artist@),
                first_where(self@.subrange(0, i as int), p) is None,
            decreases self@.len() - i,
        {
            let rec = &self.records[i];
            let a = lowercase(rec.album_name.as_str());
            let b = lowercase(rec.artist_name.as_str());
            proof {
                lemma_first_where_step(self@, p, i as int);
            }
            if a == album_low && b == artist_low {
                proof {
                    assert(p(self@[i as int]));
                    lemma_first_where_extend(self@, p, i + 1);
                }
                return Some(i);
            }
            i = i + 1;
        }
        assert(self@.subrange(0, self@.len() as int) =~= self@);
        None
    }

    fn find_fuzzy(&self, album: &str, artist: &str) -> (r: Option<usize>)
        ensures
            match r {
                Some(i) => i < self@.len() && first_where(self@, fuzzy_pred(album@, artist@))
                    == Some(i as int),
                None => first_where(self@, fuzzy_pred(album@, artist@)) is None,
            },
    {
        let ghost p = fuzzy_pred(album@, artist@);
        let album_key = normalize(album);
        let artist_key = normalize(artist);
        let mut i: usize = 0;
        while i < self.records.len()
            invariant
                i <= self@.len(),
                p == fuzzy_pred(album@, artist@),
                album_key@ == normalized(album@),
                artist_key@ == normalized(artist@),
                first_where(self@.subrange(0, i as int), p) is None,
            decreases self@.len() - i,
        {
            let rec = &self.records[i];
            let a = normalize(rec.album_name.as_str());
            let b = normalize(rec.artist_name.as_str());
            proof {
                lemma_first_where_step(self@, p, i as int);
            }
            if a == album_key && b == artist_key {
                proof {
                    assert(p(self@[i as int]));
                    lemma_first_where_extend(self@, p, i + 1);
                }
                return Some(i);
            }
            i = i + 1;
        }
        assert(self@.subrange(0, self@.len() as int) =~= self@);
        None
    }

    /// Looks a rating up: first an exact case-insensitive match on the raw
    /// pair, else the first record whose canonical pair matches. The record
    /// comes back without a status.
    pub fn get_rating(&self, album_name: &str, artist_name: &str) -> (r: Option<AlbumRating>)
        requires
            self.well_formed(),
        ensures
            r == match lookup_index(self@, album_name@, artist_name@) {
                Some(i) => Some(self@[i]),
                None => None,
            },
            r is Some ==> r->0.status is None,
    {
        let found = match self.find_exact(album_name, artist_name) {
            Some(i) => Some(i),
            None => self.find_fuzzy(album_name, artist_name),
        };
        match found {
            Some(i) => Some(self.records[i].duplicate()),
            None => None,
        }
    }

    /// Stores a rating without its status; it replaces the record under the
    /// same raw key (last write wins).
    pub fn save_rating(&mut self, rating: AlbumRating)
        requires
            old(self).well_formed(),
        ensures
            final(self).well_formed(),
            final(self)@ == upserted(old(self)@, rating),
    {
        let mut stored = rating;
        stored.status = None;
        assert(stored == without_status(rating));
        let mut i: usize = 0;
        while i < self.records.len()
            invariant
                i <= self@.len(),
                self@ == old(self)@,
                keys_unique(old(self)@),
                statuses_cleared(old(self)@),
                stored == without_status(rating),
                forall|k: int| 0 <= k < i ==> !same_raw_key(#[trigger] self@[k], stored),
            decreases self@.len() - i,
        {
            if self.records[i].album_name == stored.album_name
                && self.records[i].artist_name == stored.artist_name {
                proof {
                    let s = old(self)@;
                    assert(same_raw_key(s[i as int], rating));
                    assert(exists|j: int| 0 <= j < s.len() && same_raw_key(#[trigger] s[j], rating));
                    let c = choose|j: int| 0 <= j < s.len() && same_raw_key(#[trigger] s[j], rating);
                    assert(same_raw_key(s[c], s[i as int]));
                    assert(c == i);
                }
                self.records.set(i, stored);
                proof {
                    let s = self@;
                    assert forall|a: int, b: int|
                        0 <= a < s.len() && 0 <= b < s.len() && a != b implies !same_raw_key(
                        #[trigger] s[a],
                        #[trigger] s[b],
                    ) by {
                        if a != i && b != i {
                            assert(s[a] == old(self)@[a] && s[b] == old(self)@[b]);
                        } else if a == i {
                            assert(s[b] == old(self)@[b]);
                            assert(!same_raw_key(old(self)@[a], old(self)@[b]));
                        } else {
                            assert(s[a] == old(self)@[a]);
                            assert(!same_raw_key(old(self)@[a], old(self)@[b]));
                        }
                    }
                }
                return;
            }
            i = i + 1;
        }
        proof {
            let s = old(self)@;
            assert forall|j: int| 0 <= j < s.len() implies !same_raw_key(#[trigger] s[j], rating) by {
                assert(!same_raw_key(s[j], stored));
            }
            assert(!exists|j: int| 0 <= j < s.len() && same_raw_key(#[trigger] s[j], rating));
        }
        self.records.push(stored);
        proof {
            let s = self@;
            assert forall|a: int, b: int|
                0 <= a < s.len() && 0 <= b < s.len() && a != b implies !same_raw_key(
                #[trigger] s[a],
                #[trigger] s[b],
            ) by {
                if a < old(self)@.len() && b < old(self)@.len() {
                    assert(s[a] == old(self)@[a] && s[b] == old(self)@[b]);
                } else if a < old(self)@.len() {
                    assert(s[a] == old(self)@[a]);
                    assert(!same_raw_key(old(self)@[a], stored));
                } else {
                    assert(s[b] == old(self)@[b]);
                    assert(!same_raw_key(old(self)@[b], stored));
                }
            }
        }
    }
}

proof fn lemma_upserted_keeps_unique(s: Seq<AlbumRating>, r: AlbumRating)
    requires
        keys_unique(s),
    ensures
        keys_unique(upserted(s, r)),
        exists|i: int|
            0 <= i < upserted(s, r).len() && #[trigger] upserted(s, r)[i] == without_status(r),
{
    let t = upserted(s, r);
    if exists|i: int| 0 <= i < s.len() && same_raw_key(#[trigger] s[i], r) {
        let c = choose|i: int| 0 <= i < s.len() && same_raw_key(#[trigger] s[i], r);
        assert(t[c] == without_status(r));
        assert forall|a: int, b: int|
            0 <= a < t.len() && 0 <= b < t.len() && a != b implies !same_raw_key(
            #[trigger] t[a],
            #[trigger] t[b],
        ) by {
            if a != c && b != c {
                assert(t[a] == s[a] && t[b] == s[b]);
            } else if a == c {
                assert(t[b] == s[b]);
                assert(!same_raw_key(s[a], s[b]));
            } else {
                assert(t[a] == s[a]);
                assert(!same_raw_key(s[a], s[b]));
            }
        }
    } else {
        assert(t[s.len() as int] == without_status(r));
        assert forall|a: int, b: int|
            0 <= a < t.len() && 0 <= b < t.len() && a != b implies !same_raw_key(
            #[trigger] t[a],
            #[trigger] t[b],
        ) by {
            if a < s.len() && b < s.len() {
                assert(t[a] == s[a] && t[b] == s[b]);
            } else if a < s.len() {
                assert(t[a] == s[a]);
            } else {
                assert(t[b] == s[b]);
            }
        }
    }
}

/// Storing the same manual link twice leaves the store as one store did,
/// with exactly one record filed under the target identity.
pub proof fn lemma_manual_link_twice(
    s: Seq<AlbumRating>,
    page: AlbumRating,
    target_artist: String,
    target_album: String,
)
    requires
        keys_unique(s),
    ensures
        ({
            let linked = relabelled(page, target_artist, target_album);
            let once = upserted(s, linked);
            let twice = upserted(once, linked);
            &&& twice == once
            &&& exists|i: int|
                0 <= i < twice.len() && keyed_by(#[trigger] twice[i], target_album@, target_artist@)
            &&& forall|i: int, j: int|
                0 <= i < twice.len() && 0 <= j < twice.len() && keyed_by(
                    #[trigger] twice[i],
                    target_album@,
                    target_artist@,
                ) && keyed_by(#[trigger] twice[j], target_album@, target_artist@) ==> i == j
        }),
{
    let linked = relabelled(page, target_artist, target_album);
    let once = upserted(s, linked);
    lemma_upserted_keeps_unique(s, linked);
    let w = choose|i: int| 0 <= i < once.len() && #[trigger] once[i] == without_status(linked);
    assert(same_raw_key(once[w], linked));
    let c = choose|i: int| 0 <= i < once.len() && same_raw_key(#[trigger] once[i], linked);
    assert(same_raw_key(once[c], once[w]));
    assert(c == w);
    assert(once.update(w, without_status(linked)) =~= once);
    assert(keyed_by(once[w], target_album@, target_artist@));
    assert forall|i: int, j: int|
        0 <= i < once.len() && 0 <= j < once.len() && keyed_by(
            #[trigger] once[i],
            target_album@,
            target_artist@,
        ) && keyed_by(#[trigger] once[j], target_album@, target_artist@) implies i == j by {
        if i != j {
            assert(same_raw_key(once[i], once[j]));
        }
    }
}

} // verus!
