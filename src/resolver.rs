//! Rating resolver: local store first, then the remote cache, then a miss,
//! with the freshness and completeness policy deciding at each tier.
//!
//! Resolution runs in two steps so that the caller performs the remote query
//! only when the first step asks for it.
use vstd::prelude::*;
use crate::record::{complete_spec, with_status, AlbumRating, RatingStatus};
use crate::release_date::{
    compute_ttl_seconds, fresh_spec, is_fresh, parse_release_date_to_timestamp,
    release_timestamp, ttl_spec,
};

verus! {

/// The record is within its time-to-live at `now`.
pub open spec fn record_fresh(r: AlbumRating, now: int) -> bool {
    fresh_spec(r.timestamp as int, ttl_spec(now, release_timestamp(r.release_date@)), now)
}

/// Whether `rating` is within its time-to-live at `now`.
pub fn record_is_fresh(rating: &AlbumRating, now: i64) -> (r: bool)
    ensures
        r == record_fresh(*rating, now as int),
{
    let release = parse_release_date_to_timestamp(rating.release_date.as_str());
    let ttl = compute_ttl_seconds(now, release);
    is_fresh(rating.timestamp, ttl, now)
}

/// Outcome of a resolution: the best record known, if any, and whether a
/// refresh from the site is due.
pub struct Resolution {
    pub record: Option<AlbumRating>,
    pub needs_refresh: bool,
}

/// First step: either resolved from the local store alone, or the remote
/// cache is to be asked, with the best candidate so far.
pub enum LocalStep {
    Resolved(Resolution),
    QueryRemote(Option<AlbumRating>),
}

/// Second step: the resolution, and whether its record is to be written
/// back to the local store.
pub struct RemoteStep {
    pub resolution: Resolution,
    pub store_locally: bool,
}

/// The record tagged stale, if any.
pub open spec fn stale_candidate(r: Option<AlbumRating>) -> Option<AlbumRating> {
    match r {
        Some(x) => Some(with_status(x, RatingStatus::Stale)),
        None => None,
    }
}

/// A fresh and complete record settles the lookup.
pub open spec fn settles(local: Option<AlbumRating>, now: int) -> bool {
    local is Some && record_fresh(local->0, now) && complete_spec(local->0)
}

pub open spec fn local_step_spec(local: Option<AlbumRating>, now: int, force: bool) -> LocalStep {
    if settles(local, now) {
        LocalStep::Resolved(
            Resolution {
                record: Some(with_status(local->0, RatingStatus::Fresh)),
                needs_refresh: false,
            },
        )
    } else if force {
        LocalStep::Resolved(Resolution { record: stale_candidate(local), needs_refresh: true })
    } else {
        LocalStep::QueryRemote(stale_candidate(local))
    }
}

/// The remote record replaces the candidate only when strictly newer.
pub open spec fn newer_candidate(candidate: Option<AlbumRating>, remote: AlbumRating) -> Option<
    AlbumRating,
> {
    match candidate {
        Some(c) => if remote.timestamp > c.timestamp {
            Some(with_status(remote, RatingStatus::Stale))
        } else {
            Some(c)
        },
        None => Some(with_status(remote, RatingStatus::Stale)),
    }
}

pub open spec fn remote_step_spec(
    candidate: Option<AlbumRating>,
    remote: Option<AlbumRating>,
    now: int,
) -> RemoteStep {
    match remote {
        Some(r) => if record_fresh(r, now) {
            RemoteStep {
                resolution: Resolution {
                    record: Some(with_status(r, RatingStatus::Fresh)),
                    needs_refresh: false,
                },
                store_locally: true,
            }
        } else {
            RemoteStep {
                resolution: Resolution {
                    record: newer_candidate(candidate, r),
                    needs_refresh: true,
                },
                store_locally: false,
            }
        },
        None => RemoteStep {
            resolution: Resolution { record: candidate, needs_refresh: true },
            store_locally: false,
        },
    }
}

/// First step of a resolution, on what the local store returned. A fresh,
/// complete local record settles it, and the remote cache is never asked;
/// `force` skips the remote cache.
pub fn resolve_local(local: Option<AlbumRating>, now: i64, force: bool) -> (r: LocalStep)
    ensures
        r == local_step_spec(local, now as int, force),
        settles(local, now as int) ==> r is Resolved,
        local is Some && !complete_spec(local->0) ==> match r {
            LocalStep::Resolved(res) => res.needs_refresh,
            LocalStep::QueryRemote(_) => true,
        },
{
    match local {
        Some(mut rating) => {
            if record_is_fresh(&rating, now) && rating.is_complete() {
                rating.set_status(RatingStatus::Fresh);
                return LocalStep::Resolved(Resolution { record: Some(rating), needs_refresh: false });
            }
            rating.set_status(RatingStatus::Stale);
            if force {
                LocalStep::Resolved(Resolution { record: Some(rating), needs_refresh: true })
            } else {
                LocalStep::QueryRemote(Some(rating))
            }
        },
        None => {
            if force {
                LocalStep::Resolved(Resolution { record: None, needs_refresh: true })
            } else {
                LocalStep::QueryRemote(None)
            }
        },
    }
}

/// Second step, on what the remote cache returned (`None`: a miss, or no
/// remote cache). A fresh remote record is served and written back; a stale
/// one replaces the candidate only when strictly newer.
pub fn resolve_remote(candidate: Option<AlbumRating>, remote: Option<AlbumRating>, now: i64) -> (r:
    RemoteStep)
    ensures
        r == remote_step_spec(candidate, remote, now as int),
        candidate is Some && remote is Some && !record_fresh(remote->0, now as int) ==> {
            let chosen = r.resolution.record->0;
            &&& r.resolution.record is Some
            &&& r.resolution.needs_refresh
            &&& chosen.timestamp >= candidate->0.timestamp
            &&& chosen.timestamp >= remote->0.timestamp
        },
{
    match remote {
        Some(mut rating) => {
            if record_is_fresh(&rating, now) {
                rating.set_status(RatingStatus::Fresh);
                return RemoteStep {
                    resolution: Resolution { record: Some(rating), needs_refresh: false },
                    store_locally: true,
                };
            }
            let use_remote = match &candidate {
                Some(local) => rating.timestamp > local.timestamp,
                None => true,
            };
            let best = if use_remote {
                rating.set_status(RatingStatus::Stale);
                Some(rating)
            } else {
                candidate
            };
            RemoteStep {
                resolution: Resolution { record: best, needs_refresh: true },
                store_locally: false,
            }
        },
        None => RemoteStep {
            resolution: Resolution { record: candidate, needs_refresh: true },
            store_locally: false,
        },
    }
}

} // verus!
