//! Rating-overlay synchronisation core: key normalisation, freshness policy,
//! the local rating store, the two-tier resolver and the cross-surface
//! session state machine.
pub mod release_date;
pub mod text;
pub mod normalize;
pub mod record;
pub mod store;
pub mod identity;
pub mod urls;
pub mod resolver;
pub mod session;
pub mod scrape;
