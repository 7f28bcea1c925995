//! Engine for watching remote content feeds and notifying subscribers.
//!
//! The crate holds the verified core of a feed-notification service: the
//! filter rule that decides which uploads a subscriber wants, the workunit
//! builder that joins new uploads with the subscribers still waiting for
//! them, the dispatch-and-reconcile engine that keeps delivery cursors
//! consistent with the messages actually sent, and the rate limiter that spaces
//! calls to the content API. All network and database traffic lives outside
//! the library and hands plain values in and out.

pub mod categories;
pub mod duration;
pub mod engine;
pub mod extras;
pub mod message;
pub mod filters;
pub mod rate_limit;
pub mod scrape;
pub mod text;
pub mod workunits;
pub mod youtube;

use vstd::prelude::*;

verus! {

} // verus!
