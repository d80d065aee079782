//! Aggregation of the newest uploads of every channel a user follows into
//! one feed, newest first.
//!
//! Nothing in this crate performs I/O. Each component is a small state
//! machine: the caller performs the network call, the sleep or the token
//! refresh that a step asks for and hands the result back as the next event.
//!
//! - [`executor`]: one call with its single retry after a rate limit.
//! - [`pagination`]: a listing read page by page.
//! - [`subscriptions`], [`playlists`], [`collector`]: the three listings of
//!   an aggregation.
//! - [`feed`]: the stable merge of the collected entries.
//! - [`orchestrator`]: the phases of an aggregation; [`session`]: the same
//!   with every call of its sequential stages.
//! - [`videos`], [`search_video`]: the two single-purpose listings.
//! - [`request`], [`auth`]: the credential of a request and the address that
//!   hands a new credential to the browser.
//! - [`json`], [`instant`]: what is read through `serde_json` and `chrono`.

pub mod error;
pub mod models;
pub mod text;
pub mod json;
pub mod instant;
pub mod executor;
pub mod pagination;
pub mod subscriptions;
pub mod playlists;
pub mod collector;
pub mod feed;
pub mod orchestrator;
pub mod session;
pub mod videos;
pub mod search_video;
pub mod request;
pub mod auth;
