//! Adaptive server-side copy of one object between two buckets.
//!
//! The crate plans part size and concurrency (`auto`), decides whether a
//! destination that is already in place needs anything done (`strategy`),
//! builds what a write carries (`headers`), lays out and orders the parts of
//! a multipart upload (`parts`), and verifies a finished copy (`verify`). The
//! copy itself is a state machine (`lifecycle`) that the engine (`engine`)
//! follows reply by reply: it is handed the store's replies and answers with
//! the next request (`store`), and never talks to the store itself. What
//! holds of every run is stated and proved in `laws`.

pub mod limits;
pub mod text;
pub mod auto;
pub mod object;
pub mod errors;
pub mod args;
pub mod config;
pub mod strategy;
pub mod verify;
pub mod headers;
pub mod parts;
pub mod store;
pub mod lifecycle;
pub mod engine;
pub mod laws;
pub mod progress;
pub mod estimate;
pub mod catalog;
