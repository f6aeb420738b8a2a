//! A rolling-window average over a streamed price feed.
//!
//! Prices are fixed-point decimals: an `i64` counts units of 10^-8. The
//! window holds samples in arrival order; the feed ingestor is its only
//! writer, and the query side reads it without evicting anything.
pub mod decimal;
pub mod feed;
pub mod query;
pub mod window;
