//! A client library for the keen.io event-analytics HTTP API, version 3.
//!
//! A [`KeenClient`] holds the credentials; [`KeenClient::query`] produces a
//! [`KeenQuery`], which accumulates a metric, an event collection, a
//! timeframe, group-by dimensions, filters, an optional result-bucketing
//! interval, a cache hint and arbitrary extra parameters, and renders the
//! whole request as a single query-string URL via [`KeenQuery::url`]. Every
//! rendering function carries a contract that pins the produced string down
//! to the character, and the `laws` module proves the shape properties the
//! serialization promises.
//!
//! Issuing the HTTP GET itself is transport work and lives outside the
//! library: `url` hands back the finished URL, and a thin unverified shell
//! around the crate performs the request.

pub mod client;
pub mod filter;
pub mod interval;
pub mod laws;
pub mod metric;
pub mod render;
pub mod timeframe;
pub mod timestamp;

pub use client::KeenClient;
pub use client::KeenQuery;
pub use filter::Filter;
pub use filter::ToFilterValue;
pub use interval::Interval;
pub use metric::Metric;
pub use timeframe::TimeFrame;
pub use timestamp::UtcTime;
