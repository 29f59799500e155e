//! Client-side engine for a paginated JSON REST API.
//!
//! Resources are declared as typed descriptors implementing [`endpoint::Endpoint`];
//! they are dispatched through a transport implementing the [`client`] traits and
//! consumed either as single results, as one explicit page, or as a lazily
//! paginated traversal that hides page-boundary bookkeeping.

pub mod client;
pub mod common;
pub mod datetime;
pub mod endpoint;
pub mod error;
pub mod events;
pub mod games;
pub mod json;
pub mod matches;
pub mod pagination;
pub mod params;
pub mod players;
pub mod query;
pub mod records;
pub mod stages;
pub mod stats;
pub mod strutil;
pub mod teams;
pub mod types;
pub mod urls;
