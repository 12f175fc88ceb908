//! Core of a syndication-feed aggregator: a text-backed registry of
//! source URLs, normalization of parsed feed documents into `Feed` and
//! `Post` values, best-effort icon attachment, and the fan-in that
//! partitions per-source outcomes into successes and errors.
//!
//! All I/O — reading and writing the registry's backing file, the HTTP
//! transfers, the icon cache writes — belongs to the surrounding
//! application, which hands this library plain values and takes plain
//! values back.

pub mod aggregate;
pub mod error;
pub mod feed;
pub mod registry;
pub mod text;
