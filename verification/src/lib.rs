//! Metadata resolution and disambiguation for music tracks looked up by ISRC.
//!
//! The library holds the verified core: the candidate filtering and
//! cross-check algorithm, the cardinality resolution with its pluggable
//! tie-break selector, the catalog URL and query builders, and the mapping
//! of raw catalog records into the canonical [`metadata::Metadata`] entity.
//! Network transport and JSON decoding live outside, in the surrounding
//! application, which hands raw records in as plain values.

pub mod alt_lookup;
pub mod catalog;
pub mod metadata;
pub mod raw;
pub mod resolver;
pub mod select;
