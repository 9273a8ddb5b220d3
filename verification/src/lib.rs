//! A minimal in-memory ledger for tracking physical goods through a supply
//! chain. It records products, the participants that handle them, and a
//! time-ordered sequence of custody/inspection events per product, then
//! answers queries about a product's provenance and whether its recorded
//! history is internally consistent.
//!
//! All time values are seconds since the Unix epoch and are derived from a
//! single nanosecond clock reading that the caller hands to each operation;
//! the library itself never reads a clock.

pub mod authenticity;
pub mod entities;
pub mod ident;
pub mod laws;
pub mod store;
