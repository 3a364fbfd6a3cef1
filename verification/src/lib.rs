//! Verified core of a music-catalog synchronizer: typed identifiers,
//! validated `Song` and `Album` aggregates, and the logic that decides
//! which remote songs are new and how to materialize them locally.
pub mod errors;
pub mod ids;
pub mod iset;
pub mod msr;
pub mod song;
pub mod sync;
