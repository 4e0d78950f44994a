//! Verified core of a tag autocomplete service: input normalization,
//! wildcard-pattern escaping, JSON response building, and the cache-aside,
//! two-tier query-resolution state machine, with a thin trusted layer over
//! the shared result cache.

pub mod cache;
pub mod errors;
pub mod escape;
pub mod json;
pub mod normalize;
pub mod resolver;
pub mod strutil;
pub mod tag;
