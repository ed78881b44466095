//! Support for a service that proposes changes to many codebases.
//!
//! Two parts carry the weight. The managers in `manager` and `factory` give
//! one way to address codebases that are kept under git or Bazaar, locally or
//! behind a cache, and `failure` tells every way in which opening a branch can
//! fail as one of a fixed set of codes. The limiters in `rate_limiter` decide
//! how many proposals may be open per bucket.
//!
//! The library computes and decides; it opens no file and no connection. What
//! it needs from the world it takes as plain values, and what is to be done
//! in the world it hands back as values.

pub mod bucket_counts;
pub mod config;
pub mod factory;
pub mod failure;
pub mod location;
pub mod manager;
pub mod publish;
pub mod rate_limiter;
pub mod revision;
pub mod text;
pub mod vcs;
