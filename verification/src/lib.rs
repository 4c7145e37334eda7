//! Resolution of the effective Windows sandbox isolation level from layered
//! configuration sources: structured per-profile and per-document settings,
//! and two generations of boolean feature flags.

pub mod config;
pub mod flags;
pub mod level;
pub mod mode;
