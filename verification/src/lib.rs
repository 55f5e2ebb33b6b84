//! A pluggable mod-source abstraction: a uniform provider contract for
//! resolving a mod identifier to a concrete downloadable artifact, fetching
//! that artifact with best-effort progress reporting, and keeping a metadata
//! cache that records what is known about each mod without redundant network
//! work.

pub mod cache;
pub mod error;
pub mod file;
pub mod hosted;
pub mod mod_info;
pub mod provider;
pub mod progress;
pub mod registry;
pub mod text;
