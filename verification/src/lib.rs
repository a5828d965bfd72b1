//! Resolution of Minecraft version identifiers against an immutable registry,
//! and the rules that say which server flavor can run which version.
//!
//! The registry is produced ahead of time in two steps. The upstream manifest
//! is filtered and its kept entries are joined to their server URLs
//! (`acquire`); the result is compiled into a compact table keyed by version
//! identifier (`compile`). The table is loaded once into a registry
//! (`built`), which is only read from then on: identifiers are resolved in
//! it, and a flavor is asked whether it runs the version found (`flavor`).
//!
//! Three things are left to libraries that are not verified here, each behind
//! one private function whose contract says what is taken on trust: reading
//! an instant from text and writing it as text (`time`), and reading a URL
//! (`flavor`).

pub mod acquire;
pub mod built;
pub mod cli;
pub mod compile;
pub mod flavor;
pub mod table;
pub mod text;
pub mod time;
pub mod version;
