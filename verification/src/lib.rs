//! Resolution, installation and launch support for Dockerfile language
//! tooling: locating a platform-specific language-server binary from a
//! release feed, keeping exactly one installed version on disk, resolving
//! a package-registry-distributed server script, and translating debug
//! launch requests into `docker buildx` invocations.

pub mod cache;
pub mod debug_adapter;
pub mod errors;
pub mod installer;
pub mod jsonio;
pub mod package;
pub mod platform;
pub mod release;
pub mod servers;
pub mod strutil;
