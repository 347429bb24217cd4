//! Discovery of candidate installation directories for a bundled Java
//! runtime on Windows.
//!
//! Three independent, fallible provenance sources may each yield an
//! installation root: the user's local application-cache directory (named by
//! an environment variable), a registry entry written by the launcher's
//! installer, and a well-known fixed install path.  Every root that resolves
//! is crossed with a fixed, ordered table of six runtime-variant suffixes to
//! produce a deterministic, ordered candidate list.  Reading the environment,
//! the registry and the filesystem is left to the caller; this crate holds the
//! resolution and assembly rules themselves, each with a proved contract.

pub mod paths;
pub mod sources;
pub mod assemble;
