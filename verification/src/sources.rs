//! The three provenance sources: the cache-root environment variable, the
//! installer's registry entry, and the well-known fixed install path.
//!
//! Reading the environment, the registry and the filesystem is the caller's
//! business; each resolver here is the pure rule that turns what the caller
//! observed into either an installation root or the reason there is none.

use vstd::prelude::*;
use crate::paths::{join_spec, join_path, UWP_PATH, PROGRAM_FILES_PATH};

verus! {

/// Why a provenance source yielded no installation root.
#[derive(Clone, Copy, Debug, PartialEq, Eq, Structural)]
pub enum DiscoveryError {
    /// The cache environment variable is unset: the cache source is
    /// unsupported in the current configuration.
    EnvironmentUnavailable,
    /// The directory derived from the cache environment variable does not
    /// exist on disk.
    NotFound,
    /// The registry key or its value is absent.
    RegistryKeyMissing,
    /// The registry key was there but could not be read.
    RegistryReadError,
    /// Probing a path on disk failed outright.  The probe policy turns this
    /// into absence, so it only ever travels into `probe_known_root`, never
    /// out of it.
    FilesystemProbeFailure,
}

/// What a read of the installer's registry value came back with, as the
/// caller observed it.
#[derive(Debug, PartialEq, Eq)]
pub enum RegistryLookup {
    /// The value was present and holds this install-directory string.
    Found(String),
    /// The key or the value is absent.
    Missing,
    /// Any other access failure.
    AccessFailed,
}

/// The cache environment variable's value, seen as a sequence of characters.
pub open spec fn env_view(env_value: Option<String>) -> Option<Seq<char>> {
    match env_value {
        Option::Some(v) => Option::Some(v@),
        Option::None => Option::None,
    }
}

/// The root the cache source yields, if any: the environment value with the
/// fixed cache subpath joined on, provided the variable is set and the
/// derived directory exists.
pub open spec fn cache_root_of(env_value: Option<Seq<char>>, derived_exists: bool) -> Option<Seq<char>> {
    match env_value {
        Option::Some(v) => if derived_exists {
            Option::Some(join_spec(v, UWP_PATH@))
        } else {
            Option::None
        },
        Option::None => Option::None,
    }
}

/// The root the registry source yields, if any: the registry value verbatim.
pub open spec fn registry_root_of(lookup: RegistryLookup) -> Option<Seq<char>> {
    match lookup {
        RegistryLookup::Found(v) => Option::Some(v@),
        RegistryLookup::Missing => Option::None,
        RegistryLookup::AccessFailed => Option::None,
    }
}

/// Whether a probe outcome counts as "the path is there": only a clean
/// positive answer does; a negative answer and a failed probe alike count as
/// absence.
pub open spec fn probe_found(probe: Result<bool, DiscoveryError>) -> bool {
    probe matches Ok(true)
}

/// The root the well-known-path source yields, if any: the fixed default
/// install location, when its probe found it.
pub open spec fn known_root_of(probe: Result<bool, DiscoveryError>) -> Option<Seq<char>> {
    if probe_found(probe) {
        Option::Some(PROGRAM_FILES_PATH@)
    } else {
        Option::None
    }
}

/// The directory the cache source is rooted under, before any existence
/// check: the environment value with the fixed cache subpath joined on.
/// The caller probes this path and reports what it found to
/// `resolve_cache_root`.
pub fn derived_cache_dir(env_value: &str) -> (r: String)
    ensures
        r@ == join_spec(env_value@, UWP_PATH@),
{
    join_path(env_value, UWP_PATH)
}

/// Resolves the cache source from the environment variable's value and the
/// derived directory's observed existence: unset means the source is
/// unsupported, a missing directory means there is nothing cached, and
/// otherwise the derived directory is the root.
pub fn resolve_cache_root(env_value: Option<String>, derived_exists: bool) -> (r: Result<String, DiscoveryError>)
    ensures
        match env_value {
            Option::None => r == Result::<String, DiscoveryError>::Err(DiscoveryError::EnvironmentUnavailable),
            Option::Some(v) => if derived_exists {
                r matches Ok(p) && p@ == join_spec(v@, UWP_PATH@)
            } else {
                r == Result::<String, DiscoveryError>::Err(DiscoveryError::NotFound)
            },
        },
        r matches Ok(p) ==> cache_root_of(env_view(env_value), derived_exists) == Option::Some(p@),
        r is Err ==> cache_root_of(env_view(env_value), derived_exists) is None,
{
    match env_value {
        Option::Some(v) => {
            if derived_exists {
                Ok(derived_cache_dir(v.as_str()))
            } else {
                Err(DiscoveryError::NotFound)
            }
        },
        Option::None => Err(DiscoveryError::EnvironmentUnavailable),
    }
}

/// Resolves the registry source from the observed lookup outcome: the value
/// is taken verbatim, with no check that it exists on disk; absence and any
/// other access failure map to their own errors.
pub fn resolve_install_root(lookup: RegistryLookup) -> (r: Result<String, DiscoveryError>)
    ensures
        match lookup {
            RegistryLookup::Found(v) => r matches Ok(p) && p@ == v@,
            RegistryLookup::Missing => r == Result::<String, DiscoveryError>::Err(DiscoveryError::RegistryKeyMissing),
            RegistryLookup::AccessFailed => r == Result::<String, DiscoveryError>::Err(DiscoveryError::RegistryReadError),
        },
        r matches Ok(p) ==> registry_root_of(lookup) == Option::Some(p@),
        r is Err ==> registry_root_of(lookup) is None,
{
    match lookup {
        RegistryLookup::Found(v) => Ok(v),
        RegistryLookup::Missing => Err(DiscoveryError::RegistryKeyMissing),
        RegistryLookup::AccessFailed => Err(DiscoveryError::RegistryReadError),
    }
}

/// Resolves the well-known-path source from the observed probe outcome.
/// Only a clean "it exists" yields the fixed default install location; "it
/// does not exist" and a failed probe alike yield nothing, never an error.
pub fn probe_known_root(probe: Result<bool, DiscoveryError>) -> (r: Option<String>)
    ensures
        probe_found(probe) ==> (r matches Some(p) && p@ == PROGRAM_FILES_PATH@),
        !probe_found(probe) ==> r is None,
        r matches Some(p) ==> known_root_of(probe) == Option::Some(p@),
        r is None ==> known_root_of(probe) is None,
{
    match probe {
        Ok(true) => Some(PROGRAM_FILES_PATH.to_owned()),
        _ => None,
    }
}

} // verus!
