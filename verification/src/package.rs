//! The resolved-package descriptor the pipeline consumes.

use vstd::prelude::*;

verus! {

/// A package as the (external) resolver hands it to the pipeline: immutable
/// once resolved.
pub struct VoltPackage {
    /// The package's registry name, possibly scoped (`@scope/name`).
    pub name: String,
    /// The resolved version.
    pub version: String,
    /// The URL the tarball is fetched from.
    pub tarball: String,
    /// The declared lowercase hex SHA-1 digest of the tarball bytes.
    pub sha1: String,
}

} // verus!
