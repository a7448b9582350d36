//! The install planner: the decisions of one package's install pipeline,
//! taken over what the caller observed on disk. The caller performs the
//! planned I/O (fetch, unpack, link) and feeds results back; every decision
//! here is proved against the spec functions below.

use vstd::prelude::*;
use crate::integrity::artifact_matches;
use crate::integrity::matches_digest;
use crate::package::VoltPackage;
use crate::store::StoreModel;

verus! {

/// The pipeline's failure kinds, one per stage.
#[derive(Clone, Copy, PartialEq, Eq, Structural, Debug)]
pub enum InstallError {
    /// The working or home directory could not be resolved (fatal).
    PathResolution,
    /// The network fetch failed or answered with a non-success status.
    Download,
    /// The artifact's digest does not match the declared digest.
    Integrity,
    /// The archive could not be unpacked or renamed into place.
    Extract,
    /// The project link could not be created.
    Link,
}

/// What the caller observed on disk before planning one package's install.
pub struct Observation {
    /// The bytes cached at the package's temporary artifact path, if any.
    pub cached_artifact: Option<Vec<u8>>,
    /// Whether the store already holds an entry for the package's store key.
    pub store_entry_exists: bool,
    /// Whether the project dependency directory already has an entry under
    /// the package's bare name.
    pub project_link_exists: bool,
}

/// A cached artifact is reusable exactly when it exists and its bytes hash
/// to the declared digest.
pub open spec fn spec_reusable(pkg: VoltPackage, obs: Observation) -> bool {
    match obs.cached_artifact {
        Option::Some(d) => matches_digest(d@, pkg.sha1@),
        Option::None => false,
    }
}

/// The pipeline fetches over the network exactly when no reusable artifact
/// is cached.
pub open spec fn spec_download(pkg: VoltPackage, obs: Observation) -> bool {
    !spec_reusable(pkg, obs)
}

/// The pipeline extracts exactly when the store has no entry yet.
pub open spec fn spec_extract(obs: Observation) -> bool {
    !obs.store_entry_exists
}

/// The planned work for one package.
pub struct InstallPlan {
    /// Fetch the tarball over the network; false means zero network work.
    pub download: bool,
    /// The URL to fetch: the resolved tarball URL exactly, never downgraded
    /// to an insecure scheme.
    pub url: String,
    /// Unpack the artifact into the store; false means the entry stands.
    pub extract: bool,
    /// Remove the stale project link before linking (replace-then-link).
    pub remove_old_link: bool,
    /// Create the project link; every install refreshes it.
    pub create_link: bool,
}

/// Decide one package's work from the observed state of the disk.
pub fn plan_install(pkg: &VoltPackage, obs: &Observation) -> (plan: InstallPlan)
    ensures
        plan.download == spec_download(*pkg, *obs),
        plan.url@ == pkg.tarball@,
        plan.extract == spec_extract(*obs),
        plan.remove_old_link == obs.project_link_exists,
        plan.create_link,
{
    let download = match &obs.cached_artifact {
        Option::Some(data) => !artifact_matches(data, pkg.sha1.as_str()),
        Option::None => true,
    };
    InstallPlan {
        download,
        url: pkg.tarball.clone(),
        extract: !obs.store_entry_exists,
        remove_old_link: obs.project_link_exists,
        create_link: true,
    }
}

/// Hold downloaded bytes against the declared digest: a mismatch is an
/// integrity failure, reported and never silently accepted.
pub fn verify_artifact(pkg: &VoltPackage, data: &Vec<u8>) -> (r: Result<(), InstallError>)
    ensures
        r is Ok <==> matches_digest(data@, pkg.sha1@),
        r is Err ==> r == Result::<(), InstallError>::Err(InstallError::Integrity),
{
    if artifact_matches(data, pkg.sha1.as_str()) {
        Result::Ok(())
    } else {
        Result::Err(InstallError::Integrity)
    }
}

/// Verify a downloaded artifact, then ensure its store entry. A digest
/// mismatch is an integrity error and leaves the store exactly as it was:
/// no store entry is ever produced from unverified bytes. On success the
/// returned flag says whether an extraction took place.
pub fn register_verified(
    store: &mut StoreModel,
    pkg: &VoltPackage,
    data: &Vec<u8>,
    key: &str,
) -> (r: Result<bool, InstallError>)
    requires
        old(store).wf(),
    ensures
        final(store).wf(),
        !matches_digest(data@, pkg.sha1@) ==> r == Result::<bool, InstallError>::Err(
            InstallError::Integrity,
        ) && *final(store) == *old(store),
        matches_digest(data@, pkg.sha1@) ==> r == Result::<bool, InstallError>::Ok(
            !old(store).spec_contains(key@),
        ) && final(store).spec_contains(key@) && (forall|k: Seq<char>|
            final(store).spec_contains(k) <==> (old(store).spec_contains(k) || k == key@)),
        matches_digest(data@, pkg.sha1@) && old(store).spec_contains(key@) ==> *final(store)
            == *old(store),
{
    match verify_artifact(pkg, data) {
        Result::Ok(()) => {
            let did_extract = store.ensure_extracted(key);
            Result::Ok(did_extract)
        },
        Result::Err(e) => Result::Err(e),
    }
}

/// Law: re-installing with no store change is quiet — with the store entry
/// present and the cached artifact still matching its declared digest, the
/// plan performs zero network fetches and zero re-extractions.
pub proof fn lemma_reinstall_is_quiet(pkg: VoltPackage, obs: Observation)
    requires
        obs.store_entry_exists,
        spec_reusable(pkg, obs),
    ensures
        !spec_download(pkg, obs),
        !spec_extract(obs),
{
}

/// Law: a cached artifact whose bytes do not hash to the declared digest is
/// never reused — the plan's single fetch re-downloads it before any
/// extraction proceeds.
pub proof fn lemma_corrupt_cache_forces_refetch(pkg: VoltPackage, obs: Observation)
    requires
        match obs.cached_artifact {
            Option::Some(d) => !matches_digest(d@, pkg.sha1@),
            Option::None => false,
        },
    ensures
        spec_download(pkg, obs),
{
}

} // verus!
