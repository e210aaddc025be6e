//! Loader decisions and fixed artifact addresses. The reads themselves —
//! probing the local volume, fetching from the model hub, memory-mapping
//! weights — are input/output work done by the surrounding program; the
//! choices and constants they follow are fixed here.

use vstd::prelude::*;

verus! {

/// Picks the token id recorded in a model configuration, or the fixed
/// sentinel when the configuration leaves it out.
pub fn token_id_or_default(configured: Option<u64>) -> (r: u32)
    ensures
        configured is Some ==> r == configured.unwrap() as u32,
        configured is None ==> r == 2u32,
{
    match configured {
        Some(v) => v as u32,
        None => 2u32,
    }
}

/// Where the vision bundle's artifacts are taken from.
#[derive(Debug, Clone, Copy, PartialEq, Eq, Structural)]
pub enum ArtifactSource {
    /// The local model volume holds the configuration file.
    LocalVolume,
    /// Fall back to fetching from the remote model hub.
    RemoteHub,
}

/// Picks the artifact source for the vision bundle: the local volume
/// exactly when its configuration file is present, else the remote hub.
pub fn stage1_source(local_config_present: bool) -> (r: ArtifactSource)
    ensures
        r is LocalVolume <==> local_config_present,
{
    if local_config_present {
        ArtifactSource::LocalVolume
    } else {
        ArtifactSource::RemoteHub
    }
}

/// The local directory that holds the vision bundle's artifacts.
pub fn stage1_local_dir() -> (r: &'static str)
    ensures
        r@ == "/app/models/trocr"@,
{
    "/app/models/trocr"
}

/// The model-hub identifier the vision bundle is fetched from when the
/// local volume is empty.
pub fn stage1_hub_repo() -> (r: &'static str)
    ensures
        r@ == "microsoft/trocr-base-handwritten"@,
{
    "microsoft/trocr-base-handwritten"
}

/// The local directory that holds the cleanup bundle's artifacts; this
/// bundle has no remote fallback.
pub fn stage2_local_dir() -> (r: &'static str)
    ensures
        r@ == "/app/models/phi3"@,
{
    "/app/models/phi3"
}

} // verus!
