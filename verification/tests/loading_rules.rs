//! Loader decisions: artifact source choice and token-id defaulting.

use ocr_pipeline::loading::{stage1_source, stage1_hub_repo, stage1_local_dir, token_id_or_default, ArtifactSource};

#[test]
fn local_volume_wins_when_config_is_present() {
    assert_eq!(stage1_source(true), ArtifactSource::LocalVolume);
    assert_eq!(stage1_source(false), ArtifactSource::RemoteHub);
}

#[test]
fn fixed_artifact_addresses() {
    assert_eq!(stage1_local_dir(), "/app/models/trocr");
    assert_eq!(stage1_hub_repo(), "microsoft/trocr-base-handwritten");
    assert_eq!(ocr_pipeline::loading::stage2_local_dir(), "/app/models/phi3");
}

#[test]
fn token_ids_default_to_the_sentinel() {
    assert_eq!(token_id_or_default(None), 2);
    assert_eq!(token_id_or_default(Some(50262)), 50262);
    assert_eq!(token_id_or_default(Some(0)), 0);
}
