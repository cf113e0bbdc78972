use mcmeta::storage::forge_pipeline::{first_stage, is_terminal, next_stage, Stage, StageResult};
use mcmeta::app_config::{MetadataConfig, StorageFormat};
use mcmeta::storage::keys::{forge_directory, ForgeDocument};
use mcmeta::storage::layout::{
    join, ForgeDataStorage, MojangDataStorage, StorageError, UpstreamMetadataUpdater,
};

const FINE: StageResult = StageResult { fatal: false, regenerate: true };
const UNCHANGED: StageResult = StageResult { fatal: false, regenerate: false };
const FATAL: StageResult = StageResult { fatal: true, regenerate: true };

#[test]
fn a_cycle_passes_through_its_stages_in_order() {
    let mut stage = first_stage();
    let mut seen = vec![stage];
    while !is_terminal(stage) {
        stage = next_stage(stage, FINE);
        seen.push(stage);
    }
    assert_eq!(
        seen,
        vec![
            Stage::FetchPromotions,
            Stage::ParsePromotions,
            Stage::FetchVersionList,
            Stage::ParseVersionEntries,
            Stage::BuildIndex,
            Stage::ResolveLatestPerGameVersion,
            Stage::PersistIndex,
            Stage::ExtractInstallerArtifacts,
            Stage::PersistArtifacts,
            Stage::Done,
        ]
    );
}

#[test]
fn unchanged_index_ends_the_cycle_after_it_is_stored() {
    assert_eq!(next_stage(Stage::PersistIndex, UNCHANGED), Stage::Done);
    assert_eq!(next_stage(Stage::PersistIndex, FINE), Stage::ExtractInstallerArtifacts);
    // Elsewhere the answer is not asked.
    assert_eq!(next_stage(Stage::BuildIndex, UNCHANGED), Stage::ResolveLatestPerGameVersion);
}

#[test]
fn fatal_failure_gives_the_cycle_up() {
    for stage in [
        Stage::FetchPromotions,
        Stage::ParseVersionEntries,
        Stage::PersistIndex,
        Stage::ExtractInstallerArtifacts,
        Stage::PersistArtifacts,
    ] {
        assert_eq!(next_stage(stage, FATAL), Stage::Failed);
    }
    // A cycle that has ended stays where it is.
    assert_eq!(next_stage(Stage::Done, FATAL), Stage::Done);
    assert_eq!(next_stage(Stage::Failed, FINE), Stage::Failed);
    assert!(is_terminal(Stage::Done));
    assert!(is_terminal(Stage::Failed));
    assert!(!is_terminal(Stage::PersistArtifacts));
}

fn json(meta: &str) -> StorageFormat {
    StorageFormat::Json {
        meta_directory: meta.to_string(),
        generated_directory: "generated".to_string(),
    }
}

fn ok(path: &str) -> Result<String, StorageError> {
    Ok(path.to_string())
}

#[test]
fn paths_are_joined_with_one_slash() {
    assert_eq!(join("meta", "forge"), "meta/forge");
    assert_eq!(join("meta/", "forge"), "meta/forge");
    assert_eq!(join("", "forge"), "forge");
    assert_eq!(join("meta", ""), "meta/");
    assert_eq!(join("meta", "/abs"), "/abs");
    assert_eq!(join("/", "x"), "/x");
}

#[test]
fn places_of_the_mod_loader_documents() {
    let s = ForgeDataStorage::new(json("meta"));
    assert_eq!(s.meta_dir(), ok("meta/forge"));
    assert_eq!(s.manifests_dir(), ok("meta/forge/files_manifests"));
    assert_eq!(s.installer_manifests_dir(), ok("meta/forge/installer_manifests"));
    assert_eq!(s.version_manifests_dir(), ok("meta/forge/version_manifests"));
    assert_eq!(s.installer_info_dir(), ok("meta/forge/installer_info"));
    assert_eq!(s.forge_jars_dir(), ok("meta/forge/jars"));
    assert_eq!(s.maven_metadata_file(), ok("meta/forge/maven-metadata.json"));
    assert_eq!(s.promotions_file(), ok("meta/forge/promotions_slim.json"));
    assert_eq!(s.index_file(), ok("meta/forge/derived_index.json"));
    assert_eq!(s.index_entry_file(), ok("meta/forge/derived_index.last_index.json"));
    assert_eq!(
        s.document_file(ForgeDocument::FilesManifest, "1.20.1-47.2.0"),
        ok("meta/forge/files_manifests/1.20.1-47.2.0.json")
    );
    assert_eq!(
        s.document_file(ForgeDocument::InstallerInfo, "a"),
        ok("meta/forge/installer_info/a.json")
    );
    assert_eq!(
        s.jar_file("forge-1-2-installer.jar"),
        ok("meta/forge/jars/forge-1-2-installer.jar")
    );
    assert_eq!(forge_directory(ForgeDocument::VersionManifest), "version_manifests");
    assert_eq!(s.document_dir(ForgeDocument::InstallerManifest), s.installer_manifests_dir());
}

#[test]
fn places_of_the_game_documents() {
    let s = MojangDataStorage::new(json("/var/meta/"));
    assert_eq!(s.meta_dir(), ok("/var/meta/mojang"));
    assert_eq!(s.versions_dir(), ok("/var/meta/mojang/versions"));
    assert_eq!(s.manifest_file(), ok("/var/meta/mojang/version_manifest_v2.json"));
    assert_eq!(s.version_file("1.20.1"), ok("/var/meta/mojang/versions/1.20.1.json"));
}

#[test]
fn a_database_has_no_places() {
    let s = ForgeDataStorage::new(StorageFormat::Database);
    assert_eq!(s.meta_dir(), Err(StorageError::WrongFormat));
    assert_eq!(s.manifests_dir(), Err(StorageError::WrongFormat));
    assert_eq!(s.index_file(), Err(StorageError::WrongFormat));
    assert_eq!(s.document_file(ForgeDocument::FilesManifest, "a"), Err(StorageError::WrongFormat));
    let s = MojangDataStorage::new(StorageFormat::Database);
    assert_eq!(s.version_file("a"), Err(StorageError::WrongFormat));
    assert_eq!(StorageError::WrongFormat.message(), "Wrong storage format");
}

#[test]
fn what_a_cycle_works_with() {
    let u = UpstreamMetadataUpdater::new(
        json("meta"),
        MetadataConfig { max_parallel_fetch_connections: 4, static_directory: "static".to_string() },
    );
    assert_eq!(u.max_parallel_fetch_connections(), 4);
    assert_eq!(u.meta_directory(), ok("meta"));
    assert_eq!(u.forge_storage(), ForgeDataStorage::new(json("meta")));
    assert_eq!(u.mojang_storage(), MojangDataStorage::new(json("meta")));
    assert_eq!(u.legacy_info_file(), "static/forge/forge-legacyinfo.json");
    assert_eq!(u.experiments_file(), "static/mojang/minecraft-experiments.json");
    assert_eq!(u.old_snapshots_file(), "static/mojang/minecraft-old-snapshots.json");
    assert_eq!(u.static_file("forge", "x.json"), "static/forge/x.json");
}
