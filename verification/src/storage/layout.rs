//! Where the documents of a cycle lie: the directories and files below the
//! directory that the configuration names. Nothing here touches the disk.

use vstd::prelude::*;
use crate::app_config::{MetadataConfig, StorageFormat};
use crate::storage::keys::{directory_of, forge_directory, ForgeDocument};
use crate::text::{chars_of, concat};

verus! {

/// Why a place cannot be named.
#[derive(Debug, Clone, Copy, PartialEq, Eq, Structural)]
pub enum StorageError {
    /// The storage is not kept in files.
    WrongFormat,
}

impl StorageError {
    /// The message of the error.
    pub fn message(&self) -> (m: &'static str)
        ensures
            m@ == "Wrong storage format"@,
    {
        "Wrong storage format"
    }
}

/// The path of `name` below `dir`: `name` itself where it starts at the root,
/// else `dir`, a slash unless `dir` is empty or ends with one, and `name`.
pub open spec fn joined(dir: Seq<char>, name: Seq<char>) -> Seq<char> {
    if name.len() > 0 && name[0] == '/' {
        name
    } else if dir.len() == 0 || dir.last() == '/' {
        dir + name
    } else {
        dir.push('/') + name
    }
}

/// The path of `name` below `dir`.
pub fn join(dir: &str, name: &str) -> (r: String)
    ensures
        r@ == joined(dir@, name@),
{
    let d = chars_of(dir);
    let n = chars_of(name);
    if n.len() > 0 && n[0] == '/' {
        name.to_owned()
    } else if d.len() == 0 || d[d.len() - 1] == '/' {
        concat(dir, name)
    } else {
        let mut r = dir.to_owned();
        r.push('/');
        r.append(name);
        r
    }
}

/// The directory of the metadata that a storage format names, where it is
/// kept in files.
pub open spec fn meta_directory_of(format: StorageFormat) -> Option<Seq<char>> {
    match format {
        StorageFormat::Json { meta_directory, generated_directory } => Some(meta_directory@),
        StorageFormat::Database => None,
    }
}

/// The path of `name` below `dir`, where there is a `dir`.
pub open spec fn below(dir: Option<Seq<char>>, name: Seq<char>) -> Option<Seq<char>> {
    match dir {
        Some(d) => Some(joined(d, name)),
        None => None,
    }
}

/// What a place is: the path, or that the storage is not kept in files.
pub open spec fn place(r: Result<String, StorageError>) -> Option<Seq<char>> {
    match r {
        Ok(p) => Some(p@),
        Err(_) => None,
    }
}

/// The path of `name` below the place `dir`.
fn under(dir: Result<String, StorageError>, name: &str) -> (r: Result<String, StorageError>)
    ensures
        place(r) == below(place(dir), name@),
{
    match dir {
        Ok(d) => Ok(join(d.as_str(), name)),
        Err(e) => Err(e),
    }
}

/// Where the documents of the mod-loader distribution lie.
#[derive(Debug, Clone, PartialEq, Eq)]
pub struct ForgeDataStorage {
    storage_format: StorageFormat,
}

impl ForgeDataStorage {
    /// The storage format.
    pub closed spec fn format(&self) -> StorageFormat {
        self.storage_format
    }

    /// The directory of the mod-loader, in the model.
    pub open spec fn root(&self) -> Option<Seq<char>> {
        below(meta_directory_of(self.format()), "forge"@)
    }

    /// The places of the storage format `storage_format`.
    pub fn new(storage_format: StorageFormat) -> (r: Self)
        ensures
            r.format() == storage_format,
    {
        ForgeDataStorage { storage_format }
    }

    /// The directory of the mod-loader: `forge` below the directory of the
    /// metadata.
    pub fn meta_dir(&self) -> (r: Result<String, StorageError>)
        ensures
            place(r) == self.root(),
    {
        match &self.storage_format {
            StorageFormat::Json { meta_directory, generated_directory: _ } => Ok(
                join(meta_directory.as_str(), "forge"),
            ),
            StorageFormat::Database => Err(StorageError::WrongFormat),
        }
    }

    /// The directory of the file manifests.
    pub fn manifests_dir(&self) -> (r: Result<String, StorageError>)
        ensures
            place(r) == below(self.root(), "files_manifests"@),
    {
        self.document_dir(ForgeDocument::FilesManifest)
    }

    /// The directory of the installer profiles.
    pub fn installer_manifests_dir(&self) -> (r: Result<String, StorageError>)
        ensures
            place(r) == below(self.root(), "installer_manifests"@),
    {
        self.document_dir(ForgeDocument::InstallerManifest)
    }

    /// The directory of the embedded version documents.
    pub fn version_manifests_dir(&self) -> (r: Result<String, StorageError>)
        ensures
            place(r) == below(self.root(), "version_manifests"@),
    {
        self.document_dir(ForgeDocument::VersionManifest)
    }

    /// The directory of the hashes and sizes of the installers.
    pub fn installer_info_dir(&self) -> (r: Result<String, StorageError>)
        ensures
            place(r) == below(self.root(), "installer_info"@),
    {
        self.document_dir(ForgeDocument::InstallerInfo)
    }

    /// The directory of the archives.
    pub fn forge_jars_dir(&self) -> (r: Result<String, StorageError>)
        ensures
            place(r) == below(self.root(), "jars"@),
    {
        under(self.meta_dir(), "jars")
    }

    /// The directory of the documents of the kind `kind`.
    pub fn document_dir(&self, kind: ForgeDocument) -> (r: Result<String, StorageError>)
        ensures
            place(r) == below(self.root(), directory_of(kind)),
    {
        under(self.meta_dir(), forge_directory(kind))
    }

    /// The file of the document of the kind `kind` of the build `version_name`:
    /// `<version name>.json` in the directory of the kind.
    pub fn document_file(&self, kind: ForgeDocument, version_name: &str) -> (r: Result<
        String,
        StorageError,
    >)
        ensures
            place(r) == below(below(self.root(), directory_of(kind)), version_name@ + ".json"@),
    {
        under(self.document_dir(kind), concat(version_name, ".json").as_str())
    }

    /// The file of the archive `filename`.
    pub fn jar_file(&self, filename: &str) -> (r: Result<String, StorageError>)
        ensures
            place(r) == below(below(self.root(), "jars"@), filename@),
    {
        under(self.forge_jars_dir(), filename)
    }

    /// The file of the coordinate listing.
    pub fn maven_metadata_file(&self) -> (r: Result<String, StorageError>)
        ensures
            place(r) == below(self.root(), "maven-metadata.json"@),
    {
        under(self.meta_dir(), "maven-metadata.json")
    }

    /// The file of the promotions.
    pub fn promotions_file(&self) -> (r: Result<String, StorageError>)
        ensures
            place(r) == below(self.root(), "promotions_slim.json"@),
    {
        under(self.meta_dir(), "promotions_slim.json")
    }

    /// The file of the derived index.
    pub fn index_file(&self) -> (r: Result<String, StorageError>)
        ensures
            place(r) == below(self.root(), "derived_index.json"@),
    {
        under(self.meta_dir(), "derived_index.json")
    }

    /// The file of the record of the last run that worked from the derived
    /// index.
    pub fn index_entry_file(&self) -> (r: Result<String, StorageError>)
        ensures
            place(r) == below(self.root(), "derived_index.last_index.json"@),
    {
        under(self.meta_dir(), "derived_index.last_index.json")
    }
}

/// Where the documents of the game distribution lie.
#[derive(Debug, Clone, PartialEq, Eq)]
pub struct MojangDataStorage {
    storage_format: StorageFormat,
}

impl MojangDataStorage {
    /// The storage format.
    pub closed spec fn format(&self) -> StorageFormat {
        self.storage_format
    }

    /// The directory of the game distribution, in the model.
    pub open spec fn root(&self) -> Option<Seq<char>> {
        below(meta_directory_of(self.format()), "mojang"@)
    }

    /// The places of the storage format `storage_format`.
    pub fn new(storage_format: StorageFormat) -> (r: Self)
        ensures
            r.format() == storage_format,
    {
        MojangDataStorage { storage_format }
    }

    /// The directory of the game distribution: `mojang` below the directory
    /// of the metadata.
    pub fn meta_dir(&self) -> (r: Result<String, StorageError>)
        ensures
            place(r) == self.root(),
    {
        match &self.storage_format {
            StorageFormat::Json { meta_directory, generated_directory: _ } => Ok(
                join(meta_directory.as_str(), "mojang"),
            ),
            StorageFormat::Database => Err(StorageError::WrongFormat),
        }
    }

    /// The directory of the documents of the versions.
    pub fn versions_dir(&self) -> (r: Result<String, StorageError>)
        ensures
            place(r) == below(self.root(), "versions"@),
    {
        under(self.meta_dir(), "versions")
    }

    /// The file of the manifest.
    pub fn manifest_file(&self) -> (r: Result<String, StorageError>)
        ensures
            place(r) == below(self.root(), "version_manifest_v2.json"@),
    {
        under(self.meta_dir(), "version_manifest_v2.json")
    }

    /// The file of the document of the version `id`.
    pub fn version_file(&self, id: &str) -> (r: Result<String, StorageError>)
        ensures
            place(r) == below(below(self.root(), "versions"@), id@ + ".json"@),
    {
        under(self.versions_dir(), concat(id, ".json").as_str())
    }
}

/// What a cycle works with: where the documents lie, and how it fetches.
#[derive(Debug, Clone, PartialEq, Eq)]
pub struct UpstreamMetadataUpdater {
    storage_format: StorageFormat,
    metadata_cfg: MetadataConfig,
}

impl UpstreamMetadataUpdater {
    /// The storage format.
    pub closed spec fn format(&self) -> StorageFormat {
        self.storage_format
    }

    /// The configuration of the synchronisation.
    pub closed spec fn config(&self) -> MetadataConfig {
        self.metadata_cfg
    }

    /// The updater for a storage format and a configuration.
    pub fn new(storage_format: StorageFormat, metadata_cfg: MetadataConfig) -> (r: Self)
        ensures
            r.format() == storage_format,
            r.config() == metadata_cfg,
    {
        UpstreamMetadataUpdater { storage_format, metadata_cfg }
    }

    /// A copy of the storage format.
    fn format_copy(&self) -> (r: StorageFormat)
        ensures
            r == self.format(),
    {
        match &self.storage_format {
            StorageFormat::Json { meta_directory, generated_directory } => StorageFormat::Json {
                meta_directory: meta_directory.clone(),
                generated_directory: generated_directory.clone(),
            },
            StorageFormat::Database => StorageFormat::Database,
        }
    }

    /// Where the documents of the mod-loader distribution lie.
    pub fn forge_storage(&self) -> (r: ForgeDataStorage)
        ensures
            r.format() == self.format(),
    {
        ForgeDataStorage::new(self.format_copy())
    }

    /// Where the documents of the game distribution lie.
    pub fn mojang_storage(&self) -> (r: MojangDataStorage)
        ensures
            r.format() == self.format(),
    {
        MojangDataStorage::new(self.format_copy())
    }

    /// How many fetches may run at once.
    pub fn max_parallel_fetch_connections(&self) -> (r: usize)
        ensures
            r == self.config().max_parallel_fetch_connections,
    {
        self.metadata_cfg.max_parallel_fetch_connections
    }

    /// The directory of the metadata, where it is kept in files.
    pub fn meta_directory(&self) -> (r: Result<String, StorageError>)
        ensures
            place(r) == meta_directory_of(self.format()),
    {
        match &self.storage_format {
            StorageFormat::Json { meta_directory, generated_directory: _ } => Ok(
                meta_directory.clone(),
            ),
            StorageFormat::Database => Err(StorageError::WrongFormat),
        }
    }

    /// The file `name` of the distribution `source` among the documents that
    /// are kept by hand.
    pub fn static_file(&self, source: &str, name: &str) -> (r: String)
        ensures
            r@ == joined(joined(self.config().static_directory@, source@), name@),
    {
        join(join(self.metadata_cfg.static_directory.as_str(), source).as_str(), name)
    }

    /// The file of the legacy information of the mod-loader.
    pub fn legacy_info_file(&self) -> (r: String)
        ensures
            r@ == joined(
                joined(self.config().static_directory@, "forge"@),
                "forge-legacyinfo.json"@,
            ),
    {
        self.static_file("forge", "forge-legacyinfo.json")
    }

    /// The file of the list of experiments.
    pub fn experiments_file(&self) -> (r: String)
        ensures
            r@ == joined(
                joined(self.config().static_directory@, "mojang"@),
                "minecraft-experiments.json"@,
            ),
    {
        self.static_file("mojang", "minecraft-experiments.json")
    }

    /// The file of the list of old snapshots.
    pub fn old_snapshots_file(&self) -> (r: String)
        ensures
            r@ == joined(
                joined(self.config().static_directory@, "mojang"@),
                "minecraft-old-snapshots.json"@,
            ),
    {
        self.static_file("mojang", "minecraft-old-snapshots.json")
    }
}

} // verus!
