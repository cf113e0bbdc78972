//! The kinds of documents that are kept for each build of the mod-loader, and
//! the directories they are kept in.

use vstd::prelude::*;

verus! {

/// The kinds of documents that are kept for each build of the mod-loader.
#[derive(Debug, Clone, Copy, PartialEq, Eq, Structural)]
pub enum ForgeDocument {
    /// The file manifest of a build.
    FilesManifest,
    /// The installer profile of a build.
    InstallerManifest,
    /// The version document that the installer of a build embeds.
    VersionManifest,
    /// The hashes and the size of the installer of a build.
    InstallerInfo,
}

/// The directory of a kind of document, below the directory of the
/// mod-loader.
pub open spec fn directory_of(kind: ForgeDocument) -> Seq<char> {
    match kind {
        ForgeDocument::FilesManifest => "files_manifests"@,
        ForgeDocument::InstallerManifest => "installer_manifests"@,
        ForgeDocument::VersionManifest => "version_manifests"@,
        ForgeDocument::InstallerInfo => "installer_info"@,
    }
}

/// The directory of a kind of document.
pub fn forge_directory(kind: ForgeDocument) -> (r: &'static str)
    ensures
        r@ == directory_of(kind),
{
    match kind {
        ForgeDocument::FilesManifest => "files_manifests",
        ForgeDocument::InstallerManifest => "installer_manifests",
        ForgeDocument::VersionManifest => "version_manifests",
        ForgeDocument::InstallerInfo => "installer_info",
    }
}

} // verus!
