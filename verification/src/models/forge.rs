//! The descriptors of the mod-loader distribution.

use vstd::prelude::*;
use crate::decimal::{i32_to_string, int_text, parse_i32, parse_i32_spec};
use crate::duplicate::Duplicate;
use crate::models::merge::hashmap::keys_recursed;
use crate::models::merge::option::{filled, replaced};
use crate::models::merge::option_hashmap::{some_overwritten, some_recursed};
use crate::models::merge::option_vec::appended;
use crate::models::merge::{hashmap, option, option_hashmap, option_vec, overwrite, overwritten, Merge};
use crate::models::{GradleSpecifier, GradleSpecifierView, MojangLibrary, MojangLibraryView, Timestamp};
use crate::strmap::StrMap;
use crate::text::{chars_of, concat, split, split_spec, str_eq, string_of};

verus! {

/// The coordinate listing: the builds that upstream has published.
#[derive(Debug, Clone, PartialEq, Eq)]
pub struct ForgeMavenMetadata {
    /// The long versions of the builds of each game version.
    pub versions: StrMap<Vec<String>>,
}

/// What a `ForgeMavenMetadata` holds, as plain values.
pub struct ForgeMavenMetadataView {
    pub versions: Map<Seq<char>, Seq<Seq<char>>>,
}

impl DeepView for ForgeMavenMetadata {
    type V = ForgeMavenMetadataView;

    open spec fn deep_view(&self) -> ForgeMavenMetadataView {
        ForgeMavenMetadataView {
            versions: self.versions.deep_view(),
        }
    }
}

impl View for ForgeMavenMetadata {
    type V = ForgeMavenMetadataView;

    open spec fn view(&self) -> ForgeMavenMetadataView {
        self.deep_view()
    }
}

impl Duplicate for ForgeMavenMetadata {
    fn duplicate(&self) -> (r: Self) {
        ForgeMavenMetadata {
            versions: self.versions.duplicate(),
        }
    }
}

/// The promotions: which short version upstream calls latest or recommended.
#[derive(Debug, Clone, PartialEq, Eq)]
pub struct ForgeMavenPromotions {
    pub homepage: String,
    /// The promoted short version under each promotion key.
    pub promos: StrMap<String>,
}

/// What a `ForgeMavenPromotions` holds, as plain values.
pub struct ForgeMavenPromotionsView {
    pub homepage: Seq<char>,
    pub promos: Map<Seq<char>, Seq<char>>,
}

impl DeepView for ForgeMavenPromotions {
    type V = ForgeMavenPromotionsView;

    open spec fn deep_view(&self) -> ForgeMavenPromotionsView {
        ForgeMavenPromotionsView {
            homepage: self.homepage.deep_view(),
            promos: self.promos.deep_view(),
        }
    }
}

impl View for ForgeMavenPromotions {
    type V = ForgeMavenPromotionsView;

    open spec fn view(&self) -> ForgeMavenPromotionsView {
        self.deep_view()
    }
}

impl Duplicate for ForgeMavenPromotions {
    fn duplicate(&self) -> (r: Self) {
        ForgeMavenPromotions {
            homepage: self.homepage.duplicate(),
            promos: self.promos.duplicate(),
        }
    }
}

/// The hashes of the files of one classifier, by extension.
#[derive(Debug, Clone, PartialEq, Eq)]
pub struct ForgeVersionClassifier {
    pub txt: Option<String>,
    pub zip: Option<String>,
    pub jar: Option<String>,
    pub stash: Option<String>,
}

/// What a `ForgeVersionClassifier` holds, as plain values.
pub struct ForgeVersionClassifierView {
    pub txt: Option<Seq<char>>,
    pub zip: Option<Seq<char>>,
    pub jar: Option<Seq<char>>,
    pub stash: Option<Seq<char>>,
}

impl DeepView for ForgeVersionClassifier {
    type V = ForgeVersionClassifierView;

    open spec fn deep_view(&self) -> ForgeVersionClassifierView {
        ForgeVersionClassifierView {
            txt: self.txt.deep_view(),
            zip: self.zip.deep_view(),
            jar: self.jar.deep_view(),
            stash: self.stash.deep_view(),
        }
    }
}

impl View for ForgeVersionClassifier {
    type V = ForgeVersionClassifierView;

    open spec fn view(&self) -> ForgeVersionClassifierView {
        self.deep_view()
    }
}

impl Duplicate for ForgeVersionClassifier {
    fn duplicate(&self) -> (r: Self) {
        ForgeVersionClassifier {
            txt: self.txt.duplicate(),
            zip: self.zip.duplicate(),
            jar: self.jar.duplicate(),
            stash: self.stash.duplicate(),
        }
    }
}

/// The files of a build, by classifier.
#[derive(Debug, Clone, PartialEq, Eq)]
pub struct ForgeVersionClassifiers {
    pub changelog: Option<ForgeVersionClassifier>,
    pub installer: Option<ForgeVersionClassifier>,
    pub mdk: Option<ForgeVersionClassifier>,
    pub universal: Option<ForgeVersionClassifier>,
    pub userdev: Option<ForgeVersionClassifier>,
    pub sources: Option<ForgeVersionClassifier>,
    pub javadoc: Option<ForgeVersionClassifier>,
    pub client: Option<ForgeVersionClassifier>,
    pub src: Option<ForgeVersionClassifier>,
    pub server: Option<ForgeVersionClassifier>,
    pub launcher: Option<ForgeVersionClassifier>,
    pub userdev3: Option<ForgeVersionClassifier>,
    pub src_zip: Option<ForgeVersionClassifier>,
}

/// What a `ForgeVersionClassifiers` holds, as plain values.
pub struct ForgeVersionClassifiersView {
    pub changelog: Option<ForgeVersionClassifierView>,
    pub installer: Option<ForgeVersionClassifierView>,
    pub mdk: Option<ForgeVersionClassifierView>,
    pub universal: Option<ForgeVersionClassifierView>,
    pub userdev: Option<ForgeVersionClassifierView>,
    pub sources: Option<ForgeVersionClassifierView>,
    pub javadoc: Option<ForgeVersionClassifierView>,
    pub client: Option<ForgeVersionClassifierView>,
    pub src: Option<ForgeVersionClassifierView>,
    pub server: Option<ForgeVersionClassifierView>,
    pub launcher: Option<ForgeVersionClassifierView>,
    pub userdev3: Option<ForgeVersionClassifierView>,
    pub src_zip: Option<ForgeVersionClassifierView>,
}

impl DeepView for ForgeVersionClassifiers {
    type V = ForgeVersionClassifiersView;

    open spec fn deep_view(&self) -> ForgeVersionClassifiersView {
        ForgeVersionClassifiersView {
            changelog: self.changelog.deep_view(),
            installer: self.installer.deep_view(),
            mdk: self.mdk.deep_view(),
            universal: self.universal.deep_view(),
            userdev: self.userdev.deep_view(),
            sources: self.sources.deep_view(),
            javadoc: self.javadoc.deep_view(),
            client: self.client.deep_view(),
            src: self.src.deep_view(),
            server: self.server.deep_view(),
            launcher: self.launcher.deep_view(),
            userdev3: self.userdev3.deep_view(),
            src_zip: self.src_zip.deep_view(),
        }
    }
}

impl View for ForgeVersionClassifiers {
    type V = ForgeVersionClassifiersView;

    open spec fn view(&self) -> ForgeVersionClassifiersView {
        self.deep_view()
    }
}

impl Duplicate for ForgeVersionClassifiers {
    fn duplicate(&self) -> (r: Self) {
        ForgeVersionClassifiers {
            changelog: self.changelog.duplicate(),
            installer: self.installer.duplicate(),
            mdk: self.mdk.duplicate(),
            universal: self.universal.duplicate(),
            userdev: self.userdev.duplicate(),
            sources: self.sources.duplicate(),
            javadoc: self.javadoc.duplicate(),
            client: self.client.duplicate(),
            src: self.src.duplicate(),
            server: self.server.duplicate(),
            launcher: self.launcher.duplicate(),
            userdev3: self.userdev3.duplicate(),
            src_zip: self.src_zip.duplicate(),
        }
    }
}

/// The file manifest of one build.
#[derive(Debug, Clone, PartialEq, Eq)]
pub struct ForgeVersionMeta {
    pub classifiers: ForgeVersionClassifiers,
}

/// What a `ForgeVersionMeta` holds, as plain values.
pub struct ForgeVersionMetaView {
    pub classifiers: ForgeVersionClassifiersView,
}

impl DeepView for ForgeVersionMeta {
    type V = ForgeVersionMetaView;

    open spec fn deep_view(&self) -> ForgeVersionMetaView {
        ForgeVersionMetaView {
            classifiers: self.classifiers.deep_view(),
        }
    }
}

impl View for ForgeVersionMeta {
    type V = ForgeVersionMetaView;

    open spec fn view(&self) -> ForgeVersionMetaView {
        self.deep_view()
    }
}

impl Duplicate for ForgeVersionMeta {
    fn duplicate(&self) -> (r: Self) {
        ForgeVersionMeta {
            classifiers: self.classifiers.duplicate(),
        }
    }
}

/// The arguments of a version.
#[derive(Debug, Clone, PartialEq, Eq)]
pub struct ForgeVersionArguments {
    pub game: Vec<String>,
    pub jvm: Option<Vec<String>>,
}

/// The artifact of a library of a version.
#[derive(Debug, Clone, PartialEq, Eq)]
pub struct ForgeVersionLibraryArtifact {
    pub path: String,
    pub url: String,
    pub sha1: String,
    pub size: u64,
}

/// The downloads of a library of a version.
#[derive(Debug, Clone, PartialEq, Eq)]
pub struct ForgeVersionLibraryDownloads {
    pub artifact: ForgeVersionLibraryArtifact,
}

/// A library of a version.
#[derive(Debug, Clone, PartialEq, Eq)]
pub struct ForgeVersionLibrary {
    pub name: String,
    pub downloads: ForgeVersionLibraryDownloads,
}

/// The logging configuration file.
#[derive(Debug, Clone, PartialEq, Eq)]
pub struct ForgeVersionLoggingFile {
    pub id: String,
    pub sha1: String,
    pub size: u64,
    pub url: String,
}

/// The logging of the client.
#[derive(Debug, Clone, PartialEq, Eq)]
pub struct ForgeVersionLoggingClient {
    pub argument: String,
    pub file: ForgeVersionLoggingFile,
    pub client_type: String,
}

/// The logging of a version.
#[derive(Debug, Clone, PartialEq, Eq)]
pub struct ForgeVersionLogging {
    pub client: Option<ForgeVersionLoggingClient>,
}

/// The version document that an installer embeds.
#[derive(Debug, Clone, PartialEq, Eq)]
pub struct ForgeVersion {
    pub comment: Option<Vec<String>>,
    pub id: String,
    pub time: String,
    pub release_time: String,
    pub release_type: String,
    pub main_class: String,
    pub inherits_from: String,
    pub logging: ForgeVersionLogging,
    pub arguments: Option<ForgeVersionArguments>,
    pub libraries: Vec<ForgeVersionLibrary>,
    pub minecraft_arguments: Option<String>,
}

/// One datum of the installer, for the client and for the server.
#[derive(Debug, Clone, PartialEq, Eq)]
pub struct ForgeInstallerDataInfo {
    pub client: String,
    pub server: String,
}

/// The data of the installer.
#[derive(Debug, Clone, PartialEq, Eq)]
pub struct ForgeInstallerData {
    pub mappings: Option<ForgeInstallerDataInfo>,
    pub mojmaps: Option<ForgeInstallerDataInfo>,
    pub merged_mappings: Option<ForgeInstallerDataInfo>,
    pub binpatch: Option<ForgeInstallerDataInfo>,
    pub mc_unpacked: Option<ForgeInstallerDataInfo>,
    pub mc_slim: Option<ForgeInstallerDataInfo>,
    pub mc_slim_sha: Option<ForgeInstallerDataInfo>,
    pub mc_extra: Option<ForgeInstallerDataInfo>,
    pub mc_extra_sha: Option<ForgeInstallerDataInfo>,
    pub mc_srg: Option<ForgeInstallerDataInfo>,
    pub patched: Option<ForgeInstallerDataInfo>,
    pub patched_sha: Option<ForgeInstallerDataInfo>,
    pub mcp_version: Option<ForgeInstallerDataInfo>,
    pub mc_data: Option<ForgeInstallerDataInfo>,
    pub mc_data_sha: Option<ForgeInstallerDataInfo>,
}

/// One processing step of the installer.
#[derive(Debug, Clone, PartialEq, Eq)]
pub struct ForgeInstallerProcessor {
    pub sides: Option<Vec<String>>,
    pub jar: String,
    pub classpath: Vec<String>,
    pub args: Vec<String>,
    pub outputs: Option<StrMap<String>>,
}

/// The logging section of an old installer, which holds nothing.
#[derive(Debug, Clone, PartialEq, Eq)]
pub struct ForgeLegacyLogging {}

/// The install section of an old installer.
#[derive(Debug, Clone, PartialEq, Eq)]
pub struct ForgeLegacyInstall {
    pub profile_name: String,
    pub target: String,
    pub path: String,
    pub version: String,
    pub file_path: String,
    pub welcome: String,
    pub minecraft: String,
    pub mirror_list: String,
    pub logo: String,
    pub mod_list: Option<String>,
}

/// The natives of a library of an old installer.
#[derive(Debug, Clone, PartialEq, Eq)]
pub struct ForgeLegacyLibraryNatives {
    pub linux: Option<String>,
    pub osx: Option<String>,
    pub windows: Option<String>,
}

/// What to leave out when a library of an old installer is unpacked.
#[derive(Debug, Clone, PartialEq, Eq)]
pub struct ForgeLegacyLibraryExtract {
    pub exclude: Vec<String>,
}

/// The operating system that a rule speaks of.
#[derive(Debug, Clone, PartialEq, Eq)]
pub struct ManifestRuleOS {
    pub name: Option<String>,
    pub version: Option<String>,
    pub arch: Option<String>,
}

/// One rule of a library of an old installer.
#[derive(Debug, Clone, PartialEq, Eq)]
pub struct ManifestRule {
    pub action: String,
    pub os: Option<ManifestRuleOS>,
}

/// A library of an old installer.
#[derive(Debug, Clone, PartialEq, Eq)]
pub struct ForgeLegacyLibrary {
    pub name: String,
    pub url: Option<String>,
    pub serverreq: Option<bool>,
    pub clientreq: Option<bool>,
    pub checksums: Option<Vec<String>>,
    pub natives: Option<ForgeLegacyLibraryNatives>,
    pub extract: Option<ForgeLegacyLibraryExtract>,
    pub rules: Option<Vec<ManifestRule>>,
    pub comment: Option<String>,
}

/// The version section of an old installer.
#[derive(Debug, Clone, PartialEq, Eq)]
pub struct ForgeLegacyVersionInfo {
    pub comment: Option<Vec<String>>,
    pub id: String,
    pub time: String,
    pub release_time: String,
    pub release_type: String,
    pub minecraft_arguments: String,
    pub minimum_launcher_version: Option<u64>,
    pub assets: Option<String>,
    pub main_class: String,
    pub libraries: Vec<ForgeLegacyLibrary>,
    pub inherits_from: Option<String>,
    pub process_arguments: Option<String>,
    pub jar: Option<String>,
    pub logging: Option<ForgeLegacyLogging>,
}

/// An optional mod of an old installer.
#[derive(Debug, Clone, PartialEq, Eq)]
pub struct ForgeLegacyOptional {
    pub name: String,
    pub client: bool,
    pub server: bool,
    pub default: bool,
    pub inject: bool,
    pub desc: String,
    pub url: String,
    pub artifact: String,
    pub maven: String,
}

/// The manifest of an old installer.
#[derive(Debug, Clone, PartialEq, Eq)]
pub struct ForgeLegacyInstallerManifest {
    pub comment: Option<Vec<String>>,
    pub install: ForgeLegacyInstall,
    pub version_info: ForgeLegacyVersionInfo,
    pub optionals: Option<Vec<ForgeLegacyOptional>>,
}

/// The manifest of a current installer.
#[derive(Debug, Clone, PartialEq, Eq)]
pub struct ForgeInstallerManifest {
    pub comment: Option<Vec<String>>,
    pub spec: u64,
    pub profile: String,
    pub version: String,
    pub path: Option<String>,
    pub minecraft: String,
    pub server_jar_path: Option<String>,
    pub icon: Option<String>,
    pub json: String,
    pub logo: String,
    pub mirror_list: Option<String>,
    pub welcome: String,
    pub data: ForgeInstallerData,
    pub processors: Vec<ForgeInstallerProcessor>,
    pub libraries: Vec<ForgeVersionLibrary>,
}

/// The extensions under which a classifier can have a file.
#[derive(Debug, Clone, Copy, PartialEq, Eq, Structural)]
pub enum ForgeVersionClassifierExtensions {
    Txt,
    Zip,
    Jar,
    Stash,
}

/// The name of an extension.
pub open spec fn extension_name(e: ForgeVersionClassifierExtensions) -> Seq<char> {
    match e {
        ForgeVersionClassifierExtensions::Txt => "txt"@,
        ForgeVersionClassifierExtensions::Zip => "zip"@,
        ForgeVersionClassifierExtensions::Jar => "jar"@,
        ForgeVersionClassifierExtensions::Stash => "stash"@,
    }
}

impl ForgeVersionClassifierExtensions {
    /// The name of the extension.
    pub fn as_str(&self) -> (r: &'static str)
        ensures
            r@ == extension_name(*self),
    {
        match self {
            ForgeVersionClassifierExtensions::Txt => "txt",
            ForgeVersionClassifierExtensions::Zip => "zip",
            ForgeVersionClassifierExtensions::Jar => "jar",
            ForgeVersionClassifierExtensions::Stash => "stash",
        }
    }
}

/// The extension at place `i` of a walk over a classifier.
pub open spec fn extension_at(i: int) -> ForgeVersionClassifierExtensions {
    if i == 0 {
        ForgeVersionClassifierExtensions::Txt
    } else if i == 1 {
        ForgeVersionClassifierExtensions::Zip
    } else if i == 2 {
        ForgeVersionClassifierExtensions::Jar
    } else {
        ForgeVersionClassifierExtensions::Stash
    }
}

/// The hash that a classifier has under an extension.
pub open spec fn hash_under(
    c: ForgeVersionClassifier,
    e: ForgeVersionClassifierExtensions,
) -> Option<String> {
    match e {
        ForgeVersionClassifierExtensions::Txt => c.txt,
        ForgeVersionClassifierExtensions::Zip => c.zip,
        ForgeVersionClassifierExtensions::Jar => c.jar,
        ForgeVersionClassifierExtensions::Stash => c.stash,
    }
}

/// A walk over the extensions of a classifier, in the order txt, zip, jar,
/// stash.
pub struct ForgeVersionClassifierIter<'a> {
    classifier: &'a ForgeVersionClassifier,
    index: usize,
}

impl ForgeVersionClassifier {
    /// A walk over the four extensions, from the first.
    pub fn iter(&self) -> (r: ForgeVersionClassifierIter<'_>)
        ensures
            r.position() == 0,
            r.source() == *self,
    {
        ForgeVersionClassifierIter { classifier: self, index: 0 }
    }
}

impl<'a> ForgeVersionClassifierIter<'a> {
    /// How many extensions the walk has handed out.
    pub closed spec fn position(&self) -> int {
        self.index as int
    }

    /// The classifier that is walked.
    pub closed spec fn source(&self) -> ForgeVersionClassifier {
        *self.classifier
    }

    /// The next extension with the hash under it, or `None` after the fourth.
    pub fn next(&mut self) -> (r: Option<(ForgeVersionClassifierExtensions, &'a Option<String>)>)
        ensures
            final(self).source() == old(self).source(),
            0 <= old(self).position() < 4 ==> final(self).position() == old(self).position() + 1 && (
            r matches Some(item) && item.0 == extension_at(old(self).position()) && *item.1
                == hash_under(old(self).source(), item.0)),
            !(0 <= old(self).position() < 4) ==> r is None && final(self).position() == old(
                self,
            ).position(),
    {
        let result = if self.index == 0 {
            (ForgeVersionClassifierExtensions::Txt, &self.classifier.txt)
        } else if self.index == 1 {
            (ForgeVersionClassifierExtensions::Zip, &self.classifier.zip)
        } else if self.index == 2 {
            (ForgeVersionClassifierExtensions::Jar, &self.classifier.jar)
        } else if self.index == 3 {
            (ForgeVersionClassifierExtensions::Stash, &self.classifier.stash)
        } else {
            return None;
        };
        self.index += 1;
        Some(result)
    }
}

/// The classifiers under which a build can have files.
#[derive(Debug, Clone, Copy, PartialEq, Eq, Structural)]
pub enum ForgeVersionClassifierNames {
    Changelog,
    Installer,
    Mdk,
    Universal,
    Userdev,
    Sources,
    Javadoc,
    Client,
    Src,
    Server,
    Launcher,
    Userdev3,
    SrcZip,
}

/// The name of a classifier.
pub open spec fn classifier_name(n: ForgeVersionClassifierNames) -> Seq<char> {
    match n {
        ForgeVersionClassifierNames::Changelog => "changelog"@,
        ForgeVersionClassifierNames::Installer => "installer"@,
        ForgeVersionClassifierNames::Mdk => "mdk"@,
        ForgeVersionClassifierNames::Universal => "universal"@,
        ForgeVersionClassifierNames::Userdev => "userdev"@,
        ForgeVersionClassifierNames::Sources => "sources"@,
        ForgeVersionClassifierNames::Javadoc => "javadoc"@,
        ForgeVersionClassifierNames::Client => "client"@,
        ForgeVersionClassifierNames::Src => "src"@,
        ForgeVersionClassifierNames::Server => "server"@,
        ForgeVersionClassifierNames::Launcher => "launcher"@,
        ForgeVersionClassifierNames::Userdev3 => "userdev3"@,
        ForgeVersionClassifierNames::SrcZip => "src.zip"@,
    }
}

impl ForgeVersionClassifierNames {
    /// The name of the classifier.
    pub fn as_str(&self) -> (r: &'static str)
        ensures
            r@ == classifier_name(*self),
    {
        match self {
            ForgeVersionClassifierNames::Changelog => "changelog",
            ForgeVersionClassifierNames::Installer => "installer",
            ForgeVersionClassifierNames::Mdk => "mdk",
            ForgeVersionClassifierNames::Universal => "universal",
            ForgeVersionClassifierNames::Userdev => "userdev",
            ForgeVersionClassifierNames::Sources => "sources",
            ForgeVersionClassifierNames::Javadoc => "javadoc",
            ForgeVersionClassifierNames::Client => "client",
            ForgeVersionClassifierNames::Src => "src",
            ForgeVersionClassifierNames::Server => "server",
            ForgeVersionClassifierNames::Launcher => "launcher",
            ForgeVersionClassifierNames::Userdev3 => "userdev3",
            ForgeVersionClassifierNames::SrcZip => "src.zip",
        }
    }
}

/// The classifier at place `i` of a walk over the classifiers of a build.
pub open spec fn classifier_at(i: int) -> ForgeVersionClassifierNames {
    if i == 0 {
        ForgeVersionClassifierNames::Changelog
    } else if i == 1 {
        ForgeVersionClassifierNames::Installer
    } else if i == 2 {
        ForgeVersionClassifierNames::Mdk
    } else if i == 3 {
        ForgeVersionClassifierNames::Universal
    } else if i == 4 {
        ForgeVersionClassifierNames::Userdev
    } else if i == 5 {
        ForgeVersionClassifierNames::Sources
    } else if i == 6 {
        ForgeVersionClassifierNames::Javadoc
    } else if i == 7 {
        ForgeVersionClassifierNames::Client
    } else if i == 8 {
        ForgeVersionClassifierNames::Src
    } else if i == 9 {
        ForgeVersionClassifierNames::Server
    } else if i == 10 {
        ForgeVersionClassifierNames::Launcher
    } else if i == 11 {
        ForgeVersionClassifierNames::Userdev3
    } else {
        ForgeVersionClassifierNames::SrcZip
    }
}

/// The files that a build has under a classifier.
pub open spec fn files_under(
    c: ForgeVersionClassifiers,
    n: ForgeVersionClassifierNames,
) -> Option<ForgeVersionClassifier> {
    match n {
        ForgeVersionClassifierNames::Changelog => c.changelog,
        ForgeVersionClassifierNames::Installer => c.installer,
        ForgeVersionClassifierNames::Mdk => c.mdk,
        ForgeVersionClassifierNames::Universal => c.universal,
        ForgeVersionClassifierNames::Userdev => c.userdev,
        ForgeVersionClassifierNames::Sources => c.sources,
        ForgeVersionClassifierNames::Javadoc => c.javadoc,
        ForgeVersionClassifierNames::Client => c.client,
        ForgeVersionClassifierNames::Src => c.src,
        ForgeVersionClassifierNames::Server => c.server,
        ForgeVersionClassifierNames::Launcher => c.launcher,
        ForgeVersionClassifierNames::Userdev3 => c.userdev3,
        ForgeVersionClassifierNames::SrcZip => c.src_zip,
    }
}

/// A walk over the classifiers of a build, in the order of
/// `ForgeVersionClassifierNames`.
pub struct ForgeVersionClassifiersIter<'a> {
    classifiers: &'a ForgeVersionClassifiers,
    index: usize,
}

impl ForgeVersionClassifiers {
    /// A walk over the thirteen classifiers, from the first.
    pub fn iter(&self) -> (r: ForgeVersionClassifiersIter<'_>)
        ensures
            r.position() == 0,
            r.source() == *self,
    {
        ForgeVersionClassifiersIter { classifiers: self, index: 0 }
    }
}

impl<'a> ForgeVersionClassifiersIter<'a> {
    /// How many classifiers the walk has handed out.
    pub closed spec fn position(&self) -> int {
        self.index as int
    }

    /// The classifiers that are walked.
    pub closed spec fn source(&self) -> ForgeVersionClassifiers {
        *self.classifiers
    }

    /// The next classifier with the files under it, or `None` after the
    /// thirteenth.
    pub fn next(&mut self) -> (r: Option<
        (ForgeVersionClassifierNames, &'a Option<ForgeVersionClassifier>),
    >)
        ensures
            final(self).source() == old(self).source(),
            0 <= old(self).position() < 13 ==> final(self).position() == old(self).position() + 1
                && (r matches Some(item) && item.0 == classifier_at(old(self).position()) && *item.1
                == files_under(old(self).source(), item.0)),
            !(0 <= old(self).position() < 13) ==> r is None && final(self).position() == old(
                self,
            ).position(),
    {
        let c = self.classifiers;
        let result = if self.index == 0 {
            (ForgeVersionClassifierNames::Changelog, &c.changelog)
        } else if self.index == 1 {
            (ForgeVersionClassifierNames::Installer, &c.installer)
        } else if self.index == 2 {
            (ForgeVersionClassifierNames::Mdk, &c.mdk)
        } else if self.index == 3 {
            (ForgeVersionClassifierNames::Universal, &c.universal)
        } else if self.index == 4 {
            (ForgeVersionClassifierNames::Userdev, &c.userdev)
        } else if self.index == 5 {
            (ForgeVersionClassifierNames::Sources, &c.sources)
        } else if self.index == 6 {
            (ForgeVersionClassifierNames::Javadoc, &c.javadoc)
        } else if self.index == 7 {
            (ForgeVersionClassifierNames::Client, &c.client)
        } else if self.index == 8 {
            (ForgeVersionClassifierNames::Src, &c.src)
        } else if self.index == 9 {
            (ForgeVersionClassifierNames::Server, &c.server)
        } else if self.index == 10 {
            (ForgeVersionClassifierNames::Launcher, &c.launcher)
        } else if self.index == 11 {
            (ForgeVersionClassifierNames::Userdev3, &c.userdev3)
        } else if self.index == 12 {
            (ForgeVersionClassifierNames::SrcZip, &c.src_zip)
        } else {
            return None;
        };
        self.index += 1;
        Some(result)
    }
}

/// The manifest of an installer, of the old or of the current shape.
#[derive(Debug, Clone, PartialEq, Eq)]
pub enum ForgeInstallerManifestVersion {
    Legacy(Box<ForgeLegacyInstallerManifest>),
    Modern(Box<ForgeInstallerManifest>),
}

/// An installer profile, of the first or of the second kind.
#[derive(Debug, Clone, PartialEq, Eq)]
pub enum ForgeInstallerProfile {
    V1(Box<ForgeInstallerProfileV1>),
    V2(Box<ForgeInstallerProfileV2>),
}

/// One published file of a build.
#[derive(Debug, Clone, PartialEq, Eq)]
pub struct ForgeFile {
    pub classifier: String,
    pub hash: String,
    pub extension: String,
}

/// What a `ForgeFile` holds, as plain values.
pub struct ForgeFileView {
    pub classifier: Seq<char>,
    pub hash: Seq<char>,
    pub extension: Seq<char>,
}

impl DeepView for ForgeFile {
    type V = ForgeFileView;

    open spec fn deep_view(&self) -> ForgeFileView {
        ForgeFileView {
            classifier: self.classifier.deep_view(),
            hash: self.hash.deep_view(),
            extension: self.extension.deep_view(),
        }
    }
}

impl View for ForgeFile {
    type V = ForgeFileView;

    open spec fn view(&self) -> ForgeFileView {
        self.deep_view()
    }
}

impl Merge for ForgeFile {
    open spec fn merged(base: ForgeFileView, overlay: ForgeFileView) -> ForgeFileView {
        ForgeFileView {
            classifier: overwritten(base.classifier, overlay.classifier),
            hash: overwritten(base.hash, overlay.hash),
            extension: overwritten(base.extension, overlay.extension),
        }
    }

    fn merge(&mut self, other: Self) {
        overwrite(&mut self.classifier, other.classifier);
        overwrite(&mut self.hash, other.hash);
        overwrite(&mut self.extension, other.extension);
    }
}

impl Duplicate for ForgeFile {
    fn duplicate(&self) -> (r: Self) {
        ForgeFile {
            classifier: self.classifier.duplicate(),
            hash: self.hash.duplicate(),
            extension: self.extension.duplicate(),
        }
    }
}

/// One released build.
#[derive(Debug, Clone, PartialEq, Eq, Default)]
pub struct ForgeEntry {
    pub long_version: String,
    pub mc_version: String,
    pub version: String,
    pub build: i32,
    pub branch: Option<String>,
    pub latest: Option<bool>,
    pub recommended: Option<bool>,
    pub files: Option<StrMap<ForgeFile>>,
}

/// What a `ForgeEntry` holds, as plain values.
pub struct ForgeEntryView {
    pub long_version: Seq<char>,
    pub mc_version: Seq<char>,
    pub version: Seq<char>,
    pub build: i32,
    pub branch: Option<Seq<char>>,
    pub latest: Option<bool>,
    pub recommended: Option<bool>,
    pub files: Option<Map<Seq<char>, ForgeFileView>>,
}

impl DeepView for ForgeEntry {
    type V = ForgeEntryView;

    open spec fn deep_view(&self) -> ForgeEntryView {
        ForgeEntryView {
            long_version: self.long_version.deep_view(),
            mc_version: self.mc_version.deep_view(),
            version: self.version.deep_view(),
            build: self.build.deep_view(),
            branch: self.branch.deep_view(),
            latest: self.latest.deep_view(),
            recommended: self.recommended.deep_view(),
            files: self.files.deep_view(),
        }
    }
}

impl View for ForgeEntry {
    type V = ForgeEntryView;

    open spec fn view(&self) -> ForgeEntryView {
        self.deep_view()
    }
}

impl Merge for ForgeEntry {
    open spec fn merged(base: ForgeEntryView, overlay: ForgeEntryView) -> ForgeEntryView {
        ForgeEntryView {
            long_version: overwritten(base.long_version, overlay.long_version),
            mc_version: overwritten(base.mc_version, overlay.mc_version),
            version: overwritten(base.version, overlay.version),
            build: overwritten(base.build, overlay.build),
            branch: replaced(base.branch, overlay.branch),
            latest: replaced(base.latest, overlay.latest),
            recommended: replaced(base.recommended, overlay.recommended),
            files: some_recursed::<ForgeFile>(base.files, overlay.files),
        }
    }

    fn merge(&mut self, other: Self) {
        overwrite(&mut self.long_version, other.long_version);
        overwrite(&mut self.mc_version, other.mc_version);
        overwrite(&mut self.version, other.version);
        overwrite(&mut self.build, other.build);
        option::overwrite_some(&mut self.branch, other.branch);
        option::overwrite_some(&mut self.latest, other.latest);
        option::overwrite_some(&mut self.recommended, other.recommended);
        option_hashmap::recurse_some(&mut self.files, other.files);
    }
}

impl Duplicate for ForgeEntry {
    fn duplicate(&self) -> (r: Self) {
        ForgeEntry {
            long_version: self.long_version.duplicate(),
            mc_version: self.mc_version.duplicate(),
            version: self.version.duplicate(),
            build: self.build.duplicate(),
            branch: self.branch.duplicate(),
            latest: self.latest.duplicate(),
            recommended: self.recommended.duplicate(),
            files: self.files.duplicate(),
        }
    }
}

/// The builds of one game version, in the order in which they were found.
#[derive(Debug, Clone, PartialEq, Eq, Default)]
pub struct ForgeMCVersionInfo {
    pub latest: Option<String>,
    pub recommended: Option<String>,
    pub versions: Vec<String>,
}

/// What a `ForgeMCVersionInfo` holds, as plain values.
pub struct ForgeMCVersionInfoView {
    pub latest: Option<Seq<char>>,
    pub recommended: Option<Seq<char>>,
    pub versions: Seq<Seq<char>>,
}

impl DeepView for ForgeMCVersionInfo {
    type V = ForgeMCVersionInfoView;

    open spec fn deep_view(&self) -> ForgeMCVersionInfoView {
        ForgeMCVersionInfoView {
            latest: self.latest.deep_view(),
            recommended: self.recommended.deep_view(),
            versions: self.versions.deep_view(),
        }
    }
}

impl View for ForgeMCVersionInfo {
    type V = ForgeMCVersionInfoView;

    open spec fn view(&self) -> ForgeMCVersionInfoView {
        self.deep_view()
    }
}

impl Merge for ForgeMCVersionInfo {
    open spec fn merged(
        base: ForgeMCVersionInfoView,
        overlay: ForgeMCVersionInfoView,
    ) -> ForgeMCVersionInfoView {
        ForgeMCVersionInfoView {
            latest: replaced(base.latest, overlay.latest),
            recommended: replaced(base.recommended, overlay.recommended),
            versions: base.versions + overlay.versions,
        }
    }

    fn merge(&mut self, other: Self) {
        option::overwrite_some(&mut self.latest, other.latest);
        option::overwrite_some(&mut self.recommended, other.recommended);
        crate::models::merge::vec::append(&mut self.versions, other.versions);
    }
}

impl Duplicate for ForgeMCVersionInfo {
    fn duplicate(&self) -> (r: Self) {
        ForgeMCVersionInfo {
            latest: self.latest.duplicate(),
            recommended: self.recommended.duplicate(),
            versions: self.versions.duplicate(),
        }
    }
}

/// The derived index: every known build, by long version and by game version.
#[derive(Debug, Clone, PartialEq, Eq, Default)]
pub struct DerivedForgeIndex {
    pub versions: StrMap<ForgeEntry>,
    pub by_mc_version: StrMap<ForgeMCVersionInfo>,
}

/// What a `DerivedForgeIndex` holds, as plain values.
pub struct DerivedForgeIndexView {
    pub versions: Map<Seq<char>, ForgeEntryView>,
    pub by_mc_version: Map<Seq<char>, ForgeMCVersionInfoView>,
}

impl DeepView for DerivedForgeIndex {
    type V = DerivedForgeIndexView;

    open spec fn deep_view(&self) -> DerivedForgeIndexView {
        DerivedForgeIndexView {
            versions: self.versions.deep_view(),
            by_mc_version: self.by_mc_version.deep_view(),
        }
    }
}

impl View for DerivedForgeIndex {
    type V = DerivedForgeIndexView;

    open spec fn view(&self) -> DerivedForgeIndexView {
        self.deep_view()
    }
}

impl Merge for DerivedForgeIndex {
    open spec fn merged(
        base: DerivedForgeIndexView,
        overlay: DerivedForgeIndexView,
    ) -> DerivedForgeIndexView {
        DerivedForgeIndexView {
            versions: keys_recursed::<ForgeEntry>(base.versions, overlay.versions),
            by_mc_version: keys_recursed::<ForgeMCVersionInfo>(base.by_mc_version, overlay.by_mc_version),
        }
    }

    fn merge(&mut self, other: Self) {
        hashmap::recurse(&mut self.versions, other.versions);
        hashmap::recurse(&mut self.by_mc_version, other.by_mc_version);
    }
}

impl Duplicate for DerivedForgeIndex {
    fn duplicate(&self) -> (r: Self) {
        DerivedForgeIndex {
            versions: self.versions.duplicate(),
            by_mc_version: self.by_mc_version.duplicate(),
        }
    }
}

/// The install section of an installer profile of the first kind.
#[derive(Debug, Clone, PartialEq, Eq, Default)]
pub struct ForgeInstallerProfileInstallSection {
    pub profile_name: String,
    pub target: String,
    pub path: GradleSpecifier,
    pub version: String,
    pub file_path: String,
    pub welcome: String,
    pub minecraft: String,
    pub logo: String,
    pub mirror_list: String,
    pub mod_list: Option<String>,
}

/// What a `ForgeInstallerProfileInstallSection` holds, as plain values.
pub struct ForgeInstallerProfileInstallSectionView {
    pub profile_name: Seq<char>,
    pub target: Seq<char>,
    pub path: GradleSpecifierView,
    pub version: Seq<char>,
    pub file_path: Seq<char>,
    pub welcome: Seq<char>,
    pub minecraft: Seq<char>,
    pub logo: Seq<char>,
    pub mirror_list: Seq<char>,
    pub mod_list: Option<Seq<char>>,
}

impl DeepView for ForgeInstallerProfileInstallSection {
    type V = ForgeInstallerProfileInstallSectionView;

    open spec fn deep_view(&self) -> ForgeInstallerProfileInstallSectionView {
        ForgeInstallerProfileInstallSectionView {
            profile_name: self.profile_name.deep_view(),
            target: self.target.deep_view(),
            path: self.path.deep_view(),
            version: self.version.deep_view(),
            file_path: self.file_path.deep_view(),
            welcome: self.welcome.deep_view(),
            minecraft: self.minecraft.deep_view(),
            logo: self.logo.deep_view(),
            mirror_list: self.mirror_list.deep_view(),
            mod_list: self.mod_list.deep_view(),
        }
    }
}

impl View for ForgeInstallerProfileInstallSection {
    type V = ForgeInstallerProfileInstallSectionView;

    open spec fn view(&self) -> ForgeInstallerProfileInstallSectionView {
        self.deep_view()
    }
}

impl Merge for ForgeInstallerProfileInstallSection {
    open spec fn merged(
        base: ForgeInstallerProfileInstallSectionView,
        overlay: ForgeInstallerProfileInstallSectionView,
    ) -> ForgeInstallerProfileInstallSectionView {
        ForgeInstallerProfileInstallSectionView {
            profile_name: overwritten(base.profile_name, overlay.profile_name),
            target: overwritten(base.target, overlay.target),
            path: overwritten(base.path, overlay.path),
            version: overwritten(base.version, overlay.version),
            file_path: overwritten(base.file_path, overlay.file_path),
            welcome: overwritten(base.welcome, overlay.welcome),
            minecraft: overwritten(base.minecraft, overlay.minecraft),
            logo: overwritten(base.logo, overlay.logo),
            mirror_list: overwritten(base.mirror_list, overlay.mirror_list),
            mod_list: replaced(base.mod_list, overlay.mod_list),
        }
    }

    fn merge(&mut self, other: Self) {
        overwrite(&mut self.profile_name, other.profile_name);
        overwrite(&mut self.target, other.target);
        overwrite(&mut self.path, other.path);
        overwrite(&mut self.version, other.version);
        overwrite(&mut self.file_path, other.file_path);
        overwrite(&mut self.welcome, other.welcome);
        overwrite(&mut self.minecraft, other.minecraft);
        overwrite(&mut self.logo, other.logo);
        overwrite(&mut self.mirror_list, other.mirror_list);
        option::overwrite_some(&mut self.mod_list, other.mod_list);
    }
}

impl Duplicate for ForgeInstallerProfileInstallSection {
    fn duplicate(&self) -> (r: Self) {
        ForgeInstallerProfileInstallSection {
            profile_name: self.profile_name.duplicate(),
            target: self.target.duplicate(),
            path: self.path.duplicate(),
            version: self.version.duplicate(),
            file_path: self.file_path.duplicate(),
            welcome: self.welcome.duplicate(),
            minecraft: self.minecraft.duplicate(),
            logo: self.logo.duplicate(),
            mirror_list: self.mirror_list.duplicate(),
            mod_list: self.mod_list.duplicate(),
        }
    }
}

/// What an installer profile adds to a library.
#[derive(Debug, Clone, PartialEq, Eq, Default)]
pub struct ForgeLibrary {
    pub url: Option<String>,
    pub server_req: Option<bool>,
    pub client_req: Option<bool>,
    pub checksums: Option<Vec<String>>,
    pub comment: Option<String>,
}

/// What a `ForgeLibrary` holds, as plain values.
pub struct ForgeLibraryView {
    pub url: Option<Seq<char>>,
    pub server_req: Option<bool>,
    pub client_req: Option<bool>,
    pub checksums: Option<Seq<Seq<char>>>,
    pub comment: Option<Seq<char>>,
}

impl DeepView for ForgeLibrary {
    type V = ForgeLibraryView;

    open spec fn deep_view(&self) -> ForgeLibraryView {
        ForgeLibraryView {
            url: self.url.deep_view(),
            server_req: self.server_req.deep_view(),
            client_req: self.client_req.deep_view(),
            checksums: self.checksums.deep_view(),
            comment: self.comment.deep_view(),
        }
    }
}

impl View for ForgeLibrary {
    type V = ForgeLibraryView;

    open spec fn view(&self) -> ForgeLibraryView {
        self.deep_view()
    }
}

impl Merge for ForgeLibrary {
    open spec fn merged(base: ForgeLibraryView, overlay: ForgeLibraryView) -> ForgeLibraryView {
        ForgeLibraryView {
            url: overwritten(base.url, overlay.url),
            server_req: replaced(base.server_req, overlay.server_req),
            client_req: replaced(base.client_req, overlay.client_req),
            checksums: appended(base.checksums, overlay.checksums),
            comment: replaced(base.comment, overlay.comment),
        }
    }

    fn merge(&mut self, other: Self) {
        overwrite(&mut self.url, other.url);
        option::overwrite_some(&mut self.server_req, other.server_req);
        option::overwrite_some(&mut self.client_req, other.client_req);
        option_vec::append_some(&mut self.checksums, other.checksums);
        option::overwrite_some(&mut self.comment, other.comment);
    }
}

impl Duplicate for ForgeLibrary {
    fn duplicate(&self) -> (r: Self) {
        ForgeLibrary {
            url: self.url.duplicate(),
            server_req: self.server_req.duplicate(),
            client_req: self.client_req.duplicate(),
            checksums: self.checksums.duplicate(),
            comment: self.comment.duplicate(),
        }
    }
}

/// The version section of an installer profile of the first kind.
#[derive(Debug, Clone, PartialEq, Eq, Default)]
pub struct ForgeVersionFile {
    pub libraries: Option<Vec<ForgeLibrary>>,
    pub inherits_from: Option<String>,
    pub jar: Option<String>,
}

/// What a `ForgeVersionFile` holds, as plain values.
pub struct ForgeVersionFileView {
    pub libraries: Option<Seq<ForgeLibraryView>>,
    pub inherits_from: Option<Seq<char>>,
    pub jar: Option<Seq<char>>,
}

impl DeepView for ForgeVersionFile {
    type V = ForgeVersionFileView;

    open spec fn deep_view(&self) -> ForgeVersionFileView {
        ForgeVersionFileView {
            libraries: self.libraries.deep_view(),
            inherits_from: self.inherits_from.deep_view(),
            jar: self.jar.deep_view(),
        }
    }
}

impl View for ForgeVersionFile {
    type V = ForgeVersionFileView;

    open spec fn view(&self) -> ForgeVersionFileView {
        self.deep_view()
    }
}

impl Merge for ForgeVersionFile {
    open spec fn merged(
        base: ForgeVersionFileView,
        overlay: ForgeVersionFileView,
    ) -> ForgeVersionFileView {
        ForgeVersionFileView {
            libraries: appended(base.libraries, overlay.libraries),
            inherits_from: replaced(base.inherits_from, overlay.inherits_from),
            jar: replaced(base.jar, overlay.jar),
        }
    }

    fn merge(&mut self, other: Self) {
        option_vec::append_some(&mut self.libraries, other.libraries);
        option::overwrite_some(&mut self.inherits_from, other.inherits_from);
        option::overwrite_some(&mut self.jar, other.jar);
    }
}

impl Duplicate for ForgeVersionFile {
    fn duplicate(&self) -> (r: Self) {
        ForgeVersionFile {
            libraries: self.libraries.duplicate(),
            inherits_from: self.inherits_from.duplicate(),
            jar: self.jar.duplicate(),
        }
    }
}

/// An optional mod of an installer profile.
#[derive(Debug, Clone, PartialEq, Eq, Default)]
pub struct ForgeOptional {
    pub name: Option<String>,
    pub client: Option<bool>,
    pub server: Option<bool>,
    pub default: Option<bool>,
    pub inject: Option<bool>,
    pub desc: Option<String>,
    pub url: Option<String>,
    pub artifact: Option<GradleSpecifier>,
    pub maven: Option<String>,
}

/// What a `ForgeOptional` holds, as plain values.
pub struct ForgeOptionalView {
    pub name: Option<Seq<char>>,
    pub client: Option<bool>,
    pub server: Option<bool>,
    pub default: Option<bool>,
    pub inject: Option<bool>,
    pub desc: Option<Seq<char>>,
    pub url: Option<Seq<char>>,
    pub artifact: Option<GradleSpecifierView>,
    pub maven: Option<Seq<char>>,
}

impl DeepView for ForgeOptional {
    type V = ForgeOptionalView;

    open spec fn deep_view(&self) -> ForgeOptionalView {
        ForgeOptionalView {
            name: self.name.deep_view(),
            client: self.client.deep_view(),
            server: self.server.deep_view(),
            default: self.default.deep_view(),
            inject: self.inject.deep_view(),
            desc: self.desc.deep_view(),
            url: self.url.deep_view(),
            artifact: self.artifact.deep_view(),
            maven: self.maven.deep_view(),
        }
    }
}

impl View for ForgeOptional {
    type V = ForgeOptionalView;

    open spec fn view(&self) -> ForgeOptionalView {
        self.deep_view()
    }
}

impl Merge for ForgeOptional {
    open spec fn merged(base: ForgeOptionalView, overlay: ForgeOptionalView) -> ForgeOptionalView {
        ForgeOptionalView {
            name: replaced(base.name, overlay.name),
            client: replaced(base.client, overlay.client),
            server: replaced(base.server, overlay.server),
            default: replaced(base.default, overlay.default),
            inject: replaced(base.inject, overlay.inject),
            desc: replaced(base.desc, overlay.desc),
            url: replaced(base.url, overlay.url),
            artifact: replaced(base.artifact, overlay.artifact),
            maven: replaced(base.maven, overlay.maven),
        }
    }

    fn merge(&mut self, other: Self) {
        option::overwrite_some(&mut self.name, other.name);
        option::overwrite_some(&mut self.client, other.client);
        option::overwrite_some(&mut self.server, other.server);
        option::overwrite_some(&mut self.default, other.default);
        option::overwrite_some(&mut self.inject, other.inject);
        option::overwrite_some(&mut self.desc, other.desc);
        option::overwrite_some(&mut self.url, other.url);
        option::overwrite_some(&mut self.artifact, other.artifact);
        option::overwrite_some(&mut self.maven, other.maven);
    }
}

impl Duplicate for ForgeOptional {
    fn duplicate(&self) -> (r: Self) {
        ForgeOptional {
            name: self.name.duplicate(),
            client: self.client.duplicate(),
            server: self.server.duplicate(),
            default: self.default.duplicate(),
            inject: self.inject.duplicate(),
            desc: self.desc.duplicate(),
            url: self.url.duplicate(),
            artifact: self.artifact.duplicate(),
            maven: self.maven.duplicate(),
        }
    }
}

/// An installer profile of the first kind.
#[derive(Debug, Clone, PartialEq, Eq, Default)]
pub struct ForgeInstallerProfileV1 {
    pub install: ForgeInstallerProfileInstallSection,
    pub version_info: ForgeVersionFile,
    pub optionals: Option<Vec<ForgeOptional>>,
}

/// What a `ForgeInstallerProfileV1` holds, as plain values.
pub struct ForgeInstallerProfileV1View {
    pub install: ForgeInstallerProfileInstallSectionView,
    pub version_info: ForgeVersionFileView,
    pub optionals: Option<Seq<ForgeOptionalView>>,
}

impl DeepView for ForgeInstallerProfileV1 {
    type V = ForgeInstallerProfileV1View;

    open spec fn deep_view(&self) -> ForgeInstallerProfileV1View {
        ForgeInstallerProfileV1View {
            install: self.install.deep_view(),
            version_info: self.version_info.deep_view(),
            optionals: self.optionals.deep_view(),
        }
    }
}

impl View for ForgeInstallerProfileV1 {
    type V = ForgeInstallerProfileV1View;

    open spec fn view(&self) -> ForgeInstallerProfileV1View {
        self.deep_view()
    }
}

impl Merge for ForgeInstallerProfileV1 {
    open spec fn merged(
        base: ForgeInstallerProfileV1View,
        overlay: ForgeInstallerProfileV1View,
    ) -> ForgeInstallerProfileV1View {
        ForgeInstallerProfileV1View {
            install: ForgeInstallerProfileInstallSection::merged(base.install, overlay.install),
            version_info: ForgeVersionFile::merged(base.version_info, overlay.version_info),
            optionals: appended(base.optionals, overlay.optionals),
        }
    }

    fn merge(&mut self, other: Self) {
        self.install.merge(other.install);
        self.version_info.merge(other.version_info);
        option_vec::append_some(&mut self.optionals, other.optionals);
    }
}

impl Duplicate for ForgeInstallerProfileV1 {
    fn duplicate(&self) -> (r: Self) {
        ForgeInstallerProfileV1 {
            install: self.install.duplicate(),
            version_info: self.version_info.duplicate(),
            optionals: self.optionals.duplicate(),
        }
    }
}

/// What is kept of a build that ships a bare archive.
#[derive(Debug, Clone, PartialEq, Eq, Default)]
pub struct ForgeLegacyInfo {
    pub release_time: Option<Timestamp>,
    pub size: Option<u64>,
    pub sha256: Option<String>,
    pub sha1: Option<String>,
}

/// What a `ForgeLegacyInfo` holds, as plain values.
pub struct ForgeLegacyInfoView {
    pub release_time: Option<Timestamp>,
    pub size: Option<u64>,
    pub sha256: Option<Seq<char>>,
    pub sha1: Option<Seq<char>>,
}

impl DeepView for ForgeLegacyInfo {
    type V = ForgeLegacyInfoView;

    open spec fn deep_view(&self) -> ForgeLegacyInfoView {
        ForgeLegacyInfoView {
            release_time: self.release_time.deep_view(),
            size: self.size.deep_view(),
            sha256: self.sha256.deep_view(),
            sha1: self.sha1.deep_view(),
        }
    }
}

impl View for ForgeLegacyInfo {
    type V = ForgeLegacyInfoView;

    open spec fn view(&self) -> ForgeLegacyInfoView {
        self.deep_view()
    }
}

impl Merge for ForgeLegacyInfo {
    open spec fn merged(
        base: ForgeLegacyInfoView,
        overlay: ForgeLegacyInfoView,
    ) -> ForgeLegacyInfoView {
        ForgeLegacyInfoView {
            release_time: replaced(base.release_time, overlay.release_time),
            size: replaced(base.size, overlay.size),
            sha256: replaced(base.sha256, overlay.sha256),
            sha1: replaced(base.sha1, overlay.sha1),
        }
    }

    fn merge(&mut self, other: Self) {
        option::overwrite_some(&mut self.release_time, other.release_time);
        option::overwrite_some(&mut self.size, other.size);
        option::overwrite_some(&mut self.sha256, other.sha256);
        option::overwrite_some(&mut self.sha1, other.sha1);
    }
}

impl Duplicate for ForgeLegacyInfo {
    fn duplicate(&self) -> (r: Self) {
        ForgeLegacyInfo {
            release_time: self.release_time.duplicate(),
            size: self.size.duplicate(),
            sha256: self.sha256.duplicate(),
            sha1: self.sha1.duplicate(),
        }
    }
}

/// What is kept of the builds that ship a bare archive, by long version.
#[derive(Debug, Clone, PartialEq, Eq, Default)]
pub struct ForgeLegacyInfoList {
    pub number: StrMap<ForgeLegacyInfo>,
}

/// What a `ForgeLegacyInfoList` holds, as plain values.
pub struct ForgeLegacyInfoListView {
    pub number: Map<Seq<char>, ForgeLegacyInfoView>,
}

impl DeepView for ForgeLegacyInfoList {
    type V = ForgeLegacyInfoListView;

    open spec fn deep_view(&self) -> ForgeLegacyInfoListView {
        ForgeLegacyInfoListView {
            number: self.number.deep_view(),
        }
    }
}

impl View for ForgeLegacyInfoList {
    type V = ForgeLegacyInfoListView;

    open spec fn view(&self) -> ForgeLegacyInfoListView {
        self.deep_view()
    }
}

impl Merge for ForgeLegacyInfoList {
    open spec fn merged(
        base: ForgeLegacyInfoListView,
        overlay: ForgeLegacyInfoListView,
    ) -> ForgeLegacyInfoListView {
        ForgeLegacyInfoListView {
            number: keys_recursed::<ForgeLegacyInfo>(base.number, overlay.number),
        }
    }

    fn merge(&mut self, other: Self) {
        hashmap::recurse(&mut self.number, other.number);
    }
}

impl Duplicate for ForgeLegacyInfoList {
    fn duplicate(&self) -> (r: Self) {
        ForgeLegacyInfoList {
            number: self.number.duplicate(),
        }
    }
}

/// One datum of an installer profile of the second kind.
#[derive(Debug, Clone, PartialEq, Eq, Default)]
pub struct DataSpec {
    pub client: Option<String>,
    pub server: Option<String>,
}

/// What a `DataSpec` holds, as plain values.
pub struct DataSpecView {
    pub client: Option<Seq<char>>,
    pub server: Option<Seq<char>>,
}

impl DeepView for DataSpec {
    type V = DataSpecView;

    open spec fn deep_view(&self) -> DataSpecView {
        DataSpecView {
            client: self.client.deep_view(),
            server: self.server.deep_view(),
        }
    }
}

impl View for DataSpec {
    type V = DataSpecView;

    open spec fn view(&self) -> DataSpecView {
        self.deep_view()
    }
}

impl Merge for DataSpec {
    open spec fn merged(base: DataSpecView, overlay: DataSpecView) -> DataSpecView {
        DataSpecView {
            client: replaced(base.client, overlay.client),
            server: replaced(base.server, overlay.server),
        }
    }

    fn merge(&mut self, other: Self) {
        option::overwrite_some(&mut self.client, other.client);
        option::overwrite_some(&mut self.server, other.server);
    }
}

impl Duplicate for DataSpec {
    fn duplicate(&self) -> (r: Self) {
        DataSpec {
            client: self.client.duplicate(),
            server: self.server.duplicate(),
        }
    }
}

/// One processing step of an installer profile of the second kind.
#[derive(Debug, Clone, PartialEq, Eq, Default)]
pub struct ProcessorSpec {
    pub jar: Option<String>,
    pub classpath: Option<Vec<String>>,
    pub args: Option<Vec<String>>,
    pub outputs: Option<StrMap<String>>,
    pub sides: Option<Vec<String>>,
}

/// What a `ProcessorSpec` holds, as plain values.
pub struct ProcessorSpecView {
    pub jar: Option<Seq<char>>,
    pub classpath: Option<Seq<Seq<char>>>,
    pub args: Option<Seq<Seq<char>>>,
    pub outputs: Option<Map<Seq<char>, Seq<char>>>,
    pub sides: Option<Seq<Seq<char>>>,
}

impl DeepView for ProcessorSpec {
    type V = ProcessorSpecView;

    open spec fn deep_view(&self) -> ProcessorSpecView {
        ProcessorSpecView {
            jar: self.jar.deep_view(),
            classpath: self.classpath.deep_view(),
            args: self.args.deep_view(),
            outputs: self.outputs.deep_view(),
            sides: self.sides.deep_view(),
        }
    }
}

impl View for ProcessorSpec {
    type V = ProcessorSpecView;

    open spec fn view(&self) -> ProcessorSpecView {
        self.deep_view()
    }
}

impl Merge for ProcessorSpec {
    open spec fn merged(base: ProcessorSpecView, overlay: ProcessorSpecView) -> ProcessorSpecView {
        ProcessorSpecView {
            jar: replaced(base.jar, overlay.jar),
            classpath: appended(base.classpath, overlay.classpath),
            args: appended(base.args, overlay.args),
            outputs: some_overwritten(base.outputs, overlay.outputs),
            sides: appended(base.sides, overlay.sides),
        }
    }

    fn merge(&mut self, other: Self) {
        option::overwrite_some(&mut self.jar, other.jar);
        option_vec::append_some(&mut self.classpath, other.classpath);
        option_vec::append_some(&mut self.args, other.args);
        option_hashmap::overwrite_key_some(&mut self.outputs, other.outputs);
        option_vec::append_some(&mut self.sides, other.sides);
    }
}

impl Duplicate for ProcessorSpec {
    fn duplicate(&self) -> (r: Self) {
        ProcessorSpec {
            jar: self.jar.duplicate(),
            classpath: self.classpath.duplicate(),
            args: self.args.duplicate(),
            outputs: self.outputs.duplicate(),
            sides: self.sides.duplicate(),
        }
    }
}

/// An installer profile of the second kind.
#[derive(Debug, Clone, PartialEq, Eq, Default)]
pub struct ForgeInstallerProfileV2 {
    pub _comment: Option<Vec<String>>,
    pub spec: Option<i32>,
    pub profile: Option<String>,
    pub version: Option<String>,
    pub icon: Option<String>,
    pub json_data: Option<String>,
    pub path: Option<GradleSpecifier>,
    pub logo: Option<String>,
    pub minecraft: Option<String>,
    pub welcome: Option<String>,
    pub data: Option<StrMap<DataSpec>>,
    pub processors: Option<Vec<ProcessorSpec>>,
    pub libraries: Option<Vec<MojangLibrary>>,
    pub mirror_list: Option<String>,
    pub server_jar_path: Option<String>,
}

/// What a `ForgeInstallerProfileV2` holds, as plain values.
pub struct ForgeInstallerProfileV2View {
    pub _comment: Option<Seq<Seq<char>>>,
    pub spec: Option<i32>,
    pub profile: Option<Seq<char>>,
    pub version: Option<Seq<char>>,
    pub icon: Option<Seq<char>>,
    pub json_data: Option<Seq<char>>,
    pub path: Option<GradleSpecifierView>,
    pub logo: Option<Seq<char>>,
    pub minecraft: Option<Seq<char>>,
    pub welcome: Option<Seq<char>>,
    pub data: Option<Map<Seq<char>, DataSpecView>>,
    pub processors: Option<Seq<ProcessorSpecView>>,
    pub libraries: Option<Seq<MojangLibraryView>>,
    pub mirror_list: Option<Seq<char>>,
    pub server_jar_path: Option<Seq<char>>,
}

impl DeepView for ForgeInstallerProfileV2 {
    type V = ForgeInstallerProfileV2View;

    open spec fn deep_view(&self) -> ForgeInstallerProfileV2View {
        ForgeInstallerProfileV2View {
            _comment: self._comment.deep_view(),
            spec: self.spec.deep_view(),
            profile: self.profile.deep_view(),
            version: self.version.deep_view(),
            icon: self.icon.deep_view(),
            json_data: self.json_data.deep_view(),
            path: self.path.deep_view(),
            logo: self.logo.deep_view(),
            minecraft: self.minecraft.deep_view(),
            welcome: self.welcome.deep_view(),
            data: self.data.deep_view(),
            processors: self.processors.deep_view(),
            libraries: self.libraries.deep_view(),
            mirror_list: self.mirror_list.deep_view(),
            server_jar_path: self.server_jar_path.deep_view(),
        }
    }
}

impl View for ForgeInstallerProfileV2 {
    type V = ForgeInstallerProfileV2View;

    open spec fn view(&self) -> ForgeInstallerProfileV2View {
        self.deep_view()
    }
}

impl Merge for ForgeInstallerProfileV2 {
    open spec fn merged(
        base: ForgeInstallerProfileV2View,
        overlay: ForgeInstallerProfileV2View,
    ) -> ForgeInstallerProfileV2View {
        ForgeInstallerProfileV2View {
            _comment: base._comment,
            spec: replaced(base.spec, overlay.spec),
            profile: replaced(base.profile, overlay.profile),
            version: replaced(base.version, overlay.version),
            icon: replaced(base.icon, overlay.icon),
            json_data: replaced(base.json_data, overlay.json_data),
            path: replaced(base.path, overlay.path),
            logo: replaced(base.logo, overlay.logo),
            minecraft: replaced(base.minecraft, overlay.minecraft),
            welcome: replaced(base.welcome, overlay.welcome),
            data: some_recursed::<DataSpec>(base.data, overlay.data),
            processors: appended(base.processors, overlay.processors),
            libraries: appended(base.libraries, overlay.libraries),
            mirror_list: replaced(base.mirror_list, overlay.mirror_list),
            server_jar_path: replaced(base.server_jar_path, overlay.server_jar_path),
        }
    }

    fn merge(&mut self, other: Self) {
        option::overwrite_some(&mut self.spec, other.spec);
        option::overwrite_some(&mut self.profile, other.profile);
        option::overwrite_some(&mut self.version, other.version);
        option::overwrite_some(&mut self.icon, other.icon);
        option::overwrite_some(&mut self.json_data, other.json_data);
        option::overwrite_some(&mut self.path, other.path);
        option::overwrite_some(&mut self.logo, other.logo);
        option::overwrite_some(&mut self.minecraft, other.minecraft);
        option::overwrite_some(&mut self.welcome, other.welcome);
        option_hashmap::recurse_some(&mut self.data, other.data);
        option_vec::append_some(&mut self.processors, other.processors);
        option_vec::append_some(&mut self.libraries, other.libraries);
        option::overwrite_some(&mut self.mirror_list, other.mirror_list);
        option::overwrite_some(&mut self.server_jar_path, other.server_jar_path);
    }
}

impl Duplicate for ForgeInstallerProfileV2 {
    fn duplicate(&self) -> (r: Self) {
        ForgeInstallerProfileV2 {
            _comment: self._comment.duplicate(),
            spec: self.spec.duplicate(),
            profile: self.profile.duplicate(),
            version: self.version.duplicate(),
            icon: self.icon.duplicate(),
            json_data: self.json_data.duplicate(),
            path: self.path.duplicate(),
            logo: self.logo.duplicate(),
            minecraft: self.minecraft.duplicate(),
            welcome: self.welcome.duplicate(),
            data: self.data.duplicate(),
            processors: self.processors.duplicate(),
            libraries: self.libraries.duplicate(),
            mirror_list: self.mirror_list.duplicate(),
            server_jar_path: self.server_jar_path.duplicate(),
        }
    }
}

/// The hashes and the size of an installer archive.
#[derive(Debug, Clone, PartialEq, Eq, Default)]
pub struct InstallerInfo {
    pub sha1hash: Option<String>,
    pub sha256hash: Option<String>,
    pub size: Option<u64>,
}

/// What a `InstallerInfo` holds, as plain values.
pub struct InstallerInfoView {
    pub sha1hash: Option<Seq<char>>,
    pub sha256hash: Option<Seq<char>>,
    pub size: Option<u64>,
}

impl DeepView for InstallerInfo {
    type V = InstallerInfoView;

    open spec fn deep_view(&self) -> InstallerInfoView {
        InstallerInfoView {
            sha1hash: self.sha1hash.deep_view(),
            sha256hash: self.sha256hash.deep_view(),
            size: self.size.deep_view(),
        }
    }
}

impl View for InstallerInfo {
    type V = InstallerInfoView;

    open spec fn view(&self) -> InstallerInfoView {
        self.deep_view()
    }
}

impl Merge for InstallerInfo {
    open spec fn merged(base: InstallerInfoView, overlay: InstallerInfoView) -> InstallerInfoView {
        InstallerInfoView {
            sha1hash: filled(base.sha1hash, overlay.sha1hash),
            sha256hash: filled(base.sha256hash, overlay.sha256hash),
            size: filled(base.size, overlay.size),
        }
    }

    fn merge(&mut self, other: Self) {
        option::overwrite_none(&mut self.sha1hash, other.sha1hash);
        option::overwrite_none(&mut self.sha256hash, other.sha256hash);
        option::overwrite_none(&mut self.size, other.size);
    }
}

impl Duplicate for InstallerInfo {
    fn duplicate(&self) -> (r: Self) {
        InstallerInfo {
            sha1hash: self.sha1hash.duplicate(),
            sha256hash: self.sha256hash.duplicate(),
            size: self.size.duplicate(),
        }
    }
}

/// A build of the index, with the files that matter worked out.
#[derive(Debug, Clone, PartialEq, Eq)]
pub struct ForgeProcessedVersion {
    pub build: i32,
    pub raw_version: String,
    pub mc_version: String,
    pub mc_version_sane: String,
    pub branch: Option<String>,
    pub installer_filename: Option<String>,
    pub installer_url: Option<String>,
    pub universal_filename: Option<String>,
    pub universal_url: Option<String>,
    pub changelog_url: Option<String>,
    pub long_version: String,
}

/// What a `ForgeProcessedVersion` holds, as plain values.
pub struct ForgeProcessedVersionView {
    pub build: i32,
    pub raw_version: Seq<char>,
    pub mc_version: Seq<char>,
    pub mc_version_sane: Seq<char>,
    pub branch: Option<Seq<char>>,
    pub installer_filename: Option<Seq<char>>,
    pub installer_url: Option<Seq<char>>,
    pub universal_filename: Option<Seq<char>>,
    pub universal_url: Option<Seq<char>>,
    pub changelog_url: Option<Seq<char>>,
    pub long_version: Seq<char>,
}

impl DeepView for ForgeProcessedVersion {
    type V = ForgeProcessedVersionView;

    open spec fn deep_view(&self) -> ForgeProcessedVersionView {
        ForgeProcessedVersionView {
            build: self.build.deep_view(),
            raw_version: self.raw_version.deep_view(),
            mc_version: self.mc_version.deep_view(),
            mc_version_sane: self.mc_version_sane.deep_view(),
            branch: self.branch.deep_view(),
            installer_filename: self.installer_filename.deep_view(),
            installer_url: self.installer_url.deep_view(),
            universal_filename: self.universal_filename.deep_view(),
            universal_url: self.universal_url.deep_view(),
            changelog_url: self.changelog_url.deep_view(),
            long_version: self.long_version.deep_view(),
        }
    }
}

impl View for ForgeProcessedVersion {
    type V = ForgeProcessedVersionView;

    open spec fn view(&self) -> ForgeProcessedVersionView {
        self.deep_view()
    }
}

impl Duplicate for ForgeProcessedVersion {
    fn duplicate(&self) -> (r: Self) {
        ForgeProcessedVersion {
            build: self.build.duplicate(),
            raw_version: self.raw_version.duplicate(),
            mc_version: self.mc_version.duplicate(),
            mc_version_sane: self.mc_version_sane.duplicate(),
            branch: self.branch.duplicate(),
            installer_filename: self.installer_filename.duplicate(),
            installer_url: self.installer_url.duplicate(),
            universal_filename: self.universal_filename.duplicate(),
            universal_url: self.universal_url.duplicate(),
            changelog_url: self.changelog_url.duplicate(),
            long_version: self.long_version.duplicate(),
        }
    }
}

/// The file name of a file of the build `long_version`:
/// `forge-<long version>-<classifier>.<extension>`.
pub open spec fn file_name(f: ForgeFileView, long_version: Seq<char>) -> Seq<char> {
    (("forge-"@ + long_version).push('-') + f.classifier).push('.') + f.extension
}

/// The address from which a file of the build `long_version` is downloaded.
pub open spec fn file_url(f: ForgeFileView, long_version: Seq<char>) -> Seq<char> {
    ("https://maven.minecraftforge.net/net/minecraftforge/forge/"@ + long_version).push('/')
        + file_name(f, long_version)
}

impl ForgeFile {
    /// The file name of the file, for the build `long_version`.
    pub fn filename(&self, long_version: &str) -> (r: String)
        ensures
            r@ == file_name(self@, long_version@),
    {
        let mut r = concat("forge-", long_version);
        r.push('-');
        r.append(self.classifier.as_str());
        r.push('.');
        r.append(self.extension.as_str());
        r
    }

    /// The address of the file, for the build `long_version`.
    pub fn url(&self, long_version: &str) -> (r: String)
        ensures
            r@ == file_url(self@, long_version@),
    {
        let mut r = concat(
            "https://maven.minecraftforge.net/net/minecraftforge/forge/",
            long_version,
        );
        r.push('/');
        r.append(self.filename(long_version).as_str());
        r
    }
}

/// `s` holds `_pre` at `i`.
pub open spec fn pre_at(s: Seq<char>, i: int) -> bool {
    0 <= i && i + 4 <= s.len() && s[i] == '_' && s[i + 1] == 'p' && s[i + 2] == 'r' && s[i + 3]
        == 'e'
}

/// The first place at or after `from` where `s` holds `_pre`.
pub open spec fn first_pre(s: Seq<char>, from: int) -> Option<int>
    decreases s.len() - from,
{
    if from < 0 || from + 4 > s.len() {
        None
    } else if pre_at(s, from) {
        Some(from)
    } else {
        first_pre(s, from + 1)
    }
}

/// The game version with its first `_pre` written `-pre`.
pub open spec fn sane_version(s: Seq<char>) -> Seq<char> {
    match first_pre(s, 0) {
        Some(i) => s.update(i, '-'),
        None => s,
    }
}

/// The long version of a build: `<game version>-<version>`, and `-<branch>`
/// where it has a branch.
pub open spec fn long_version_of(
    mc_version: Seq<char>,
    version: Seq<char>,
    branch: Option<Seq<char>>,
) -> Seq<char> {
    match branch {
        Some(b) => (mc_version.push('-') + version).push('-') + b,
        None => mc_version.push('-') + version,
    }
}

/// The file under the key `classifier`, where its extension is one of two.
pub open spec fn file_with(
    files: Option<Map<Seq<char>, ForgeFileView>>,
    classifier: Seq<char>,
    first: Seq<char>,
    second: Seq<char>,
) -> Option<ForgeFileView> {
    match files {
        Some(m) => if m.dom().contains(classifier) && (m[classifier].extension == first
            || m[classifier].extension == second) {
            Some(m[classifier])
        } else {
            None
        },
        None => None,
    }
}

/// The installer of a build: its file `installer`, where that is a jar.
pub open spec fn installer_file(files: Option<Map<Seq<char>, ForgeFileView>>) -> Option<
    ForgeFileView,
> {
    file_with(files, "installer"@, "jar"@, "jar"@)
}

/// The archive of a build: its file `universal` where that is a jar or a zip,
/// else its file `client` where that is one.
pub open spec fn universal_file(files: Option<Map<Seq<char>, ForgeFileView>>) -> Option<
    ForgeFileView,
> {
    match file_with(files, "universal"@, "jar"@, "zip"@) {
        Some(f) => Some(f),
        None => file_with(files, "client"@, "jar"@, "zip"@),
    }
}

/// The changelog of a build: its file `changelog`, where that is a text.
pub open spec fn changelog_file(files: Option<Map<Seq<char>, ForgeFileView>>) -> Option<
    ForgeFileView,
> {
    file_with(files, "changelog"@, "txt"@, "txt"@)
}

/// The name of a file, where there is one.
pub open spec fn name_of(f: Option<ForgeFileView>, long_version: Seq<char>) -> Option<Seq<char>> {
    match f {
        Some(f) => Some(file_name(f, long_version)),
        None => None,
    }
}

/// The address of a file, where there is one.
pub open spec fn url_of(f: Option<ForgeFileView>, long_version: Seq<char>) -> Option<Seq<char>> {
    match f {
        Some(f) => Some(file_url(f, long_version)),
        None => None,
    }
}

/// What `ForgeProcessedVersion::new` makes of an entry.
pub open spec fn processed(entry: ForgeEntryView) -> ForgeProcessedVersionView {
    let long = long_version_of(entry.mc_version, entry.version, entry.branch);
    ForgeProcessedVersionView {
        build: entry.build,
        raw_version: entry.version,
        mc_version: entry.mc_version,
        mc_version_sane: sane_version(entry.mc_version),
        branch: entry.branch,
        installer_filename: name_of(installer_file(entry.files), long),
        installer_url: url_of(installer_file(entry.files), long),
        universal_filename: name_of(universal_file(entry.files), long),
        universal_url: url_of(universal_file(entry.files), long),
        changelog_url: url_of(changelog_file(entry.files), long),
        long_version: long,
    }
}

/// A build uses an installer where one was published for it, unless it is for
/// the game version 1.5.2.
pub open spec fn uses_installer_spec(v: ForgeProcessedVersionView) -> bool {
    v.installer_url is Some && v.mc_version != "1.5.2"@
}

/// The file name of the archive to fetch for a build: that of the installer
/// where it uses one, else that of its bare archive.
pub open spec fn archive_name(v: ForgeProcessedVersionView) -> Option<Seq<char>> {
    if uses_installer_spec(v) {
        v.installer_filename
    } else {
        v.universal_filename
    }
}

/// The address of the archive to fetch for a build.
pub open spec fn archive_url(v: ForgeProcessedVersionView) -> Option<Seq<char>> {
    if uses_installer_spec(v) {
        v.installer_url
    } else {
        v.universal_url
    }
}

/// The first major line that is no longer supported.
pub const FIRST_UNSUPPORTED_MAJOR: i32 = 37;

/// A build is supported where it has an archive to fetch and the number
/// before the first dot of its version is below the first unsupported major
/// line.
pub open spec fn supported(v: ForgeProcessedVersionView) -> bool {
    archive_url(v) is Some && (parse_i32_spec(split_spec(v.raw_version, '.')[0]) matches Some(major)
        && major < FIRST_UNSUPPORTED_MAJOR)
}

/// The game version with its first `_pre` written `-pre`.
pub fn sane_mc_version(mc_version: &str) -> (r: String)
    ensures
        r@ == sane_version(mc_version@),
{
    let v = chars_of(mc_version);
    let n = v.len();
    let mut i: usize = 0;
    while n >= 4 && i <= n - 4
        invariant
            n == v.len(),
            v@ == mc_version@,
            i <= n,
            first_pre(v@, 0) == first_pre(v@, i as int),
        decreases n - i,
    {
        if v[i] == '_' && v[i + 1] == 'p' && v[i + 2] == 'r' && v[i + 3] == 'e' {
            let mut r = string_of(&v, 0, i);
            r.push('-');
            r.append(string_of(&v, i + 1, n).as_str());
            assert(r@ == v@.update(i as int, '-'));
            return r;
        }
        i += 1;
    }
    mc_version.to_owned()
}

/// The file of `files` under `classifier`, where its extension is `first` or
/// `second`.
fn pick_file<'a>(
    files: &'a Option<StrMap<ForgeFile>>,
    classifier: &str,
    first: &str,
    second: &str,
) -> (r: Option<&'a ForgeFile>)
    ensures
        r.deep_view() == file_with(files.deep_view(), classifier@, first@, second@),
{
    match files {
        Some(m) => {
            match m.get(classifier) {
                Some(f) => {
                    if str_eq(f.extension.as_str(), first) || str_eq(f.extension.as_str(), second) {
                        Some(f)
                    } else {
                        None
                    }
                },
                None => None,
            }
        },
        None => None,
    }
}

impl ForgeProcessedVersion {
    /// Works out, from an entry of the index, its long version and which of its
    /// files are the installer, the bare archive and the changelog.
    pub fn new(entry: &ForgeEntry) -> (r: Self)
        ensures
            r@ == processed(entry@),
    {
        let mut long_version = concat(entry.mc_version.as_str(), "-");
        proof {
            reveal_strlit("-");
            assert("-"@ == seq!['-']);
            assert(entry.mc_version@ + seq!['-'] == entry.mc_version@.push('-'));
        }
        long_version.append(entry.version.as_str());
        if let Some(branch) = &entry.branch {
            long_version.push('-');
            long_version.append(branch.as_str());
        }
        let installer = pick_file(&entry.files, "installer", "jar", "jar");
        let universal = match pick_file(&entry.files, "universal", "jar", "zip") {
            Some(f) => Some(f),
            None => pick_file(&entry.files, "client", "jar", "zip"),
        };
        let changelog = pick_file(&entry.files, "changelog", "txt", "txt");
        let lv = long_version.as_str();
        let installer_filename = match installer {
            Some(f) => Some(f.filename(lv)),
            None => None,
        };
        let installer_url = match installer {
            Some(f) => Some(f.url(lv)),
            None => None,
        };
        let universal_filename = match universal {
            Some(f) => Some(f.filename(lv)),
            None => None,
        };
        let universal_url = match universal {
            Some(f) => Some(f.url(lv)),
            None => None,
        };
        let changelog_url = match changelog {
            Some(f) => Some(f.url(lv)),
            None => None,
        };
        ForgeProcessedVersion {
            build: entry.build,
            raw_version: entry.version.clone(),
            mc_version: entry.mc_version.clone(),
            mc_version_sane: sane_mc_version(entry.mc_version.as_str()),
            branch: entry.branch.duplicate(),
            installer_filename,
            installer_url,
            universal_filename,
            universal_url,
            changelog_url,
            long_version,
        }
    }

    /// The name under which the build is shown: `Forge ` and its build number.
    pub fn name(&self) -> (r: String)
        ensures
            r@ == "Forge "@ + int_text(self@.build as int),
    {
        concat("Forge ", i32_to_string(self.build).as_str())
    }

    /// Whether the build is installed through an installer.
    pub fn uses_installer(&self) -> (r: bool)
        ensures
            r == uses_installer_spec(self@),
    {
        !(self.installer_url.is_none() || str_eq(self.mc_version.as_str(), "1.5.2"))
    }

    /// The file name of the archive to fetch.
    pub fn filename(&self) -> (r: Option<String>)
        ensures
            r.deep_view() == archive_name(self@),
    {
        if self.uses_installer() {
            self.installer_filename.duplicate()
        } else {
            self.universal_filename.duplicate()
        }
    }

    /// The address of the archive to fetch.
    pub fn url(&self) -> (r: Option<String>)
        ensures
            r.deep_view() == archive_url(self@),
    {
        if self.uses_installer() {
            self.installer_url.duplicate()
        } else {
            self.universal_url.duplicate()
        }
    }

    /// Whether the build belongs to a major line that is still supported.
    pub fn is_supported(&self) -> (r: bool)
        ensures
            r == supported(self@),
    {
        if self.url().is_none() {
            return false;
        }
        let parts = split(self.raw_version.as_str(), '.');
        assert(parts.deep_view()[0] == parts@[0]@);
        let major_chars = chars_of(parts[0].as_str());
        assert(major_chars@.subrange(0, major_chars@.len() as int) == major_chars@);
        match parse_i32(&major_chars, 0, major_chars.len()) {
            Some(major) => major < FIRST_UNSUPPORTED_MAJOR,
            None => false,
        }
    }
}

} // verus!
