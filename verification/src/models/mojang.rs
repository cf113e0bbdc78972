//! The descriptors of the game distribution.

use vstd::prelude::*;
use crate::duplicate::Duplicate;
use crate::models::{
    GradleSpecifier, GradleSpecifierView, Library, LibraryView, MetaVersion, MetaVersionView,
    MojangArtifact, MojangArtifactBase, MojangArtifactView, MojangAssets, MojangLibrary,
    MojangLibraryDownloads, MojangLibraryDownloadsView, MojangLibraryView, Timestamp,
    META_FORMAT_VERSION,
};
use crate::models::library_of;
use crate::strmap::StrMap;
use crate::text::str_eq;

verus! {

/// The launcher version up to which versions are supported.
pub const SUPPORTED_LAUNCHER_VERSION: i32 = 21;

/// The compliance level up to which versions are supported.
pub const SUPPORTED_COMPLIANCE_LEVEL: i32 = 1;

/// The Java major version of a version that names none.
pub const DEFAULT_JAVA_MAJOR: i32 = 8;

/// The latest version of Minecraft.
#[derive(Debug, Clone, PartialEq, Eq)]
pub struct MojangVersionManifestLatest {
    /// The latest release version of Minecraft.
    pub release: String,
    /// The latest snapshot version of Minecraft.
    pub snapshot: String,
}

/// A version of Minecraft.
#[derive(Debug, Clone, PartialEq, Eq)]
pub struct MojangVersionManifestVersion {
    /// The ID of the version.
    pub id: String,
    /// The type of the version.
    pub version_type: String,
    /// The URL to the version's JSON.
    pub url: String,
    /// The time the version was last updated.
    pub time: Timestamp,
    /// The time the version was released.
    pub release_time: Timestamp,
    /// Compliance level
    pub compliance_level: i32,
    /// The sha1 hash of the version's JSON.
    pub sha1: String,
}

/// The manifest of the game distribution.
#[derive(Debug, Clone, PartialEq, Eq)]
pub struct MojangVersionManifest {
    /// The latest version of Minecraft.
    pub latest: MojangVersionManifestLatest,
    /// A list of all versions of Minecraft.
    pub versions: Vec<MojangVersionManifestVersion>,
}

/// The asset index of a version of the game.
#[derive(Debug, Clone, PartialEq, Eq)]
pub struct AssetIndex {
    pub id: String,
    pub sha1: String,
    pub size: i32,
    pub total_size: i32,
    pub url: String,
}

/// One download of a version.
#[derive(Debug, Clone, PartialEq, Eq)]
pub struct VersionDownload {
    pub sha1: String,
    pub size: i32,
    pub url: String,
}

/// The downloads of a version.
#[derive(Debug, Clone, PartialEq, Eq)]
pub struct VersionDownloads {
    pub client: VersionDownload,
    pub server: Option<VersionDownload>,
    pub windows_server: Option<VersionDownload>,
    pub client_mappings: Option<VersionDownload>,
    pub server_mappings: Option<VersionDownload>,
}

/// The Java runtime that a version wants.
#[derive(Debug, Clone, PartialEq, Eq)]
pub struct JavaVersion {
    pub component: String,
    pub major_version: i32,
}

/// What a `JavaVersion` holds, as plain values.
pub struct JavaVersionView {
    pub component: Seq<char>,
    pub major_version: i32,
}

impl DeepView for JavaVersion {
    type V = JavaVersionView;

    open spec fn deep_view(&self) -> JavaVersionView {
        JavaVersionView {
            component: self.component.deep_view(),
            major_version: self.major_version.deep_view(),
        }
    }
}

impl View for JavaVersion {
    type V = JavaVersionView;

    open spec fn view(&self) -> JavaVersionView {
        self.deep_view()
    }
}

impl Duplicate for JavaVersion {
    fn duplicate(&self) -> (r: Self) {
        JavaVersion {
            component: self.component.duplicate(),
            major_version: self.major_version.duplicate(),
        }
    }
}

/// One download of a library.
#[derive(Debug, Clone, PartialEq, Eq)]
pub struct VersionLibraryDownloadInfo {
    pub path: String,
    pub sha1: String,
    pub size: i32,
    pub url: String,
}

/// The downloads of a library by classifier.
#[derive(Debug, Clone, PartialEq, Eq)]
pub struct VersionLibraryClassifiers {
    pub javadoc: Option<VersionLibraryDownloadInfo>,
    pub natives_linux: Option<VersionLibraryDownloadInfo>,
    pub natives_macos: Option<VersionLibraryDownloadInfo>,
    pub natives_osx: Option<VersionLibraryDownloadInfo>,
    pub natives_windows: Option<VersionLibraryDownloadInfo>,
    pub natives_windows_32: Option<VersionLibraryDownloadInfo>,
    pub natives_windows_64: Option<VersionLibraryDownloadInfo>,
    pub linux_x86_64: Option<VersionLibraryDownloadInfo>,
    pub sources: Option<VersionLibraryDownloadInfo>,
}

/// The natives of a library.
#[derive(Debug, Clone, PartialEq, Eq)]
pub struct VersionLibraryNatives {
    pub linux: Option<String>,
    pub osx: Option<String>,
    pub windows: Option<String>,
}

/// The downloads of a library.
#[derive(Debug, Clone, PartialEq, Eq)]
pub struct VersionLibraryDownloads {
    pub artifact: Option<VersionLibraryDownloadInfo>,
    pub classifiers: Option<VersionLibraryClassifiers>,
}

/// What to leave out when a library is unpacked.
#[derive(Debug, Clone, PartialEq, Eq)]
pub struct VersionLibraryExtract {
    pub exclude: Vec<String>,
}

/// The operating system that a rule speaks of.
#[derive(Debug, Clone, PartialEq, Eq)]
pub struct ManifestRuleOS {
    pub name: Option<String>,
    pub version: Option<String>,
    pub arch: Option<String>,
}

/// The features that a rule speaks of.
#[derive(Debug, Clone, PartialEq, Eq)]
pub struct ManifestRuleFeatures {
    pub is_demo_user: Option<bool>,
    pub has_custom_resolution: Option<bool>,
    pub has_quick_plays_support: Option<bool>,
    pub is_quick_play_singleplayer: Option<bool>,
    pub is_quick_play_multiplayer: Option<bool>,
    pub is_quick_play_realms: Option<bool>,
    /// Features that the schema does not name, each value as JSON text.
    pub unknown: StrMap<String>,
}

/// One rule of a library or an argument.
#[derive(Debug, Clone, PartialEq, Eq)]
pub struct ManifestRule {
    pub action: String,
    pub os: Option<ManifestRuleOS>,
    pub features: Option<ManifestRuleFeatures>,
}

/// A library of a version.
#[derive(Debug, Clone, PartialEq, Eq)]
pub struct VersionLibrary {
    pub name: String,
    pub downloads: VersionLibraryDownloads,
    pub natives: Option<VersionLibraryNatives>,
    pub extract: Option<VersionLibraryExtract>,
    pub rules: Option<Vec<ManifestRule>>,
}

/// The logging configuration file.
#[derive(Debug, Clone, PartialEq, Eq)]
pub struct VersionLoggingClientFile {
    pub id: String,
    pub sha1: String,
    pub size: i32,
    pub url: String,
}

/// The logging of the client.
#[derive(Debug, Clone, PartialEq, Eq)]
pub struct VersionLoggingClient {
    pub argument: String,
    pub file: VersionLoggingClientFile,
    pub logging_type: String,
}

/// The logging of a version.
#[derive(Debug, Clone, PartialEq, Eq)]
pub struct VersionLogging {
    pub client: VersionLoggingClient,
}

/// The component of a Java runtime that is not named.
pub fn default_java_version_component() -> (r: String)
    ensures
        r@ == "jre-legacy"@,
{
    "jre-legacy".to_owned()
}

/// The major version of a Java runtime that is not named.
pub fn default_java_version_major_version() -> (r: i32)
    ensures
        r == 8,
{
    8
}

impl Default for JavaVersion {
    fn default() -> (r: Self)
        ensures
            r@.component == "jre-legacy"@,
            r@.major_version == 8,
    {
        JavaVersion {
            component: default_java_version_component(),
            major_version: default_java_version_major_version(),
        }
    }
}

/// An argument: plain text, or a value under rules.
#[derive(Debug, Clone, PartialEq, Eq)]
pub enum VersionArgument {
    String(String),
    Object(VersionArgumentObject),
}

/// The value of an argument: one text, or several.
#[derive(Debug, Clone, PartialEq, Eq)]
pub enum VersionArgumentValue {
    String(String),
    Array(Vec<String>),
}

/// An argument of a version that an installer embeds: plain text, or something
/// else.
#[derive(Debug, Clone, PartialEq, Eq)]
pub enum MojangArgument {
    String(String),
    Object(MojangArgumentObject),
}

/// An argument that holds under rules.
#[derive(Debug, Clone, PartialEq, Eq)]
pub struct VersionArgumentObject {
    pub rules: Vec<ManifestRule>,
    pub value: VersionArgumentValue,
}

/// The arguments of a version.
#[derive(Debug, Clone, PartialEq, Eq)]
pub struct VersionArguments {
    pub game: Vec<VersionArgument>,
    pub jvm: Vec<VersionArgument>,
}

/// The document of one version of the game.
#[derive(Debug, Clone, PartialEq, Eq)]
pub struct MinecraftVersion {
    pub asset_index: AssetIndex,
    pub assets: String,
    pub compliance_level: Option<i32>,
    pub downloads: Option<VersionDownloads>,
    pub id: String,
    pub java_version: Option<JavaVersion>,
    pub libraries: Vec<VersionLibrary>,
    pub logging: Option<VersionLogging>,
    pub main_class: String,
    pub minecraft_arguments: Option<String>,
    pub arguments: Option<VersionArguments>,
    pub minimum_launcher_version: i32,
    pub release_time: String,
    pub time: String,
    pub release_type: String,
}

/// An experimental version.
#[derive(Debug, Clone, PartialEq, Eq)]
pub struct ExperimentEntry {
    pub id: String,
    pub url: String,
    pub wiki: Option<String>,
}

/// The experimental versions.
#[derive(Debug, Clone, PartialEq, Eq)]
pub struct ExperimentIndex {
    pub experiments: Vec<ExperimentEntry>,
}

/// An old snapshot.
#[derive(Debug, Clone, PartialEq, Eq)]
pub struct OldSnapshotEntry {
    pub id: String,
    pub url: String,
    pub wiki: Option<String>,
    pub jar: String,
    pub sha1: String,
    pub size: i32,
}

/// The old snapshots.
#[derive(Debug, Clone, PartialEq, Eq)]
pub struct OldSnapshotIndex {
    pub old_snapshots: Vec<OldSnapshotEntry>,
}

/// What is set by hand for an old version.
#[derive(Debug, Clone, PartialEq, Eq)]
pub struct LegacyOverrideEntry {
    pub main_class: Option<String>,
    pub applet_class: Option<String>,
    pub release_time: Option<Timestamp>,
    pub additional_traits: Option<Vec<String>>,
    pub additional_jvm_args: Option<Vec<String>>,
}

/// What a `LegacyOverrideEntry` holds, as plain values.
pub struct LegacyOverrideEntryView {
    pub main_class: Option<Seq<char>>,
    pub applet_class: Option<Seq<char>>,
    pub release_time: Option<Timestamp>,
    pub additional_traits: Option<Seq<Seq<char>>>,
    pub additional_jvm_args: Option<Seq<Seq<char>>>,
}

impl DeepView for LegacyOverrideEntry {
    type V = LegacyOverrideEntryView;

    open spec fn deep_view(&self) -> LegacyOverrideEntryView {
        LegacyOverrideEntryView {
            main_class: self.main_class.deep_view(),
            applet_class: self.applet_class.deep_view(),
            release_time: self.release_time.deep_view(),
            additional_traits: self.additional_traits.deep_view(),
            additional_jvm_args: self.additional_jvm_args.deep_view(),
        }
    }
}

impl View for LegacyOverrideEntry {
    type V = LegacyOverrideEntryView;

    open spec fn view(&self) -> LegacyOverrideEntryView {
        self.deep_view()
    }
}

impl Duplicate for LegacyOverrideEntry {
    fn duplicate(&self) -> (r: Self) {
        LegacyOverrideEntry {
            main_class: self.main_class.duplicate(),
            applet_class: self.applet_class.duplicate(),
            release_time: self.release_time.duplicate(),
            additional_traits: self.additional_traits.duplicate(),
            additional_jvm_args: self.additional_jvm_args.duplicate(),
        }
    }
}

/// What is set by hand for old versions, by id.
#[derive(Debug, Clone, PartialEq, Eq)]
pub struct LegacyOverrideIndex {
    pub versions: StrMap<LegacyOverrideEntry>,
}

/// A patch for the libraries that it names.
#[derive(Debug, Clone, PartialEq, Eq)]
pub struct LibraryPatch {
    pub patch_match: Vec<GradleSpecifier>,
    pub patch_override: Option<Library>,
    pub additional_libraries: Option<Vec<Library>>,
    pub patch_additional_libraries: bool,
}

/// A list of patches.
#[derive(Debug, Clone, PartialEq, Eq)]
pub struct LibraryPatches {
    pub root: Vec<LibraryPatch>,
}

/// An argument that is no plain text; nothing of it is kept.
#[derive(Debug, Clone, PartialEq, Eq)]
pub struct MojangArgumentObject {}

/// The arguments of a version that an installer embeds.
#[derive(Debug, Clone, PartialEq, Eq)]
pub struct MojangArguments {
    pub game: Option<Vec<MojangArgument>>,
    pub jvm: Option<Vec<MojangArgument>>,
}

/// The logging configuration file.
#[derive(Debug, Clone, PartialEq, Eq)]
pub struct MojangLoggingArtifact {
    pub id: String,
}

/// What a `MojangLoggingArtifact` holds, as plain values.
pub struct MojangLoggingArtifactView {
    pub id: Seq<char>,
}

impl DeepView for MojangLoggingArtifact {
    type V = MojangLoggingArtifactView;

    open spec fn deep_view(&self) -> MojangLoggingArtifactView {
        MojangLoggingArtifactView {
            id: self.id.deep_view(),
        }
    }
}

impl View for MojangLoggingArtifact {
    type V = MojangLoggingArtifactView;

    open spec fn view(&self) -> MojangLoggingArtifactView {
        self.deep_view()
    }
}

impl Duplicate for MojangLoggingArtifact {
    fn duplicate(&self) -> (r: Self) {
        MojangLoggingArtifact {
            id: self.id.duplicate(),
        }
    }
}

/// The logging of a version that an installer embeds.
#[derive(Debug, Clone, PartialEq, Eq)]
pub struct MojangLogging {
    pub file: MojangLoggingArtifact,
    pub argument: String,
    pub logging_type: String,
}

/// What a `MojangLogging` holds, as plain values.
pub struct MojangLoggingView {
    pub file: MojangLoggingArtifactView,
    pub argument: Seq<char>,
    pub logging_type: Seq<char>,
}

impl DeepView for MojangLogging {
    type V = MojangLoggingView;

    open spec fn deep_view(&self) -> MojangLoggingView {
        MojangLoggingView {
            file: self.file.deep_view(),
            argument: self.argument.deep_view(),
            logging_type: self.logging_type.deep_view(),
        }
    }
}

impl View for MojangLogging {
    type V = MojangLoggingView;

    open spec fn view(&self) -> MojangLoggingView {
        self.deep_view()
    }
}

impl Duplicate for MojangLogging {
    fn duplicate(&self) -> (r: Self) {
        MojangLogging {
            file: self.file.duplicate(),
            argument: self.argument.duplicate(),
            logging_type: self.logging_type.duplicate(),
        }
    }
}

/// The version document that an installer embeds.
#[derive(Debug, Clone, PartialEq, Eq)]
pub struct MojangVersion {
    pub comment: Option<Vec<String>>,
    pub id: String,
    pub arguments: Option<MojangArguments>,
    pub asset_index: Option<MojangAssets>,
    pub assets: Option<String>,
    pub downloads: Option<StrMap<MojangArtifactBase>>,
    pub libraries: Option<Vec<MojangLibrary>>,
    pub main_class: Option<String>,
    pub applet_class: Option<String>,
    pub process_arguments: Option<String>,
    pub minecraft_arguments: Option<String>,
    pub minimum_launcher_version: Option<i32>,
    pub release_time: Option<Timestamp>,
    pub time: Option<Timestamp>,
    pub version_type: Option<String>,
    pub inherits_from: Option<String>,
    pub logging: Option<StrMap<MojangLogging>>,
    pub compliance_level: Option<i32>,
    pub java_version: Option<JavaVersion>,
}

/// Whether the patch names the library `name`.
pub open spec fn names(
    patch_match: Seq<GradleSpecifierView>,
    name: Option<GradleSpecifierView>,
) -> bool {
    match name {
        Some(n) => patch_match.contains(n),
        None => false,
    }
}

impl LibraryPatch {
    /// Whether the patch is for the library `target`: the library has a name,
    /// and the patch names it.
    #[verifier::loop_isolation(false)]
    pub fn applies(&self, target: &Library) -> (r: bool)
        ensures
            r == names(self.patch_match.deep_view(), target@.name),
    {
        if let Some(name) = &target.name {
            let mut i: usize = 0;
            while i < self.patch_match.len()
                invariant
                    i <= self.patch_match.len(),
                    forall|k: int| 0 <= k < i ==> self.patch_match.deep_view()[k] != name@,
                decreases self.patch_match.len() - i,
            {
                if self.patch_match[i].same_as(name) {
                    assert(self.patch_match.deep_view()[i as int] == name@);
                    assert(self.patch_match.deep_view().contains(name@));
                    return true;
                }
                i += 1;
            }
            false
        } else {
            false
        }
    }
}

/// The default of `LibraryPatch::patch_additional_libraries`.
pub fn default_library_patch_patch_additional_libraries() -> (r: bool)
    ensures
        !r,
{
    false
}

/// The list `base`, or an empty one, followed by `added`.
pub open spec fn extended(base: Option<Seq<Seq<char>>>, added: Option<Seq<Seq<char>>>) -> Option<
    Seq<Seq<char>>,
> {
    match added {
        Some(a) => Some(
            (match base {
                Some(b) => b,
                None => Seq::empty(),
            }) + a,
        ),
        None => base,
    }
}

/// What a version is after the entry `e` was applied onto it. The main class
/// and the applet class are those of the entry, set or not. The release time is
/// that of the entry where it has one. The traits and the Java arguments of
/// the entry are added. For a legacy version the libraries and the game
/// arguments go.
pub open spec fn overridden(v: MetaVersionView, e: LegacyOverrideEntryView, legacy: bool) -> MetaVersionView {
    MetaVersionView {
        main_class: e.main_class,
        applet_class: e.applet_class,
        release_time: if e.release_time is Some {
            e.release_time
        } else {
            v.release_time
        },
        additional_traits: extended(v.additional_traits, e.additional_traits),
        additional_jvm_args: extended(v.additional_jvm_args, e.additional_jvm_args),
        libraries: if legacy {
            None
        } else {
            v.libraries
        },
        minecraft_arguments: if legacy {
            None
        } else {
            v.minecraft_arguments
        },
        ..v
    }
}

/// Adds `added`, where there is any, to `list`, which starts empty where it was
/// not there.
fn extend_list(list: &mut Option<Vec<String>>, added: Option<Vec<String>>)
    ensures
        final(list).deep_view() == extended(old(list).deep_view(), added.deep_view()),
{
    if let Some(more) = added {
        let mut base = match list.take() {
            Some(b) => b,
            None => Vec::new(),
        };
        let ghost before = base.deep_view();
        crate::models::merge::vec::append(&mut base, more);
        *list = Some(base);
        proof {
            if *old(list) is None {
                assert(before =~= Seq::<Seq<char>>::empty());
            }
        }
    }
}

impl LegacyOverrideEntry {
    /// Applies the entry onto a version.
    pub fn apply_onto_meta_version(self, meta_version: &mut MetaVersion, legacy: bool)
        ensures
            final(meta_version)@ == overridden(old(meta_version)@, self@, legacy),
    {
        meta_version.main_class = self.main_class;
        meta_version.applet_class = self.applet_class;
        if let Some(release_time) = self.release_time {
            meta_version.release_time = Some(release_time);
        }
        extend_list(&mut meta_version.additional_traits, self.additional_traits);
        extend_list(&mut meta_version.additional_jvm_args, self.additional_jvm_args);
        if legacy {
            meta_version.libraries = None;
            meta_version.minecraft_arguments = None;
        }
    }
}

/// The Java major versions that can stand in for `major`, it first.
pub open spec fn compatible_majors(major: i32) -> Seq<i32> {
    if major == 16 {
        seq![16i32, 17i32]
    } else {
        seq![major]
    }
}

/// The main jar of the version `id`: the client download as the artifact
/// `com.mojang:minecraft:<id>:client`.
pub open spec fn main_jar_of(id: Seq<char>, client: crate::models::MojangArtifactBaseView) -> LibraryView {
    LibraryView {
        extract: None,
        name: Some(
            GradleSpecifierView {
                group: "com.mojang"@,
                artifact: "minecraft"@,
                version: id,
                extension: None,
                classifier: Some("client"@),
            },
        ),
        downloads: Some(
            MojangLibraryDownloadsView {
                artifact: Some(
                    MojangArtifactView {
                        sha1: client.sha1,
                        size: client.size,
                        url: client.url,
                        path: None,
                    },
                ),
                classifiers: None,
            },
        ),
        natives: None,
        rules: None,
        url: None,
        mmc_hint: None,
    }
}

/// The type under which a version is published: `experiment` for `pending`.
pub open spec fn published_type(t: Option<Seq<char>>) -> Option<Seq<char>> {
    match t {
        Some(s) => if s == "pending"@ {
            Some("experiment"@)
        } else {
            Some(s)
        },
        None => None,
    }
}

/// The libraries of upstream as libraries of the published index.
pub open spec fn libraries_of(libs: Option<Seq<MojangLibraryView>>) -> Option<Seq<LibraryView>> {
    match libs {
        Some(l) => Some(Seq::new(l.len(), |i: int| library_of(l[i]))),
        None => None,
    }
}

impl MojangVersion {
    /// The version can be turned into a published one: where it has an id it
    /// has a client download, and its compliance level, where it has one, is 0
    /// or 1.
    pub open spec fn convertible(&self) -> bool {
        &&& self.id@.len() > 0 ==> (self.downloads.deep_view() matches Some(d) && d.dom().contains(
            "client"@,
        ))
        &&& self.compliance_level matches Some(l) ==> l == 0 || l == 1
    }

    /// Whether the version can be turned into a published one.
    pub fn can_convert(&self) -> (r: bool)
        ensures
            r == self.convertible(),
    {
        let has_client = if self.id.as_str().is_empty() {
            true
        } else {
            match &self.downloads {
                Some(d) => d.contains_key("client"),
                None => false,
            }
        };
        let level_known = match self.compliance_level {
            Some(l) => l == 0 || l == 1,
            None => true,
        };
        has_client && level_known
    }

    /// The version as the published index describes it, under the name `name`,
    /// the uid `uid` and the version `version`.
    pub fn to_meta_version(&self, name: &str, uid: &str, version: &str) -> (r: MetaVersion)
        requires
            self.convertible(),
        ensures
            r@ == (MetaVersionView {
                format_version: META_FORMAT_VERSION,
                name: name@,
                uid: uid@,
                version: version@,
                asset_index: self.asset_index.deep_view(),
                libraries: libraries_of(self.libraries.deep_view()),
                main_class: self.main_class.deep_view(),
                minecraft_arguments: self.minecraft_arguments.deep_view(),
                release_time: self.release_time,
                version_type: published_type(self.version_type.deep_view()),
                compatible_java_majors: Some(
                    compatible_majors(
                        match self.java_version {
                            Some(j) => j.major_version,
                            None => DEFAULT_JAVA_MAJOR,
                        },
                    ),
                ),
                additional_traits: if self.compliance_level == Some(1i32) {
                    Some(Seq::empty())
                } else {
                    None
                },
                main_jar: if self.id@.len() > 0 {
                    Some(main_jar_of(self.id@, self.downloads.deep_view()->0["client"@]))
                } else {
                    None
                },
                order: None,
                volatile: None,
                requires: None,
                conflicts: None,
                maven_files: None,
                jar_mods: None,
                applet_class: None,
                additional_tweakers: None,
                additional_jvm_args: None,
            }),
    {
        let main_jar = if !self.id.as_str().is_empty() {
            match &self.downloads {
                Some(downloads) => match downloads.get("client") {
                    Some(client) => Some(
                        Library {
                            name: Some(
                                GradleSpecifier {
                                    group: "com.mojang".to_owned(),
                                    artifact: "minecraft".to_owned(),
                                    version: self.id.clone(),
                                    classifier: Some("client".to_owned()),
                                    extension: None,
                                },
                            ),
                            downloads: Some(
                                MojangLibraryDownloads {
                                    artifact: Some(
                                        MojangArtifact {
                                            url: client.url.clone(),
                                            sha1: client.sha1.duplicate(),
                                            size: client.size,
                                            path: None,
                                        },
                                    ),
                                    classifiers: None,
                                },
                            ),
                            extract: None,
                            natives: None,
                            rules: None,
                            url: None,
                            mmc_hint: None,
                        },
                    ),
                    None => None,
                },
                None => None,
            }
        } else {
            None
        };
        let additional_traits: Option<Vec<String>> = match self.compliance_level {
            Some(l) => if l == 1 {
                Some(Vec::new())
            } else {
                None
            },
            None => None,
        };
        let major = match &self.java_version {
            Some(j) => j.major_version,
            None => DEFAULT_JAVA_MAJOR,
        };
        let mut majors: Vec<i32> = Vec::new();
        majors.push(major);
        if major == 16 {
            majors.push(17);
        }
        assert(majors.deep_view() =~= compatible_majors(major));
        let version_type = match &self.version_type {
            Some(t) => if str_eq(t.as_str(), "pending") {
                Some("experiment".to_owned())
            } else {
                Some(t.clone())
            },
            None => None,
        };
        let libraries = match &self.libraries {
            Some(libs) => {
                let mut out: Vec<Library> = Vec::new();
                let mut i: usize = 0;
                while i < libs.len()
                    invariant
                        i <= libs.len(),
                        out@.len() == i,
                        forall|k: int| 0 <= k < i ==> out@[k]@ == library_of(libs@[k]@),
                    decreases libs.len() - i,
                {
                    out.push(Library::from_mojang_ref(&libs[i]));
                    i += 1;
                }
                assert(out.deep_view() =~= Seq::new(
                    libs.deep_view().len(),
                    |i: int| library_of(libs.deep_view()[i]),
                ));
                Some(out)
            },
            None => None,
        };
        assert(additional_traits.deep_view() == if self.compliance_level == Some(1i32) {
            Some(Seq::<Seq<char>>::empty())
        } else {
            None
        }) by {
            if additional_traits is Some {
                assert(additional_traits->0.deep_view() =~= Seq::<Seq<char>>::empty());
            }
        }
        MetaVersion {
            format_version: META_FORMAT_VERSION,
            name: name.to_owned(),
            uid: uid.to_owned(),
            version: version.to_owned(),
            asset_index: self.asset_index.duplicate(),
            libraries,
            main_class: self.main_class.duplicate(),
            minecraft_arguments: self.minecraft_arguments.duplicate(),
            release_time: self.release_time,
            version_type,
            compatible_java_majors: Some(majors),
            additional_traits,
            main_jar,
            order: None,
            volatile: None,
            requires: None,
            conflicts: None,
            maven_files: None,
            jar_mods: None,
            applet_class: None,
            additional_tweakers: None,
            additional_jvm_args: None,
        }
    }
}

} // verus!
