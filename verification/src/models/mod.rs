//! The descriptors that the synchronisation reads, keeps and publishes.

use vstd::prelude::*;
use crate::duplicate::Duplicate;
use crate::models::merge::hashmap::keys_overwritten;
use crate::models::merge::option::{recursed, replaced};
use crate::models::merge::option_hashmap::{some_overwritten, some_recursed};
use crate::models::merge::option_vec::appended;
use crate::models::merge::{hashmap, option, option_hashmap, option_vec, overwrite, overwritten, Merge};
use crate::strmap::StrMap;
use crate::text::{concat, opt_str_eq, replace_char, replaced_char, split, split_spec, str_eq};

pub mod forge;
pub mod laws;
pub mod merge;
pub mod mojang;
pub mod validation;

verus! {

/// The format of the published index.
pub const META_FORMAT_VERSION: i32 = 1;

/// An instant, with the offset from UTC under which it was written.
#[derive(Debug, Clone, Copy, PartialEq, Eq, Structural)]
pub struct Timestamp {
    /// Nanoseconds since the start of 1970, UTC.
    pub unix_nanos: i128,
    /// The offset from UTC in seconds.
    pub offset_seconds: i32,
}

impl DeepView for Timestamp {
    type V = Timestamp;

    open spec fn deep_view(&self) -> Timestamp {
        *self
    }
}

impl Duplicate for Timestamp {
    fn duplicate(&self) -> (r: Self) {
        *self
    }
}

/// What can be wrong with a descriptor.
#[derive(Debug, Clone, PartialEq, Eq)]
pub enum ModelError {
    /// The text is no Gradle specifier.
    InvalidGradleSpecifier { specifier: String },
}

impl ModelError {
    /// The message of the error.
    pub fn message(&self) -> (m: String)
        ensures
            match self {
                ModelError::InvalidGradleSpecifier { specifier } => m@ == "Invalid Gradle specifier '"@
                    + specifier@ + "'"@,
            },
    {
        match self {
            ModelError::InvalidGradleSpecifier { specifier } => {
                let mut m = concat("Invalid Gradle specifier '", specifier.as_str());
                m.append("'");
                m
            },
        }
    }
}

/// A Gradle specifier.
#[derive(Debug, PartialEq, Eq, Clone, Default)]
pub struct GradleSpecifier {
    /// Group of the artifact.
    pub group: String,
    /// Artifact name.
    pub artifact: String,
    /// Version of the artifact.
    pub version: String,
    /// File extension of the artifact.
    pub extension: Option<String>,
    /// Classifier of the artifact.
    pub classifier: Option<String>,
}

/// What a `GradleSpecifier` holds, as plain values.
pub struct GradleSpecifierView {
    pub group: Seq<char>,
    pub artifact: Seq<char>,
    pub version: Seq<char>,
    pub extension: Option<Seq<char>>,
    pub classifier: Option<Seq<char>>,
}

impl DeepView for GradleSpecifier {
    type V = GradleSpecifierView;

    open spec fn deep_view(&self) -> GradleSpecifierView {
        GradleSpecifierView {
            group: self.group.deep_view(),
            artifact: self.artifact.deep_view(),
            version: self.version.deep_view(),
            extension: self.extension.deep_view(),
            classifier: self.classifier.deep_view(),
        }
    }
}

impl View for GradleSpecifier {
    type V = GradleSpecifierView;

    open spec fn view(&self) -> GradleSpecifierView {
        self.deep_view()
    }
}

impl Duplicate for GradleSpecifier {
    fn duplicate(&self) -> (r: Self) {
        GradleSpecifier {
            group: self.group.duplicate(),
            artifact: self.artifact.duplicate(),
            version: self.version.duplicate(),
            extension: self.extension.duplicate(),
            classifier: self.classifier.duplicate(),
        }
    }
}

/// The extension of a specifier, empty where it has none.
pub open spec fn extension_text(g: GradleSpecifierView) -> Seq<char> {
    match g.extension {
        Some(e) => e,
        None => Seq::empty(),
    }
}

/// The file name of the artifact: `artifact-version[-classifier].extension`.
pub open spec fn filename_of(g: GradleSpecifierView) -> Seq<char> {
    match g.classifier {
        Some(c) => ((g.artifact.push('-') + g.version).push('-') + c).push('.') + extension_text(g),
        None => (g.artifact.push('-') + g.version).push('.') + extension_text(g),
    }
}

/// The directory of the artifact: the group with `/` for `.`, then the
/// artifact, then the version.
pub open spec fn base_of(g: GradleSpecifierView) -> Seq<char> {
    (replaced_char(g.group, '.', '/').push('/') + g.artifact).push('/') + g.version
}

/// The path of the artifact: its directory, then its file name.
pub open spec fn path_of(g: GradleSpecifierView) -> Seq<char> {
    base_of(g).push('/') + filename_of(g)
}

/// The extension as it is written out: nothing for `jar` or none, else `@` and
/// the extension.
pub open spec fn extension_suffix(g: GradleSpecifierView) -> Seq<char> {
    match g.extension {
        Some(e) => if e != "jar"@ {
            seq!['@'] + e
        } else {
            Seq::empty()
        },
        None => Seq::empty(),
    }
}

/// The specifier written out: `group:artifact:version[:classifier][@extension]`.
pub open spec fn specifier_text(g: GradleSpecifierView) -> Seq<char> {
    match g.classifier {
        Some(c) => ((g.group.push(':') + g.artifact).push(':') + g.version).push(':') + c
            + extension_suffix(g),
        None => (g.group.push(':') + g.artifact).push(':') + g.version + extension_suffix(g),
    }
}

/// What a text gives when read as a specifier. The part before the first `@`
/// is cut at each `:` into group, artifact and version, which must all be
/// there, and a classifier where there are exactly four pieces. The extension is
/// what follows the `@` where the text holds exactly one, else `jar`.
pub open spec fn specifier_of(s: Seq<char>) -> Option<GradleSpecifierView> {
    let at = split_spec(s, '@');
    let parts = split_spec(at[0], ':');
    if parts.len() < 3 {
        None
    } else {
        Some(
            GradleSpecifierView {
                group: parts[0],
                artifact: parts[1],
                version: parts[2],
                extension: Some(
                    if at.len() == 2 {
                        at[1]
                    } else {
                        "jar"@
                    },
                ),
                classifier: if parts.len() == 4 {
                    Some(parts[3])
                } else {
                    None
                },
            },
        )
    }
}

impl GradleSpecifier {
    /// Returns the file name of the artifact.
    pub fn filename(&self) -> (r: String)
        ensures
            r@ == filename_of(self@),
    {
        let mut r = self.artifact.clone();
        r.push('-');
        r.append(self.version.as_str());
        if let Some(classifier) = &self.classifier {
            r.push('-');
            r.append(classifier.as_str());
        }
        r.push('.');
        match &self.extension {
            Some(e) => {
                r.append(e.as_str());
            },
            None => {
                assert(r@ + Seq::<char>::empty() == r@);
            },
        }
        r
    }

    /// Returns the base path of the artifact.
    pub fn base(&self) -> (r: String)
        ensures
            r@ == base_of(self@),
    {
        let mut r = replace_char(self.group.as_str(), '.', '/');
        r.push('/');
        r.append(self.artifact.as_str());
        r.push('/');
        r.append(self.version.as_str());
        r
    }

    /// Returns the full path of the artifact.
    pub fn path(&self) -> (r: String)
        ensures
            r@ == path_of(self@),
    {
        let mut r = self.base();
        r.push('/');
        r.append(self.filename().as_str());
        r
    }

    /// Returns `true` if the specifier is a LWJGL artifact.
    pub fn is_lwjgl(&self) -> (r: bool)
        ensures
            r == (self@.group == "org.lwjgl"@ || self@.group == "org.lwjgl.lwjgl"@ || self@.group
                == "net.java.jinput"@ || self@.group == "net.java.jutils"@),
    {
        let g = self.group.as_str();
        str_eq(g, "org.lwjgl") || str_eq(g, "org.lwjgl.lwjgl") || str_eq(g, "net.java.jinput")
            || str_eq(g, "net.java.jutils")
    }

    /// Returns `true` if the specifier is a Log4j artifact.
    pub fn is_log4j(&self) -> (r: bool)
        ensures
            r == (self@.group == "org.apache.logging.log4j"@),
    {
        str_eq(self.group.as_str(), "org.apache.logging.log4j")
    }

    /// Whether `other` is the same specifier.
    pub fn same_as(&self, other: &GradleSpecifier) -> (r: bool)
        ensures
            r == (self@ == other@),
    {
        str_eq(self.group.as_str(), other.group.as_str()) && str_eq(
            self.artifact.as_str(),
            other.artifact.as_str(),
        ) && str_eq(self.version.as_str(), other.version.as_str()) && opt_str_eq(
            &self.extension,
            &other.extension,
        ) && opt_str_eq(&self.classifier, &other.classifier)
    }

    /// Reads a specifier from its text.
    pub fn parse(s: &str) -> (r: Result<GradleSpecifier, ModelError>)
        ensures
            match r {
                Ok(g) => specifier_of(s@) == Some(g@),
                Err(ModelError::InvalidGradleSpecifier { specifier }) => specifier_of(s@) is None
                    && specifier@ == s@,
            },
    {
        let at_split = split(s, '@');
        let components = split(at_split[0].as_str(), ':');
        assert(at_split.deep_view()[0] == at_split@[0]@);
        if components.len() < 3 {
            return Err(ModelError::InvalidGradleSpecifier { specifier: s.to_owned() });
        }
        assert(components.deep_view()[0] == components@[0]@);
        assert(components.deep_view()[1] == components@[1]@);
        assert(components.deep_view()[2] == components@[2]@);
        let group = components[0].clone();
        let artifact = components[1].clone();
        let version = components[2].clone();
        let extension = if at_split.len() == 2 {
            assert(at_split.deep_view()[1] == at_split@[1]@);
            Some(at_split[1].clone())
        } else {
            Some("jar".to_owned())
        };
        let classifier = if components.len() == 4 {
            assert(components.deep_view()[3] == components@[3]@);
            Some(components[3].clone())
        } else {
            None
        };
        Ok(GradleSpecifier { group, artifact, version, extension, classifier })
    }

    /// Writes the specifier out.
    pub fn to_string(&self) -> (r: String)
        ensures
            r@ == specifier_text(self@),
    {
        let mut r = self.group.clone();
        r.push(':');
        r.append(self.artifact.as_str());
        r.push(':');
        r.append(self.version.as_str());
        if let Some(classifier) = &self.classifier {
            r.push(':');
            r.append(classifier.as_str());
        }
        match &self.extension {
            Some(ext) => {
                if !str_eq(ext.as_str(), "jar") {
                    let ghost before = r@;
                    r.push('@');
                    r.append(ext.as_str());
                    assert(r@ == before + (seq!['@'] + ext@));
                } else {
                    assert(r@ + Seq::<char>::empty() == r@);
                }
            },
            None => {
                assert(r@ + Seq::<char>::empty() == r@);
            },
        }
        r
    }
}

impl core::str::FromStr for GradleSpecifier {
    type Err = ModelError;

    /// Reads a specifier from its text, as `parse` does.
    fn from_str(s: &str) -> (r: Result<Self, Self::Err>)
        ensures
            match r {
                Ok(g) => specifier_of(s@) == Some(g@),
                Err(ModelError::InvalidGradleSpecifier { specifier }) => specifier_of(s@) is None
                    && specifier@ == s@,
            },
    {
        GradleSpecifier::parse(s)
    }
}

/// A downloadable artifact, with whatever else upstream says of it.
#[derive(Debug, Clone, PartialEq, Eq)]
pub struct MojangArtifactBase {
    pub sha1: Option<String>,
    pub size: Option<i32>,
    pub url: String,
    /// Fields that the schema does not name, each value as JSON text.
    pub unknown: StrMap<String>,
}

/// What a `MojangArtifactBase` holds, as plain values.
pub struct MojangArtifactBaseView {
    pub sha1: Option<Seq<char>>,
    pub size: Option<i32>,
    pub url: Seq<char>,
    pub unknown: Map<Seq<char>, Seq<char>>,
}

impl DeepView for MojangArtifactBase {
    type V = MojangArtifactBaseView;

    open spec fn deep_view(&self) -> MojangArtifactBaseView {
        MojangArtifactBaseView {
            sha1: self.sha1.deep_view(),
            size: self.size.deep_view(),
            url: self.url.deep_view(),
            unknown: self.unknown.deep_view(),
        }
    }
}

impl View for MojangArtifactBase {
    type V = MojangArtifactBaseView;

    open spec fn view(&self) -> MojangArtifactBaseView {
        self.deep_view()
    }
}

impl Merge for MojangArtifactBase {
    open spec fn merged(
        base: MojangArtifactBaseView,
        overlay: MojangArtifactBaseView,
    ) -> MojangArtifactBaseView {
        MojangArtifactBaseView {
            sha1: replaced(base.sha1, overlay.sha1),
            size: replaced(base.size, overlay.size),
            url: overwritten(base.url, overlay.url),
            unknown: keys_overwritten(base.unknown, overlay.unknown),
        }
    }

    fn merge(&mut self, other: Self) {
        option::overwrite_some(&mut self.sha1, other.sha1);
        option::overwrite_some(&mut self.size, other.size);
        overwrite(&mut self.url, other.url);
        hashmap::overwrite_key(&mut self.unknown, other.unknown);
    }
}

impl Duplicate for MojangArtifactBase {
    fn duplicate(&self) -> (r: Self) {
        MojangArtifactBase {
            sha1: self.sha1.duplicate(),
            size: self.size.duplicate(),
            url: self.url.duplicate(),
            unknown: self.unknown.duplicate(),
        }
    }
}

/// The asset index of a version.
#[derive(Debug, Clone, PartialEq, Eq)]
pub struct MojangAssets {
    pub sha1: Option<String>,
    pub size: Option<i32>,
    pub url: String,
    pub id: String,
    pub total_size: i32,
}

/// What a `MojangAssets` holds, as plain values.
pub struct MojangAssetsView {
    pub sha1: Option<Seq<char>>,
    pub size: Option<i32>,
    pub url: Seq<char>,
    pub id: Seq<char>,
    pub total_size: i32,
}

impl DeepView for MojangAssets {
    type V = MojangAssetsView;

    open spec fn deep_view(&self) -> MojangAssetsView {
        MojangAssetsView {
            sha1: self.sha1.deep_view(),
            size: self.size.deep_view(),
            url: self.url.deep_view(),
            id: self.id.deep_view(),
            total_size: self.total_size.deep_view(),
        }
    }
}

impl View for MojangAssets {
    type V = MojangAssetsView;

    open spec fn view(&self) -> MojangAssetsView {
        self.deep_view()
    }
}

impl Merge for MojangAssets {
    open spec fn merged(base: MojangAssetsView, overlay: MojangAssetsView) -> MojangAssetsView {
        MojangAssetsView {
            sha1: replaced(base.sha1, overlay.sha1),
            size: replaced(base.size, overlay.size),
            url: overwritten(base.url, overlay.url),
            id: overwritten(base.id, overlay.id),
            total_size: overwritten(base.total_size, overlay.total_size),
        }
    }

    fn merge(&mut self, other: Self) {
        option::overwrite_some(&mut self.sha1, other.sha1);
        option::overwrite_some(&mut self.size, other.size);
        overwrite(&mut self.url, other.url);
        overwrite(&mut self.id, other.id);
        overwrite(&mut self.total_size, other.total_size);
    }
}

impl Duplicate for MojangAssets {
    fn duplicate(&self) -> (r: Self) {
        MojangAssets {
            sha1: self.sha1.duplicate(),
            size: self.size.duplicate(),
            url: self.url.duplicate(),
            id: self.id.duplicate(),
            total_size: self.total_size.duplicate(),
        }
    }
}

/// A downloadable artifact of a library.
#[derive(Debug, Clone, PartialEq, Eq)]
pub struct MojangArtifact {
    pub sha1: Option<String>,
    pub size: Option<i32>,
    pub url: String,
    pub path: Option<String>,
}

/// What a `MojangArtifact` holds, as plain values.
pub struct MojangArtifactView {
    pub sha1: Option<Seq<char>>,
    pub size: Option<i32>,
    pub url: Seq<char>,
    pub path: Option<Seq<char>>,
}

impl DeepView for MojangArtifact {
    type V = MojangArtifactView;

    open spec fn deep_view(&self) -> MojangArtifactView {
        MojangArtifactView {
            sha1: self.sha1.deep_view(),
            size: self.size.deep_view(),
            url: self.url.deep_view(),
            path: self.path.deep_view(),
        }
    }
}

impl View for MojangArtifact {
    type V = MojangArtifactView;

    open spec fn view(&self) -> MojangArtifactView {
        self.deep_view()
    }
}

impl Merge for MojangArtifact {
    open spec fn merged(
        base: MojangArtifactView,
        overlay: MojangArtifactView,
    ) -> MojangArtifactView {
        MojangArtifactView {
            sha1: replaced(base.sha1, overlay.sha1),
            size: replaced(base.size, overlay.size),
            url: overwritten(base.url, overlay.url),
            path: replaced(base.path, overlay.path),
        }
    }

    fn merge(&mut self, other: Self) {
        option::overwrite_some(&mut self.sha1, other.sha1);
        option::overwrite_some(&mut self.size, other.size);
        overwrite(&mut self.url, other.url);
        option::overwrite_some(&mut self.path, other.path);
    }
}

impl Duplicate for MojangArtifact {
    fn duplicate(&self) -> (r: Self) {
        MojangArtifact {
            sha1: self.sha1.duplicate(),
            size: self.size.duplicate(),
            url: self.url.duplicate(),
            path: self.path.duplicate(),
        }
    }
}

/// What to leave out when a library is unpacked.
#[derive(Debug, Clone, PartialEq, Eq)]
pub struct MojangLibraryExtractRules {
    pub exclude: Vec<String>,
}

/// What a `MojangLibraryExtractRules` holds, as plain values.
pub struct MojangLibraryExtractRulesView {
    pub exclude: Seq<Seq<char>>,
}

impl DeepView for MojangLibraryExtractRules {
    type V = MojangLibraryExtractRulesView;

    open spec fn deep_view(&self) -> MojangLibraryExtractRulesView {
        MojangLibraryExtractRulesView {
            exclude: self.exclude.deep_view(),
        }
    }
}

impl View for MojangLibraryExtractRules {
    type V = MojangLibraryExtractRulesView;

    open spec fn view(&self) -> MojangLibraryExtractRulesView {
        self.deep_view()
    }
}

impl Merge for MojangLibraryExtractRules {
    open spec fn merged(
        base: MojangLibraryExtractRulesView,
        overlay: MojangLibraryExtractRulesView,
    ) -> MojangLibraryExtractRulesView {
        MojangLibraryExtractRulesView {
            exclude: base.exclude + overlay.exclude,
        }
    }

    fn merge(&mut self, other: Self) {
        crate::models::merge::vec::append(&mut self.exclude, other.exclude);
    }
}

impl Duplicate for MojangLibraryExtractRules {
    fn duplicate(&self) -> (r: Self) {
        MojangLibraryExtractRules {
            exclude: self.exclude.duplicate(),
        }
    }
}

/// The downloads of a library: its main artifact and those by classifier.
#[derive(Debug, Clone, PartialEq, Eq)]
pub struct MojangLibraryDownloads {
    pub artifact: Option<MojangArtifact>,
    pub classifiers: Option<StrMap<MojangArtifact>>,
}

/// What a `MojangLibraryDownloads` holds, as plain values.
pub struct MojangLibraryDownloadsView {
    pub artifact: Option<MojangArtifactView>,
    pub classifiers: Option<Map<Seq<char>, MojangArtifactView>>,
}

impl DeepView for MojangLibraryDownloads {
    type V = MojangLibraryDownloadsView;

    open spec fn deep_view(&self) -> MojangLibraryDownloadsView {
        MojangLibraryDownloadsView {
            artifact: self.artifact.deep_view(),
            classifiers: self.classifiers.deep_view(),
        }
    }
}

impl View for MojangLibraryDownloads {
    type V = MojangLibraryDownloadsView;

    open spec fn view(&self) -> MojangLibraryDownloadsView {
        self.deep_view()
    }
}

impl Merge for MojangLibraryDownloads {
    open spec fn merged(
        base: MojangLibraryDownloadsView,
        overlay: MojangLibraryDownloadsView,
    ) -> MojangLibraryDownloadsView {
        MojangLibraryDownloadsView {
            artifact: replaced(base.artifact, overlay.artifact),
            classifiers: some_recursed::<MojangArtifact>(base.classifiers, overlay.classifiers),
        }
    }

    fn merge(&mut self, other: Self) {
        option::overwrite_some(&mut self.artifact, other.artifact);
        option_hashmap::recurse_some(&mut self.classifiers, other.classifiers);
    }
}

impl Duplicate for MojangLibraryDownloads {
    fn duplicate(&self) -> (r: Self) {
        MojangLibraryDownloads {
            artifact: self.artifact.duplicate(),
            classifiers: self.classifiers.duplicate(),
        }
    }
}

/// The operating system that a rule speaks of.
#[derive(Debug, Clone, PartialEq, Eq)]
pub struct OSRule {
    pub name: String,
    pub version: Option<String>,
}

/// What a `OSRule` holds, as plain values.
pub struct OSRuleView {
    pub name: Seq<char>,
    pub version: Option<Seq<char>>,
}

impl DeepView for OSRule {
    type V = OSRuleView;

    open spec fn deep_view(&self) -> OSRuleView {
        OSRuleView {
            name: self.name.deep_view(),
            version: self.version.deep_view(),
        }
    }
}

impl View for OSRule {
    type V = OSRuleView;

    open spec fn view(&self) -> OSRuleView {
        self.deep_view()
    }
}

impl Merge for OSRule {
    open spec fn merged(base: OSRuleView, overlay: OSRuleView) -> OSRuleView {
        OSRuleView {
            name: overwritten(base.name, overlay.name),
            version: replaced(base.version, overlay.version),
        }
    }

    fn merge(&mut self, other: Self) {
        overwrite(&mut self.name, other.name);
        option::overwrite_some(&mut self.version, other.version);
    }
}

impl Duplicate for OSRule {
    fn duplicate(&self) -> (r: Self) {
        OSRule {
            name: self.name.duplicate(),
            version: self.version.duplicate(),
        }
    }
}

/// One rule: an action, and the operating system it holds for.
#[derive(Debug, Clone, PartialEq, Eq)]
pub struct MojangRule {
    pub action: String,
    pub os: Option<OSRule>,
}

/// What a `MojangRule` holds, as plain values.
pub struct MojangRuleView {
    pub action: Seq<char>,
    pub os: Option<OSRuleView>,
}

impl DeepView for MojangRule {
    type V = MojangRuleView;

    open spec fn deep_view(&self) -> MojangRuleView {
        MojangRuleView {
            action: self.action.deep_view(),
            os: self.os.deep_view(),
        }
    }
}

impl View for MojangRule {
    type V = MojangRuleView;

    open spec fn view(&self) -> MojangRuleView {
        self.deep_view()
    }
}

impl Merge for MojangRule {
    open spec fn merged(base: MojangRuleView, overlay: MojangRuleView) -> MojangRuleView {
        MojangRuleView {
            action: overwritten(base.action, overlay.action),
            os: recursed::<OSRule>(base.os, overlay.os),
        }
    }

    fn merge(&mut self, other: Self) {
        overwrite(&mut self.action, other.action);
        option::recurse(&mut self.os, other.os);
    }
}

impl Duplicate for MojangRule {
    fn duplicate(&self) -> (r: Self) {
        MojangRule {
            action: self.action.duplicate(),
            os: self.os.duplicate(),
        }
    }
}

/// A list of rules.
#[derive(Debug, Clone, PartialEq, Eq)]
pub struct MojangRules {
    pub root: Vec<MojangRule>,
}

/// What a `MojangRules` holds, as plain values.
pub struct MojangRulesView {
    pub root: Seq<MojangRuleView>,
}

impl DeepView for MojangRules {
    type V = MojangRulesView;

    open spec fn deep_view(&self) -> MojangRulesView {
        MojangRulesView {
            root: self.root.deep_view(),
        }
    }
}

impl View for MojangRules {
    type V = MojangRulesView;

    open spec fn view(&self) -> MojangRulesView {
        self.deep_view()
    }
}

impl Merge for MojangRules {
    open spec fn merged(base: MojangRulesView, overlay: MojangRulesView) -> MojangRulesView {
        MojangRulesView {
            root: base.root + overlay.root,
        }
    }

    fn merge(&mut self, other: Self) {
        crate::models::merge::vec::append(&mut self.root, other.root);
    }
}

impl Duplicate for MojangRules {
    fn duplicate(&self) -> (r: Self) {
        MojangRules {
            root: self.root.duplicate(),
        }
    }
}

/// A library as upstream describes it.
#[derive(Debug, Clone, PartialEq, Eq, Default)]
pub struct MojangLibrary {
    pub extract: Option<MojangLibraryExtractRules>,
    pub name: Option<GradleSpecifier>,
    pub downloads: Option<MojangLibraryDownloads>,
    pub natives: Option<StrMap<String>>,
    pub rules: Option<MojangRules>,
}

/// What a `MojangLibrary` holds, as plain values.
pub struct MojangLibraryView {
    pub extract: Option<MojangLibraryExtractRulesView>,
    pub name: Option<GradleSpecifierView>,
    pub downloads: Option<MojangLibraryDownloadsView>,
    pub natives: Option<Map<Seq<char>, Seq<char>>>,
    pub rules: Option<MojangRulesView>,
}

impl DeepView for MojangLibrary {
    type V = MojangLibraryView;

    open spec fn deep_view(&self) -> MojangLibraryView {
        MojangLibraryView {
            extract: self.extract.deep_view(),
            name: self.name.deep_view(),
            downloads: self.downloads.deep_view(),
            natives: self.natives.deep_view(),
            rules: self.rules.deep_view(),
        }
    }
}

impl View for MojangLibrary {
    type V = MojangLibraryView;

    open spec fn view(&self) -> MojangLibraryView {
        self.deep_view()
    }
}

impl Merge for MojangLibrary {
    open spec fn merged(base: MojangLibraryView, overlay: MojangLibraryView) -> MojangLibraryView {
        MojangLibraryView {
            extract: recursed::<MojangLibraryExtractRules>(base.extract, overlay.extract),
            name: replaced(base.name, overlay.name),
            downloads: recursed::<MojangLibraryDownloads>(base.downloads, overlay.downloads),
            natives: some_overwritten(base.natives, overlay.natives),
            rules: recursed::<MojangRules>(base.rules, overlay.rules),
        }
    }

    fn merge(&mut self, other: Self) {
        option::recurse(&mut self.extract, other.extract);
        option::overwrite_some(&mut self.name, other.name);
        option::recurse(&mut self.downloads, other.downloads);
        option_hashmap::overwrite_key_some(&mut self.natives, other.natives);
        option::recurse(&mut self.rules, other.rules);
    }
}

impl Duplicate for MojangLibrary {
    fn duplicate(&self) -> (r: Self) {
        MojangLibrary {
            extract: self.extract.duplicate(),
            name: self.name.duplicate(),
            downloads: self.downloads.duplicate(),
            natives: self.natives.duplicate(),
            rules: self.rules.duplicate(),
        }
    }
}

/// A library as the published index describes it.
#[derive(Debug, Clone, PartialEq, Eq, Default)]
pub struct Library {
    pub extract: Option<MojangLibraryExtractRules>,
    pub name: Option<GradleSpecifier>,
    pub downloads: Option<MojangLibraryDownloads>,
    pub natives: Option<StrMap<String>>,
    pub rules: Option<MojangRules>,
    pub url: Option<String>,
    pub mmc_hint: Option<String>,
}

/// What a `Library` holds, as plain values.
pub struct LibraryView {
    pub extract: Option<MojangLibraryExtractRulesView>,
    pub name: Option<GradleSpecifierView>,
    pub downloads: Option<MojangLibraryDownloadsView>,
    pub natives: Option<Map<Seq<char>, Seq<char>>>,
    pub rules: Option<MojangRulesView>,
    pub url: Option<Seq<char>>,
    pub mmc_hint: Option<Seq<char>>,
}

impl DeepView for Library {
    type V = LibraryView;

    open spec fn deep_view(&self) -> LibraryView {
        LibraryView {
            extract: self.extract.deep_view(),
            name: self.name.deep_view(),
            downloads: self.downloads.deep_view(),
            natives: self.natives.deep_view(),
            rules: self.rules.deep_view(),
            url: self.url.deep_view(),
            mmc_hint: self.mmc_hint.deep_view(),
        }
    }
}

impl View for Library {
    type V = LibraryView;

    open spec fn view(&self) -> LibraryView {
        self.deep_view()
    }
}

impl Merge for Library {
    open spec fn merged(base: LibraryView, overlay: LibraryView) -> LibraryView {
        LibraryView {
            extract: recursed::<MojangLibraryExtractRules>(base.extract, overlay.extract),
            name: replaced(base.name, overlay.name),
            downloads: recursed::<MojangLibraryDownloads>(base.downloads, overlay.downloads),
            natives: some_overwritten(base.natives, overlay.natives),
            rules: recursed::<MojangRules>(base.rules, overlay.rules),
            url: replaced(base.url, overlay.url),
            mmc_hint: replaced(base.mmc_hint, overlay.mmc_hint),
        }
    }

    fn merge(&mut self, other: Self) {
        option::recurse(&mut self.extract, other.extract);
        option::overwrite_some(&mut self.name, other.name);
        option::recurse(&mut self.downloads, other.downloads);
        option_hashmap::overwrite_key_some(&mut self.natives, other.natives);
        option::recurse(&mut self.rules, other.rules);
        option::overwrite_some(&mut self.url, other.url);
        option::overwrite_some(&mut self.mmc_hint, other.mmc_hint);
    }
}

impl Duplicate for Library {
    fn duplicate(&self) -> (r: Self) {
        Library {
            extract: self.extract.duplicate(),
            name: self.name.duplicate(),
            downloads: self.downloads.duplicate(),
            natives: self.natives.duplicate(),
            rules: self.rules.duplicate(),
            url: self.url.duplicate(),
            mmc_hint: self.mmc_hint.duplicate(),
        }
    }
}

/// A component that a version needs or excludes.
#[derive(Debug, Clone, PartialEq, Eq, Default)]
pub struct Dependency {
    pub uid: String,
    pub equals: Option<String>,
    pub suggests: Option<String>,
}

/// What a `Dependency` holds, as plain values.
pub struct DependencyView {
    pub uid: Seq<char>,
    pub equals: Option<Seq<char>>,
    pub suggests: Option<Seq<char>>,
}

impl DeepView for Dependency {
    type V = DependencyView;

    open spec fn deep_view(&self) -> DependencyView {
        DependencyView {
            uid: self.uid.deep_view(),
            equals: self.equals.deep_view(),
            suggests: self.suggests.deep_view(),
        }
    }
}

impl View for Dependency {
    type V = DependencyView;

    open spec fn view(&self) -> DependencyView {
        self.deep_view()
    }
}

impl Merge for Dependency {
    open spec fn merged(base: DependencyView, overlay: DependencyView) -> DependencyView {
        DependencyView {
            uid: overwritten(base.uid, overlay.uid),
            equals: replaced(base.equals, overlay.equals),
            suggests: replaced(base.suggests, overlay.suggests),
        }
    }

    fn merge(&mut self, other: Self) {
        overwrite(&mut self.uid, other.uid);
        option::overwrite_some(&mut self.equals, other.equals);
        option::overwrite_some(&mut self.suggests, other.suggests);
    }
}

impl Duplicate for Dependency {
    fn duplicate(&self) -> (r: Self) {
        Dependency {
            uid: self.uid.duplicate(),
            equals: self.equals.duplicate(),
            suggests: self.suggests.duplicate(),
        }
    }
}

/// A version as the published index describes it.
#[derive(Debug, Clone, PartialEq, Eq, Default)]
pub struct MetaVersion {
    pub format_version: i32,
    pub name: String,
    pub version: String,
    pub uid: String,
    pub version_type: Option<String>,
    pub order: Option<i32>,
    pub volatile: Option<bool>,
    pub requires: Option<Vec<Dependency>>,
    pub conflicts: Option<Vec<Dependency>>,
    pub libraries: Option<Vec<Library>>,
    pub asset_index: Option<MojangAssets>,
    pub maven_files: Option<Vec<Library>>,
    pub main_jar: Option<Library>,
    pub jar_mods: Option<Vec<Library>>,
    pub main_class: Option<String>,
    pub applet_class: Option<String>,
    pub minecraft_arguments: Option<String>,
    pub release_time: Option<Timestamp>,
    pub compatible_java_majors: Option<Vec<i32>>,
    pub additional_traits: Option<Vec<String>>,
    pub additional_tweakers: Option<Vec<String>>,
    pub additional_jvm_args: Option<Vec<String>>,
}

/// What a `MetaVersion` holds, as plain values.
pub struct MetaVersionView {
    pub format_version: i32,
    pub name: Seq<char>,
    pub version: Seq<char>,
    pub uid: Seq<char>,
    pub version_type: Option<Seq<char>>,
    pub order: Option<i32>,
    pub volatile: Option<bool>,
    pub requires: Option<Seq<DependencyView>>,
    pub conflicts: Option<Seq<DependencyView>>,
    pub libraries: Option<Seq<LibraryView>>,
    pub asset_index: Option<MojangAssetsView>,
    pub maven_files: Option<Seq<LibraryView>>,
    pub main_jar: Option<LibraryView>,
    pub jar_mods: Option<Seq<LibraryView>>,
    pub main_class: Option<Seq<char>>,
    pub applet_class: Option<Seq<char>>,
    pub minecraft_arguments: Option<Seq<char>>,
    pub release_time: Option<Timestamp>,
    pub compatible_java_majors: Option<Seq<i32>>,
    pub additional_traits: Option<Seq<Seq<char>>>,
    pub additional_tweakers: Option<Seq<Seq<char>>>,
    pub additional_jvm_args: Option<Seq<Seq<char>>>,
}

impl DeepView for MetaVersion {
    type V = MetaVersionView;

    open spec fn deep_view(&self) -> MetaVersionView {
        MetaVersionView {
            format_version: self.format_version.deep_view(),
            name: self.name.deep_view(),
            version: self.version.deep_view(),
            uid: self.uid.deep_view(),
            version_type: self.version_type.deep_view(),
            order: self.order.deep_view(),
            volatile: self.volatile.deep_view(),
            requires: self.requires.deep_view(),
            conflicts: self.conflicts.deep_view(),
            libraries: self.libraries.deep_view(),
            asset_index: self.asset_index.deep_view(),
            maven_files: self.maven_files.deep_view(),
            main_jar: self.main_jar.deep_view(),
            jar_mods: self.jar_mods.deep_view(),
            main_class: self.main_class.deep_view(),
            applet_class: self.applet_class.deep_view(),
            minecraft_arguments: self.minecraft_arguments.deep_view(),
            release_time: self.release_time.deep_view(),
            compatible_java_majors: self.compatible_java_majors.deep_view(),
            additional_traits: self.additional_traits.deep_view(),
            additional_tweakers: self.additional_tweakers.deep_view(),
            additional_jvm_args: self.additional_jvm_args.deep_view(),
        }
    }
}

impl View for MetaVersion {
    type V = MetaVersionView;

    open spec fn view(&self) -> MetaVersionView {
        self.deep_view()
    }
}

impl Merge for MetaVersion {
    open spec fn merged(base: MetaVersionView, overlay: MetaVersionView) -> MetaVersionView {
        MetaVersionView {
            format_version: overwritten(base.format_version, overlay.format_version),
            name: overwritten(base.name, overlay.name),
            version: overwritten(base.version, overlay.version),
            uid: overwritten(base.uid, overlay.uid),
            version_type: replaced(base.version_type, overlay.version_type),
            order: replaced(base.order, overlay.order),
            volatile: replaced(base.volatile, overlay.volatile),
            requires: appended(base.requires, overlay.requires),
            conflicts: appended(base.conflicts, overlay.conflicts),
            libraries: appended(base.libraries, overlay.libraries),
            asset_index: replaced(base.asset_index, overlay.asset_index),
            maven_files: appended(base.maven_files, overlay.maven_files),
            main_jar: replaced(base.main_jar, overlay.main_jar),
            jar_mods: appended(base.jar_mods, overlay.jar_mods),
            main_class: replaced(base.main_class, overlay.main_class),
            applet_class: replaced(base.applet_class, overlay.applet_class),
            minecraft_arguments: replaced(base.minecraft_arguments, overlay.minecraft_arguments),
            release_time: replaced(base.release_time, overlay.release_time),
            compatible_java_majors: appended(base.compatible_java_majors, overlay.compatible_java_majors),
            additional_traits: appended(base.additional_traits, overlay.additional_traits),
            additional_tweakers: appended(base.additional_tweakers, overlay.additional_tweakers),
            additional_jvm_args: appended(base.additional_jvm_args, overlay.additional_jvm_args),
        }
    }

    fn merge(&mut self, other: Self) {
        overwrite(&mut self.format_version, other.format_version);
        overwrite(&mut self.name, other.name);
        overwrite(&mut self.version, other.version);
        overwrite(&mut self.uid, other.uid);
        option::overwrite_some(&mut self.version_type, other.version_type);
        option::overwrite_some(&mut self.order, other.order);
        option::overwrite_some(&mut self.volatile, other.volatile);
        option_vec::append_some(&mut self.requires, other.requires);
        option_vec::append_some(&mut self.conflicts, other.conflicts);
        option_vec::append_some(&mut self.libraries, other.libraries);
        option::overwrite_some(&mut self.asset_index, other.asset_index);
        option_vec::append_some(&mut self.maven_files, other.maven_files);
        option::overwrite_some(&mut self.main_jar, other.main_jar);
        option_vec::append_some(&mut self.jar_mods, other.jar_mods);
        option::overwrite_some(&mut self.main_class, other.main_class);
        option::overwrite_some(&mut self.applet_class, other.applet_class);
        option::overwrite_some(&mut self.minecraft_arguments, other.minecraft_arguments);
        option::overwrite_some(&mut self.release_time, other.release_time);
        option_vec::append_some(&mut self.compatible_java_majors, other.compatible_java_majors);
        option_vec::append_some(&mut self.additional_traits, other.additional_traits);
        option_vec::append_some(&mut self.additional_tweakers, other.additional_tweakers);
        option_vec::append_some(&mut self.additional_jvm_args, other.additional_jvm_args);
    }
}

impl Duplicate for MetaVersion {
    fn duplicate(&self) -> (r: Self) {
        MetaVersion {
            format_version: self.format_version.duplicate(),
            name: self.name.duplicate(),
            version: self.version.duplicate(),
            uid: self.uid.duplicate(),
            version_type: self.version_type.duplicate(),
            order: self.order.duplicate(),
            volatile: self.volatile.duplicate(),
            requires: self.requires.duplicate(),
            conflicts: self.conflicts.duplicate(),
            libraries: self.libraries.duplicate(),
            asset_index: self.asset_index.duplicate(),
            maven_files: self.maven_files.duplicate(),
            main_jar: self.main_jar.duplicate(),
            jar_mods: self.jar_mods.duplicate(),
            main_class: self.main_class.duplicate(),
            applet_class: self.applet_class.duplicate(),
            minecraft_arguments: self.minecraft_arguments.duplicate(),
            release_time: self.release_time.duplicate(),
            compatible_java_majors: self.compatible_java_majors.duplicate(),
            additional_traits: self.additional_traits.duplicate(),
            additional_tweakers: self.additional_tweakers.duplicate(),
            additional_jvm_args: self.additional_jvm_args.duplicate(),
        }
    }
}

/// The library that stands for a library of upstream: the same fields, no
/// download address of its own and no hint.
pub open spec fn library_of(item: MojangLibraryView) -> LibraryView {
    LibraryView {
        extract: item.extract,
        name: item.name,
        downloads: item.downloads,
        natives: item.natives,
        rules: item.rules,
        url: None,
        mmc_hint: None,
    }
}

/// The library of upstream that stands for a library: the same fields, without
/// its download address and hint.
pub open spec fn mojang_library_of(item: LibraryView) -> MojangLibraryView {
    MojangLibraryView {
        extract: item.extract,
        name: item.name,
        downloads: item.downloads,
        natives: item.natives,
        rules: item.rules,
    }
}

impl From<MojangLibrary> for Library {
    fn from(item: MojangLibrary) -> (r: Self) {
        Library {
            extract: item.extract,
            name: item.name,
            downloads: item.downloads,
            natives: item.natives,
            rules: item.rules,
            url: None,
            mmc_hint: None,
        }
    }
}

impl vstd::std_specs::convert::FromSpecImpl<MojangLibrary> for Library {
    open spec fn obeys_from_spec() -> bool {
        true
    }

    open spec fn from_spec(item: MojangLibrary) -> Self {
        Library {
            extract: item.extract,
            name: item.name,
            downloads: item.downloads,
            natives: item.natives,
            rules: item.rules,
            url: None,
            mmc_hint: None,
        }
    }
}

impl From<Library> for MojangLibrary {
    fn from(item: Library) -> (r: Self) {
        MojangLibrary {
            extract: item.extract,
            name: item.name,
            downloads: item.downloads,
            natives: item.natives,
            rules: item.rules,
        }
    }
}

impl vstd::std_specs::convert::FromSpecImpl<Library> for MojangLibrary {
    open spec fn obeys_from_spec() -> bool {
        true
    }

    open spec fn from_spec(item: Library) -> Self {
        MojangLibrary {
            extract: item.extract,
            name: item.name,
            downloads: item.downloads,
            natives: item.natives,
            rules: item.rules,
        }
    }
}

impl Library {
    /// The library that stands for `item`.
    pub fn from_mojang(item: MojangLibrary) -> (r: Library)
        ensures
            r@ == library_of(item@),
    {
        Library::from(item)
    }

    /// A copy of `item` as a library.
    pub fn from_mojang_ref(item: &MojangLibrary) -> (r: Library)
        ensures
            r@ == library_of(item@),
    {
        Library::from_mojang(item.duplicate())
    }
}

impl MojangLibrary {
    /// The library of upstream that stands for `item`.
    pub fn from_library(item: Library) -> (r: MojangLibrary)
        ensures
            r@ == mojang_library_of(item@),
    {
        MojangLibrary::from(item)
    }

    /// A copy of `item` as a library of upstream.
    pub fn from_library_ref(item: &Library) -> (r: MojangLibrary)
        ensures
            r@ == mojang_library_of(item@),
    {
        MojangLibrary::from_library(item.duplicate())
    }
}

/// The record of the last run of a derivation that went through.
#[derive(Debug, Clone, PartialEq, Eq)]
pub struct MetaMcIndexEntry {
    /// When the run took place.
    pub update_time: Timestamp,
    /// Where the artifact lies that the run worked from.
    pub path: String,
    /// The digest of that artifact.
    pub hash: String,
}

} // verus!
