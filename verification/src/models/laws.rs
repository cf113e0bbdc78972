//! Laws of merging, for the descriptors themselves: merging a descriptor that
//! holds no list into itself changes nothing, and merging is associative.

use vstd::prelude::*;
use crate::models::forge::{
    DerivedForgeIndex, DerivedForgeIndexView, ForgeEntry, ForgeEntryView, ForgeFile, ForgeFileView,
    ForgeMCVersionInfo, ForgeMCVersionInfoView,
};
use crate::models::merge::option_hashmap::{
    lemma_recurse_some_associative, lemma_recurse_some_idempotent, some_overwritten,
};
use crate::models::merge::option_vec::lemma_append_some_associative;
use crate::models::merge::Merge;
use crate::models::{
    Dependency, DependencyView, Library, LibraryView, MetaVersion, MetaVersionView, MojangArtifact,
    MojangArtifactView, MojangLibrary, MojangLibraryDownloads, MojangLibraryDownloadsView,
    MojangLibraryExtractRules, MojangLibraryExtractRulesView, MojangLibraryView, MojangRule,
    MojangRuleView, MojangRules, MojangRulesView, OSRule, OSRuleView,
};

verus! {

/// Merging an artifact into itself changes nothing.
pub proof fn lemma_artifact_idempotent(x: MojangArtifactView)
    ensures
        MojangArtifact::merged(x, x) == x,
{
}

/// Merging artifacts is associative.
pub proof fn lemma_artifact_associative(
    a: MojangArtifactView,
    b: MojangArtifactView,
    c: MojangArtifactView,
)
    ensures
        MojangArtifact::merged(MojangArtifact::merged(a, b), c) == MojangArtifact::merged(
            a,
            MojangArtifact::merged(b, c),
        ),
{
}

/// Merging a rule on an operating system into itself changes nothing.
pub proof fn lemma_os_rule_idempotent(x: OSRuleView)
    ensures
        OSRule::merged(x, x) == x,
{
}

/// Merging rules on operating systems is associative.
pub proof fn lemma_os_rule_associative(a: OSRuleView, b: OSRuleView, c: OSRuleView)
    ensures
        OSRule::merged(OSRule::merged(a, b), c) == OSRule::merged(a, OSRule::merged(b, c)),
{
}

/// Merging a rule into itself changes nothing.
pub proof fn lemma_rule_idempotent(x: MojangRuleView)
    ensures
        MojangRule::merged(x, x) == x,
{
}

/// Merging rules is associative.
pub proof fn lemma_rule_associative(a: MojangRuleView, b: MojangRuleView, c: MojangRuleView)
    ensures
        MojangRule::merged(MojangRule::merged(a, b), c) == MojangRule::merged(
            a,
            MojangRule::merged(b, c),
        ),
{
}

/// Merging a dependency into itself changes nothing.
pub proof fn lemma_dependency_idempotent(x: DependencyView)
    ensures
        Dependency::merged(x, x) == x,
{
}

/// Merging a file into itself changes nothing.
pub proof fn lemma_file_idempotent(x: ForgeFileView)
    ensures
        ForgeFile::merged(x, x) == x,
{
}

/// Merging the entry of a build into itself changes nothing.
pub proof fn lemma_entry_idempotent(x: ForgeEntryView)
    ensures
        ForgeEntry::merged(x, x) == x,
{
    assert forall|f: ForgeFileView| #[trigger] ForgeFile::merged(f, f) == f by {
        lemma_file_idempotent(f);
    }
    lemma_recurse_some_idempotent::<ForgeFile>(x.files);
}

/// Merging the lists of what is left out when unpacking is associative.
pub proof fn lemma_extract_rules_associative(
    a: MojangLibraryExtractRulesView,
    b: MojangLibraryExtractRulesView,
    c: MojangLibraryExtractRulesView,
)
    ensures
        MojangLibraryExtractRules::merged(MojangLibraryExtractRules::merged(a, b), c)
            == MojangLibraryExtractRules::merged(a, MojangLibraryExtractRules::merged(b, c)),
{
    assert((a.exclude + b.exclude) + c.exclude =~= a.exclude + (b.exclude + c.exclude));
}

/// Merging lists of rules is associative.
pub proof fn lemma_rules_associative(a: MojangRulesView, b: MojangRulesView, c: MojangRulesView)
    ensures
        MojangRules::merged(MojangRules::merged(a, b), c) == MojangRules::merged(
            a,
            MojangRules::merged(b, c),
        ),
{
    assert((a.root + b.root) + c.root =~= a.root + (b.root + c.root));
}

/// Merging the downloads of a library is associative.
pub proof fn lemma_downloads_associative(
    a: MojangLibraryDownloadsView,
    b: MojangLibraryDownloadsView,
    c: MojangLibraryDownloadsView,
)
    ensures
        MojangLibraryDownloads::merged(MojangLibraryDownloads::merged(a, b), c)
            == MojangLibraryDownloads::merged(a, MojangLibraryDownloads::merged(b, c)),
{
    assert forall|x: MojangArtifactView, y: MojangArtifactView, z: MojangArtifactView|
        MojangArtifact::merged(#[trigger] MojangArtifact::merged(x, y), z) == MojangArtifact::merged(
            x,
            #[trigger] MojangArtifact::merged(y, z),
        ) by {
        lemma_artifact_associative(x, y, z);
    }
    lemma_recurse_some_associative::<MojangArtifact>(a.classifiers, b.classifiers, c.classifiers);
}

/// Overwriting the keys of optional maps is associative.
pub proof fn lemma_overwrite_key_some_associative<A>(
    a: Option<Map<Seq<char>, A>>,
    b: Option<Map<Seq<char>, A>>,
    c: Option<Map<Seq<char>, A>>,
)
    ensures
        some_overwritten(some_overwritten(a, b), c) == some_overwritten(a, some_overwritten(b, c)),
{
    if a is Some && b is Some && c is Some {
        crate::models::merge::hashmap::lemma_overwrite_key_associative(a->0, b->0, c->0);
    }
}

/// Merging libraries of upstream is associative.
pub proof fn lemma_mojang_library_associative(
    a: MojangLibraryView,
    b: MojangLibraryView,
    c: MojangLibraryView,
)
    ensures
        MojangLibrary::merged(MojangLibrary::merged(a, b), c) == MojangLibrary::merged(
            a,
            MojangLibrary::merged(b, c),
        ),
{
    if a.extract is Some && b.extract is Some && c.extract is Some {
        lemma_extract_rules_associative(a.extract->0, b.extract->0, c.extract->0);
    }
    if a.downloads is Some && b.downloads is Some && c.downloads is Some {
        lemma_downloads_associative(a.downloads->0, b.downloads->0, c.downloads->0);
    }
    if a.rules is Some && b.rules is Some && c.rules is Some {
        lemma_rules_associative(a.rules->0, b.rules->0, c.rules->0);
    }
    lemma_overwrite_key_some_associative(a.natives, b.natives, c.natives);
}

/// Merging libraries is associative.
pub proof fn lemma_library_associative(a: LibraryView, b: LibraryView, c: LibraryView)
    ensures
        Library::merged(Library::merged(a, b), c) == Library::merged(a, Library::merged(b, c)),
{
    if a.extract is Some && b.extract is Some && c.extract is Some {
        lemma_extract_rules_associative(a.extract->0, b.extract->0, c.extract->0);
    }
    if a.downloads is Some && b.downloads is Some && c.downloads is Some {
        lemma_downloads_associative(a.downloads->0, b.downloads->0, c.downloads->0);
    }
    if a.rules is Some && b.rules is Some && c.rules is Some {
        lemma_rules_associative(a.rules->0, b.rules->0, c.rules->0);
    }
    lemma_overwrite_key_some_associative(a.natives, b.natives, c.natives);
}

/// Merging published versions is associative: a base that takes in two
/// overlays one after the other is what it is after taking in the two overlays
/// merged.
pub proof fn lemma_meta_version_associative(a: MetaVersionView, b: MetaVersionView, c: MetaVersionView)
    ensures
        MetaVersion::merged(MetaVersion::merged(a, b), c) == MetaVersion::merged(
            a,
            MetaVersion::merged(b, c),
        ),
{
    lemma_append_some_associative(a.requires, b.requires, c.requires);
    lemma_append_some_associative(a.conflicts, b.conflicts, c.conflicts);
    lemma_append_some_associative(a.libraries, b.libraries, c.libraries);
    lemma_append_some_associative(a.maven_files, b.maven_files, c.maven_files);
    lemma_append_some_associative(a.jar_mods, b.jar_mods, c.jar_mods);
    lemma_append_some_associative(
        a.compatible_java_majors,
        b.compatible_java_majors,
        c.compatible_java_majors,
    );
    lemma_append_some_associative(a.additional_traits, b.additional_traits, c.additional_traits);
    lemma_append_some_associative(
        a.additional_tweakers,
        b.additional_tweakers,
        c.additional_tweakers,
    );
    lemma_append_some_associative(
        a.additional_jvm_args,
        b.additional_jvm_args,
        c.additional_jvm_args,
    );
}

/// Merging files is associative.
pub proof fn lemma_file_associative(a: ForgeFileView, b: ForgeFileView, c: ForgeFileView)
    ensures
        ForgeFile::merged(ForgeFile::merged(a, b), c) == ForgeFile::merged(
            a,
            ForgeFile::merged(b, c),
        ),
{
}

/// Merging the entries of builds is associative.
pub proof fn lemma_entry_associative(a: ForgeEntryView, b: ForgeEntryView, c: ForgeEntryView)
    ensures
        ForgeEntry::merged(ForgeEntry::merged(a, b), c) == ForgeEntry::merged(
            a,
            ForgeEntry::merged(b, c),
        ),
{
    assert forall|x: ForgeFileView, y: ForgeFileView, z: ForgeFileView|
        ForgeFile::merged(#[trigger] ForgeFile::merged(x, y), z) == ForgeFile::merged(
            x,
            #[trigger] ForgeFile::merged(y, z),
        ) by {
        lemma_file_associative(x, y, z);
    }
    lemma_recurse_some_associative::<ForgeFile>(a.files, b.files, c.files);
}

/// Merging what is known of a game version is associative.
pub proof fn lemma_mc_version_info_associative(
    a: ForgeMCVersionInfoView,
    b: ForgeMCVersionInfoView,
    c: ForgeMCVersionInfoView,
)
    ensures
        ForgeMCVersionInfo::merged(ForgeMCVersionInfo::merged(a, b), c)
            == ForgeMCVersionInfo::merged(a, ForgeMCVersionInfo::merged(b, c)),
{
    assert((a.versions + b.versions) + c.versions =~= a.versions + (b.versions + c.versions));
}

/// Merging derived indexes is associative.
pub proof fn lemma_index_associative(
    a: DerivedForgeIndexView,
    b: DerivedForgeIndexView,
    c: DerivedForgeIndexView,
)
    ensures
        DerivedForgeIndex::merged(DerivedForgeIndex::merged(a, b), c) == DerivedForgeIndex::merged(
            a,
            DerivedForgeIndex::merged(b, c),
        ),
{
    assert forall|x: ForgeEntryView, y: ForgeEntryView, z: ForgeEntryView|
        ForgeEntry::merged(#[trigger] ForgeEntry::merged(x, y), z) == ForgeEntry::merged(
            x,
            #[trigger] ForgeEntry::merged(y, z),
        ) by {
        lemma_entry_associative(x, y, z);
    }
    assert forall|x: ForgeMCVersionInfoView, y: ForgeMCVersionInfoView, z: ForgeMCVersionInfoView|
        ForgeMCVersionInfo::merged(#[trigger] ForgeMCVersionInfo::merged(x, y), z)
            == ForgeMCVersionInfo::merged(x, #[trigger] ForgeMCVersionInfo::merged(y, z)) by {
        lemma_mc_version_info_associative(x, y, z);
    }
    crate::models::merge::hashmap::lemma_recurse_associative::<ForgeEntry>(
        a.versions,
        b.versions,
        c.versions,
    );
    crate::models::merge::hashmap::lemma_recurse_associative::<ForgeMCVersionInfo>(
        a.by_mc_version,
        b.by_mc_version,
        c.by_mc_version,
    );
}

} // verus!
