//! The derived index of the mod-loader: one entry for each build, and for each
//! game version its builds in the order in which they were found, with the
//! recommended and the latest one.

use vstd::prelude::*;
use crate::models::forge::{
    DerivedForgeIndex, DerivedForgeIndexView, ForgeEntry, ForgeEntryView, ForgeFile, ForgeFileView,
    ForgeMCVersionInfo, ForgeMCVersionInfoView,
};
use crate::models::forge::{ForgeMavenMetadata, ForgeMavenPromotions};
use crate::storage::forge::{
    bad_version, build_text, decompose, find_last_dot, is_bad_version, kept_builds, last_dot,
    listed, parse_long_version, pending_forge_versions, recommended_list, recommended_versions,
    stored_listing, ParsedVersion, VersionError,
};
use crate::decimal::digits_value;
use crate::strmap::StrMap;
use crate::text::{chars_of, contains_str, string_of};

verus! {

/// Why an index cannot be brought up to date.
#[derive(Debug, Clone, PartialEq, Eq)]
pub enum IndexError {
    /// A recommended build is for a game version that the index does not list.
    MissingGameVersion { mc_version: String },
    /// The index lists a game version without any build.
    NoVersions { mc_version: String },
}

/// The promotions name the dotted version `version`: the list of promoted
/// short versions holds it as it stands, or without the build number at its end.
pub open spec fn promoted(rec: Seq<Seq<char>>, version: Seq<char>) -> bool {
    rec.contains(version) || (last_dot(version) >= 0 && rec.contains(
        version.take(last_dot(version)),
    ))
}

/// Whether the promoted short versions `rec` name the dotted version `version`.
pub fn is_promoted(rec: &Vec<String>, version: &str) -> (r: bool)
    ensures
        r == promoted(rec.deep_view(), version@),
{
    if contains_str(rec, version) {
        return true;
    }
    let v = chars_of(version);
    assert(v@.subrange(0, v@.len() as int) == v@);
    match find_last_dot(&v, 0, v.len()) {
        Some(d) => {
            let short = string_of(&v, 0, d);
            assert(v@.subrange(0, d as int) == v@.take(d as int));
            contains_str(rec, short.as_str())
        },
        None => false,
    }
}

/// The entry of a build that was just fetched. Whether it is the latest of
/// its game version is not said here: that is worked out from the order of the
/// builds, once all are known.
pub open spec fn entry_made(
    rec: Seq<Seq<char>>,
    mc_version: Seq<char>,
    long_version: Seq<char>,
    version: Seq<char>,
    build: i32,
    branch: Option<Seq<char>>,
    files: Map<Seq<char>, ForgeFileView>,
) -> ForgeEntryView {
    ForgeEntryView {
        long_version,
        mc_version,
        version,
        build,
        branch,
        latest: None,
        recommended: Some(promoted(rec, version)),
        files: Some(files),
    }
}

/// Makes the entry of the build `long_version` of the game version
/// `mc_version`, from what its long version was found to hold and from its
/// files.
pub fn make_entry(
    recommended: &Vec<String>,
    mc_version: &str,
    long_version: &str,
    parsed: ParsedVersion,
    files: StrMap<ForgeFile>,
) -> (r: ForgeEntry)
    ensures
        r@ == entry_made(
            recommended.deep_view(),
            mc_version@,
            long_version@,
            parsed.version@,
            parsed.build,
            parsed.branch.deep_view(),
            files@,
        ),
{
    let is_recommended = is_promoted(recommended, parsed.version.as_str());
    ForgeEntry {
        long_version: long_version.to_owned(),
        mc_version: mc_version.to_owned(),
        version: parsed.version,
        build: parsed.build,
        branch: parsed.branch,
        latest: None,
        recommended: Some(is_recommended),
        files: Some(files),
    }
}

/// Reads the long version of a build and makes its entry. A long version that
/// cannot be identified gives no entry.
pub fn process_forge_version(
    recommended: &Vec<String>,
    mc_version: &str,
    long_version: &str,
    files: StrMap<ForgeFile>,
) -> (r: Result<ForgeEntry, VersionError>)
    ensures
        match r {
            Ok(e) => decompose(long_version@) matches Some(p) && digits_value(build_text(p.version))
                <= i32::MAX && e@ == entry_made(
                recommended.deep_view(),
                mc_version@,
                long_version@,
                p.version,
                digits_value(build_text(p.version)) as i32,
                p.branch,
                files@,
            ),
            Err(VersionError::NoMatch { long_version: l }) => decompose(long_version@) is None && l@
                == long_version@,
            Err(VersionError::BuildOutOfRange { long_version: l }) => decompose(long_version@)
                matches Some(p) && digits_value(build_text(p.version)) > i32::MAX && l@
                == long_version@,
        },
{
    match parse_long_version(long_version) {
        Ok(parsed) => Ok(make_entry(recommended, mc_version, long_version, parsed, files)),
        Err(e) => Err(e),
    }
}

/// What is known of a game version before any of its builds is.
pub open spec fn empty_info() -> ForgeMCVersionInfoView {
    ForgeMCVersionInfoView { latest: None, recommended: None, versions: Seq::empty() }
}

/// What `by` holds of the game version `g`.
pub open spec fn info_of(by: Map<Seq<char>, ForgeMCVersionInfoView>, g: Seq<char>) -> ForgeMCVersionInfoView {
    if by.dom().contains(g) {
        by[g]
    } else {
        empty_info()
    }
}

/// The index with one more build: its entry stands under its long version,
/// which is the last of the builds of its game version, and the recommended
/// one of them where the entry is recommended.
pub open spec fn with_version(idx: DerivedForgeIndexView, e: ForgeEntryView) -> DerivedForgeIndexView {
    let info = info_of(idx.by_mc_version, e.mc_version);
    DerivedForgeIndexView {
        versions: idx.versions.insert(e.long_version, e),
        by_mc_version: idx.by_mc_version.insert(
            e.mc_version,
            ForgeMCVersionInfoView {
                latest: info.latest,
                recommended: if e.recommended == Some(true) {
                    Some(e.long_version)
                } else {
                    info.recommended
                },
                versions: info.versions.push(e.long_version),
            },
        ),
    }
}

/// The index with the builds `entries`, taken in in their order. A build on
/// the list of known-bad builds is left out.
pub open spec fn with_versions(idx: DerivedForgeIndexView, entries: Seq<ForgeEntryView>) -> DerivedForgeIndexView
    decreases entries.len(),
{
    if entries.len() == 0 {
        idx
    } else {
        let before = with_versions(idx, entries.drop_last());
        if bad_version(entries.last().long_version) {
            before
        } else {
            with_version(before, entries.last())
        }
    }
}

/// Takes one build into the index.
pub fn add_version(index: &mut DerivedForgeIndex, entry: ForgeEntry)
    ensures
        final(index)@ == with_version(old(index)@, entry@),
{
    let long_version = entry.long_version.clone();
    let mc_version = entry.mc_version.clone();
    let is_recommended = match entry.recommended {
        Some(b) => b,
        None => false,
    };
    let ghost by = index.by_mc_version@;
    index.versions.insert(entry.long_version.clone(), entry);
    let mut info = match index.by_mc_version.remove(mc_version.as_str()) {
        Some(info) => info,
        None => ForgeMCVersionInfo { latest: None, recommended: None, versions: Vec::new() },
    };
    let ghost taken = info@;
    assert(taken.versions =~= info_of(by, mc_version@).versions);
    info.versions.push(long_version.clone());
    assert(info.versions.deep_view() =~= taken.versions.push(long_version@));
    if is_recommended {
        info.recommended = Some(long_version);
    }
    index.by_mc_version.insert(mc_version, info);
    assert(index.by_mc_version@ =~= with_version(old(index)@, entry@).by_mc_version);
}

/// Takes the builds `entries` into the index, in their order, but for those on
/// the list of known-bad builds.
pub fn add_versions(index: &mut DerivedForgeIndex, entries: Vec<ForgeEntry>)
    ensures
        final(index)@ == with_versions(old(index)@, entries.deep_view()),
{
    let ghost all = entries.deep_view();
    let ghost start = index@;
    for entry in it: entries
        invariant
            it.seq() == entries@,
            all == entries.deep_view(),
            index@ == with_versions(start, all.take(it.index() as int)),
    {
        let ghost i = it.index() as int;
        proof {
            assert(all.take(i + 1).drop_last() == all.take(i));
            assert(all.take(i + 1).last() == entry@);
        }
        if !is_bad_version(entry.long_version.as_str()) {
            add_version(index, entry);
        }
    }
    assert(all.take(all.len() as int) == all);
}

/// The long versions that the index with more builds holds are those that it
/// held, and those of the builds that are not on the list of known-bad builds.
pub proof fn lemma_with_versions_keys(idx: DerivedForgeIndexView, entries: Seq<ForgeEntryView>)
    ensures
        forall|k: Seq<char>| #[trigger]
            with_versions(idx, entries).versions.dom().contains(k) ==> idx.versions.dom().contains(
                k,
            ) || !bad_version(k),
    decreases entries.len(),
{
    if entries.len() > 0 {
        lemma_with_versions_keys(idx, entries.drop_last());
        let before = with_versions(idx, entries.drop_last());
        let e = entries.last();
        assert forall|k: Seq<char>| #[trigger]
            with_versions(idx, entries).versions.dom().contains(k) implies idx.versions.dom().contains(
            k,
        ) || !bad_version(k) by {
            if !bad_version(e.long_version) {
                assert(with_versions(idx, entries).versions == before.versions.insert(
                    e.long_version,
                    e,
                ));
                if k != e.long_version {
                    assert(before.versions.dom().contains(k));
                }
            } else {
                assert(before.versions.dom().contains(k));
            }
        }
    }
}

/// The index only grows: what it held of builds it still holds after more
/// builds were taken in.
pub proof fn lemma_with_versions_keeps(idx: DerivedForgeIndexView, entries: Seq<ForgeEntryView>)
    ensures
        forall|k: Seq<char>|
            idx.versions.dom().contains(k) ==> #[trigger] with_versions(
                idx,
                entries,
            ).versions.dom().contains(k),
        forall|g: Seq<char>|
            idx.by_mc_version.dom().contains(g) ==> #[trigger] with_versions(
                idx,
                entries,
            ).by_mc_version.dom().contains(g),
    decreases entries.len(),
{
    if entries.len() > 0 {
        lemma_with_versions_keeps(idx, entries.drop_last());
        let before = with_versions(idx, entries.drop_last());
        let after = with_versions(idx, entries);
        assert forall|k: Seq<char>| idx.versions.dom().contains(k) implies after.versions.dom().contains(
            k,
        ) by {
            assert(before.versions.dom().contains(k));
        }
        assert forall|g: Seq<char>|
            idx.by_mc_version.dom().contains(g) implies after.by_mc_version.dom().contains(g) by {
            assert(before.by_mc_version.dom().contains(g));
        }
    }
}

/// The recommended build of the game version `g` is one of the builds
/// `entries` that was marked recommended and is for `g`.
pub open spec fn recommended_from(
    entries: Seq<ForgeEntryView>,
    g: Seq<char>,
    long_version: Seq<char>,
) -> bool {
    exists|i: int|
        0 <= i < entries.len() && (#[trigger] entries[i]).long_version == long_version
            && entries[i].mc_version == g && entries[i].recommended == Some(true)
}

/// In an index that is made of fetched builds alone, a game version has a
/// recommended build only where one of its builds was marked recommended, and
/// then it is such a build.
pub proof fn lemma_recommended_was_marked(entries: Seq<ForgeEntryView>)
    ensures
        forall|g: Seq<char>|
            #![trigger with_versions(empty_index_view(), entries).by_mc_version[g]]
            with_versions(empty_index_view(), entries).by_mc_version.dom().contains(g) ==> (
            with_versions(empty_index_view(), entries).by_mc_version[g].recommended matches Some(
                l,
            ) ==> recommended_from(entries, g, l)),
    decreases entries.len(),
{
    if entries.len() > 0 {
        let rest = entries.drop_last();
        let e = entries.last();
        lemma_recommended_was_marked(rest);
        let before = with_versions(empty_index_view(), rest);
        let after = with_versions(empty_index_view(), entries);
        assert forall|g: Seq<char>, l: Seq<char>| recommended_from(rest, g, l) implies recommended_from(
            entries,
            g,
            l,
        ) by {
            let i = choose|i: int|
                0 <= i < rest.len() && (#[trigger] rest[i]).long_version == l && rest[i].mc_version
                    == g && rest[i].recommended == Some(true);
            assert(entries[i] == rest[i]);
        }
        assert forall|g: Seq<char>|
            #![trigger after.by_mc_version[g]]
            after.by_mc_version.dom().contains(g) implies (after.by_mc_version[g].recommended
            matches Some(l) ==> recommended_from(entries, g, l)) by {
            if after.by_mc_version[g].recommended is Some {
                let l = after.by_mc_version[g].recommended->0;
                if !bad_version(e.long_version) && g == e.mc_version {
                    if e.recommended == Some(true) {
                        assert(entries[entries.len() - 1] == e);
                        assert(recommended_from(entries, g, l));
                    } else {
                        assert(before.by_mc_version.dom().contains(g));
                        assert(before.by_mc_version[g].recommended == Some(l));
                        assert(recommended_from(rest, g, l));
                    }
                } else {
                    assert(before.by_mc_version.dom().contains(g));
                    assert(before.by_mc_version[g].recommended == Some(l));
                    assert(recommended_from(rest, g, l));
                }
            }
        }
    }
}

/// The view of an index without any build.
pub open spec fn empty_index_view() -> DerivedForgeIndexView {
    DerivedForgeIndexView { versions: Map::empty(), by_mc_version: Map::empty() }
}

/// An entry with what the promotions say of it.
pub open spec fn refreshed_entry(e: ForgeEntryView, rec: Seq<Seq<char>>) -> ForgeEntryView {
    ForgeEntryView { recommended: Some(promoted(rec, e.version)), ..e }
}

/// The game versions after the first `n` builds were looked at, in the order
/// of `keys`: each build that the promotions name becomes the recommended one
/// of its game version, where the index lists that game version.
pub open spec fn refreshed_infos(
    by: Map<Seq<char>, ForgeMCVersionInfoView>,
    keys: Seq<Seq<char>>,
    entries: Seq<ForgeEntryView>,
    n: int,
    rec: Seq<Seq<char>>,
) -> Map<Seq<char>, ForgeMCVersionInfoView>
    decreases n,
{
    if n <= 0 {
        by
    } else {
        let before = refreshed_infos(by, keys, entries, n - 1, rec);
        let e = entries[n - 1];
        if promoted(rec, e.version) && before.dom().contains(e.mc_version) {
            before.insert(
                e.mc_version,
                ForgeMCVersionInfoView { recommended: Some(keys[n - 1]), ..before[e.mc_version] },
            )
        } else {
            before
        }
    }
}

/// Looking at builds adds no game version and takes none away.
pub proof fn lemma_refreshed_infos_dom(
    by: Map<Seq<char>, ForgeMCVersionInfoView>,
    keys: Seq<Seq<char>>,
    entries: Seq<ForgeEntryView>,
    n: int,
    rec: Seq<Seq<char>>,
)
    ensures
        refreshed_infos(by, keys, entries, n, rec).dom() == by.dom(),
    decreases n,
{
    if n > 0 {
        lemma_refreshed_infos_dom(by, keys, entries, n - 1, rec);
        let before = refreshed_infos(by, keys, entries, n - 1, rec);
        let e = entries[n - 1];
        if promoted(rec, e.version) && before.dom().contains(e.mc_version) {
            assert(before.insert(
                e.mc_version,
                ForgeMCVersionInfoView { recommended: Some(keys[n - 1]), ..before[e.mc_version] },
            ).dom() =~= before.dom());
        }
    }
}

/// One of the first `n` builds is named by the promotions and is for a game
/// version that `by` does not list.
pub open spec fn stray_among(
    by: Map<Seq<char>, ForgeMCVersionInfoView>,
    entries: Seq<ForgeEntryView>,
    n: int,
    rec: Seq<Seq<char>>,
) -> bool {
    exists|k: int|
        0 <= k < n && promoted(rec, (#[trigger] entries[k]).version) && !by.dom().contains(
            entries[k].mc_version,
        )
}

/// The first build that the promotions name and whose game version the index
/// does not list, if there is one.
fn find_stray(index: &DerivedForgeIndex, recommended: &Vec<String>) -> (r: Option<usize>)
    ensures
        match r {
            Some(i) => i < index.versions.values().len() && promoted(
                recommended.deep_view(),
                index.versions.values()[i as int].version,
            ) && !index@.by_mc_version.dom().contains(index.versions.values()[i as int].mc_version),
            None => !stray_among(
                index@.by_mc_version,
                index.versions.values(),
                index.versions.values().len() as int,
                recommended.deep_view(),
            ),
        },
{
    index.versions.known_order();
    let mut i: usize = 0;
    while i < index.versions.len()
        invariant
            i <= index.versions.keys().len(),
            index.versions.keys().len() == index.versions.values().len(),
            !stray_among(
                index@.by_mc_version,
                index.versions.values(),
                i as int,
                recommended.deep_view(),
            ),
        decreases index.versions.keys().len() - i,
    {
        let e = index.versions.value_at(i);
        if is_promoted(recommended, e.version.as_str()) && !index.by_mc_version.contains_key(
            e.mc_version.as_str(),
        ) {
            return Some(i);
        }
        i += 1;
    }
    None
}

/// Brings what the index says of its builds in line with the promotions: each
/// build is marked recommended or not, and each build that is becomes the
/// recommended one of its game version; of several such builds of one game
/// version, the one whose long version comes last in order. Where a recommended
/// build is for a game version that the index does not list, nothing is changed.
pub fn refresh_recommendations(index: &mut DerivedForgeIndex, recommended: &Vec<String>) -> (r:
    Result<(), IndexError>)
    ensures
        match r {
            Ok(()) => {
                &&& !stray_among(
                    old(index)@.by_mc_version,
                    old(index).versions.values(),
                    old(index).versions.values().len() as int,
                    recommended.deep_view(),
                )
                &&& final(index).versions.keys() == old(index).versions.keys()
                &&& final(index)@.versions == old(index)@.versions.map_values(
                    |e: ForgeEntryView| refreshed_entry(e, recommended.deep_view()),
                )
                &&& final(index)@.by_mc_version == refreshed_infos(
                    old(index)@.by_mc_version,
                    old(index).versions.keys(),
                    old(index).versions.values(),
                    old(index).versions.values().len() as int,
                    recommended.deep_view(),
                )
            },
            Err(IndexError::MissingGameVersion { mc_version }) => {
                &&& final(index)@ == old(index)@
                &&& exists|k: int|
                    0 <= k < old(index).versions.values().len() && promoted(
                        recommended.deep_view(),
                        (#[trigger] old(index).versions.values()[k]).version,
                    ) && old(index).versions.values()[k].mc_version == mc_version@
                        && !old(index)@.by_mc_version.dom().contains(mc_version@)
            },
            Err(_) => false,
        },
{
    match find_stray(index, recommended) {
        Some(i) => {
            index.versions.known_order();
            let mc_version = index.versions.value_at(i).mc_version.clone();
            return Err(IndexError::MissingGameVersion { mc_version });
        },
        None => {},
    }
    index.versions.known_order();
    let ghost rec = recommended.deep_view();
    let ghost keys = index.versions.keys();
    let ghost old_values = index.versions.values();
    let ghost old_view = index@.versions;
    let ghost by = index@.by_mc_version;
    let n = index.versions.len();
    let mut i: usize = 0;
    while i < n
        invariant
            i <= n,
            n == keys.len(),
            rec == recommended.deep_view(),
            keys.len() == old_values.len(),
            index.versions.keys() == keys,
            index.versions.values().len() == old_values.len(),
            !stray_among(by, old_values, n as int, rec),
            forall|k: int|
                0 <= k < i ==> #[trigger] index.versions.values()[k] == refreshed_entry(
                    old_values[k],
                    rec,
                ),
            forall|k: int| i <= k < n ==> #[trigger] index.versions.values()[k] == old_values[k],
            index@.by_mc_version == refreshed_infos(by, keys, old_values, i as int, rec),
        decreases n - i,
    {
        let holder = ForgeEntry {
            long_version: String::new(),
            mc_version: String::new(),
            version: String::new(),
            build: 0,
            branch: None,
            latest: None,
            recommended: None,
            files: None,
        };
        let mut entry = index.versions.replace_at(i, holder);
        let is_recommended = is_promoted(recommended, entry.version.as_str());
        entry.recommended = Some(is_recommended);
        let mc_version = entry.mc_version.clone();
        index.versions.replace_at(i, entry);
        if is_recommended {
            let long_version = index.versions.key_at(i).clone();
            proof {
                lemma_refreshed_infos_dom(by, keys, old_values, i as int, rec);
                assert(promoted(rec, old_values[i as int].version));
            }
            match index.by_mc_version.remove(mc_version.as_str()) {
                Some(mut info) => {
                    info.recommended = Some(long_version);
                    index.by_mc_version.insert(mc_version, info);
                    let ghost before = refreshed_infos(by, keys, old_values, i as int, rec);
                    let ghost e = old_values[i as int];
                    assert(index@.by_mc_version =~= before.insert(
                        e.mc_version,
                        ForgeMCVersionInfoView {
                            recommended: Some(keys[i as int]),
                            ..before[e.mc_version]
                        },
                    ));
                },
                None => {
                    assert(false);
                },
            }
        }
        i += 1;
    }
    index.versions.known_order();
    proof {
        let f = |e: ForgeEntryView| refreshed_entry(e, rec);
        assert forall|k: Seq<char>| old_view.dom().contains(k) implies #[trigger] index@.versions[k]
            == f(old_view[k]) by {
            assert(keys.contains(k));
            let j = keys.index_of(k);
            assert(keys[j] == k);
            assert(index@.versions[keys[j]] == index.versions.values()[j]);
            assert(old_view[keys[j]] == old_values[j]);
        }
        assert forall|k: Seq<char>| index@.versions.dom().contains(k) <==> old_view.dom().contains(
            k,
        ) by {
            if index@.versions.dom().contains(k) {
                assert(keys.contains(k));
            }
            if old_view.dom().contains(k) {
                assert(keys.contains(k));
            }
        }
        assert(index@.versions =~= old_view.map_values(f));
    }
    Ok(())
}

/// What is known of a game version once its latest build is worked out: the
/// last of its builds, in the order in which they were found.
pub open spec fn resolved_info(info: ForgeMCVersionInfoView) -> ForgeMCVersionInfoView {
    ForgeMCVersionInfoView { latest: Some(info.versions.last()), ..info }
}

/// The game versions with their latest builds worked out.
pub open spec fn resolved(by: Map<Seq<char>, ForgeMCVersionInfoView>) -> Map<
    Seq<char>,
    ForgeMCVersionInfoView,
> {
    by.map_values(|info: ForgeMCVersionInfoView| resolved_info(info))
}

/// One of the first `n` game versions has no build.
pub open spec fn empty_among(infos: Seq<ForgeMCVersionInfoView>, n: int) -> bool {
    exists|k: int| 0 <= k < n && (#[trigger] infos[k]).versions.len() == 0
}

/// A game version of `by` has no build.
pub open spec fn has_empty(by: Map<Seq<char>, ForgeMCVersionInfoView>) -> bool {
    exists|g: Seq<char>| #[trigger] by.dom().contains(g) && by[g].versions.len() == 0
}

/// The first game version without a build, if there is one.
fn find_empty(by: &StrMap<ForgeMCVersionInfo>) -> (r: Option<usize>)
    ensures
        match r {
            Some(i) => i < by.values().len() && by.values()[i as int].versions.len() == 0,
            None => !empty_among(by.values(), by.values().len() as int),
        },
{
    by.known_order();
    let mut i: usize = 0;
    while i < by.len()
        invariant
            i <= by.keys().len(),
            by.keys().len() == by.values().len(),
            !empty_among(by.values(), i as int),
        decreases by.keys().len() - i,
    {
        if by.value_at(i).versions.len() == 0 {
            return Some(i);
        }
        i += 1;
    }
    None
}

/// Works out the latest build of each game version: the last of its builds in
/// the order in which they were found, whatever upstream calls latest. Where a
/// game version has no build, nothing is changed.
pub fn resolve_latest(index: &mut DerivedForgeIndex) -> (r: Result<(), IndexError>)
    ensures
        match r {
            Ok(()) => {
                &&& !has_empty(old(index)@.by_mc_version)
                &&& final(index)@.versions == old(index)@.versions
                &&& final(index)@.by_mc_version == resolved(old(index)@.by_mc_version)
            },
            Err(IndexError::NoVersions { mc_version }) => {
                &&& final(index)@ == old(index)@
                &&& old(index)@.by_mc_version.dom().contains(mc_version@)
                &&& old(index)@.by_mc_version[mc_version@].versions.len() == 0
            },
            Err(_) => false,
        },
{
    index.by_mc_version.known_order();
    match find_empty(&index.by_mc_version) {
        Some(i) => {
            let mc_version = index.by_mc_version.key_at(i).clone();
            proof {
                let keys = index.by_mc_version.keys();
                assert(keys.contains(keys[i as int]));
                assert(index@.by_mc_version[keys[i as int]] == index.by_mc_version.values()[i as int]);
            }
            return Err(IndexError::NoVersions { mc_version });
        },
        None => {},
    }
    let ghost keys = index.by_mc_version.keys();
    let ghost old_values = index.by_mc_version.values();
    let ghost old_view = index@.by_mc_version;
    proof {
        if has_empty(old_view) {
            let g = choose|g: Seq<char>| #[trigger]
                old_view.dom().contains(g) && old_view[g].versions.len() == 0;
            assert(keys.contains(g));
            let j = keys.index_of(g);
            assert(keys[j] == g);
            assert(old_view[keys[j]] == old_values[j]);
            assert(empty_among(old_values, old_values.len() as int));
        }
    }
    let n = index.by_mc_version.len();
    let mut i: usize = 0;
    while i < n
        invariant
            i <= n,
            n == keys.len(),
            keys.len() == old_values.len(),
            index.by_mc_version.keys() == keys,
            index.by_mc_version.values().len() == old_values.len(),
            index@.versions == old(index)@.versions,
            !empty_among(old_values, n as int),
            forall|k: int|
                0 <= k < i ==> #[trigger] index.by_mc_version.values()[k] == resolved_info(
                    old_values[k],
                ),
            forall|k: int|
                i <= k < n ==> #[trigger] index.by_mc_version.values()[k] == old_values[k],
        decreases n - i,
    {
        let holder = ForgeMCVersionInfo { latest: None, recommended: None, versions: Vec::new() };
        let mut info = index.by_mc_version.replace_at(i, holder);
        let ghost taken = info@;
        assert(taken == old_values[i as int]);
        assert(taken.versions.len() > 0);
        let last = info.versions.len() - 1;
        assert(info.versions.deep_view()[last as int] == info.versions@[last as int]@);
        info.latest = Some(info.versions[last].clone());
        index.by_mc_version.replace_at(i, info);
        i += 1;
    }
    index.by_mc_version.known_order();
    proof {
        let f = |info: ForgeMCVersionInfoView| resolved_info(info);
        let now = index@.by_mc_version;
        assert forall|k: Seq<char>| now.dom().contains(k) <==> old_view.dom().contains(k) by {
            if now.dom().contains(k) {
                assert(keys.contains(k));
            }
            if old_view.dom().contains(k) {
                assert(keys.contains(k));
            }
        }
        assert forall|k: Seq<char>| old_view.dom().contains(k) implies #[trigger] now[k] == f(
            old_view[k],
        ) by {
            assert(keys.contains(k));
            let j = keys.index_of(k);
            assert(keys[j] == k);
            assert(now[keys[j]] == index.by_mc_version.values()[j]);
            assert(old_view[keys[j]] == old_values[j]);
        }
        assert(now =~= old_view.map_values(f));
    }
    Ok(())
}

/// The index of a cycle, before the latest builds are worked out: the
/// starting index brought in line with the promotions, with the fetched builds
/// taken in.
pub open spec fn gathered(
    start: DerivedForgeIndexView,
    keys: Seq<Seq<char>>,
    values: Seq<ForgeEntryView>,
    rec: Seq<Seq<char>>,
    fetched: Seq<ForgeEntryView>,
) -> DerivedForgeIndexView {
    with_versions(
        DerivedForgeIndexView {
            versions: start.versions.map_values(|e: ForgeEntryView| refreshed_entry(e, rec)),
            by_mc_version: refreshed_infos(
                start.by_mc_version,
                keys,
                values,
                values.len() as int,
                rec,
            ),
        },
        fetched,
    )
}

/// The index of a cycle: what was gathered, with the latest build of each game
/// version worked out.
pub open spec fn derived(
    start: DerivedForgeIndexView,
    keys: Seq<Seq<char>>,
    values: Seq<ForgeEntryView>,
    rec: Seq<Seq<char>>,
    fetched: Seq<ForgeEntryView>,
) -> DerivedForgeIndexView {
    let g = gathered(start, keys, values, rec, fetched);
    DerivedForgeIndexView { versions: g.versions, by_mc_version: resolved(g.by_mc_version) }
}

/// An index without any build.
pub fn empty_index() -> (r: DerivedForgeIndex)
    ensures
        r@.versions == Map::<Seq<char>, ForgeEntryView>::empty(),
        r@.by_mc_version == Map::<Seq<char>, ForgeMCVersionInfoView>::empty(),
        r.versions.keys() == Seq::<Seq<char>>::empty(),
        r.versions.values().len() == 0,
{
    let r = DerivedForgeIndex { versions: StrMap::new(), by_mc_version: StrMap::new() };
    r.versions.known_order();
    r
}

/// Derives the index of a cycle from the index of the cycle before and the
/// builds that were fetched, in the order in which they came in. First the
/// builds that the index holds are brought in line with the promotions. Then
/// the fetched builds are taken in, each as the last of its game version; a
/// build on the list of known-bad builds is left out. Last, the latest build
/// of each game version is set to the last of its builds.
///
/// No long version of the list of known-bad builds enters the index, no build
/// that the index held is lost, and in the index that comes out every game
/// version has a latest build, the last of its builds.
pub fn derive_index(
    start: DerivedForgeIndex,
    recommended: &Vec<String>,
    fetched: Vec<ForgeEntry>,
) -> (r: Result<DerivedForgeIndex, IndexError>)
    ensures
        match r {
            Ok(idx) => {
                &&& idx@ == derived(
                    start@,
                    start.versions.keys(),
                    start.versions.values(),
                    recommended.deep_view(),
                    fetched.deep_view(),
                )
                &&& forall|k: Seq<char>|
                    bad_version(k) && !start@.versions.dom().contains(k)
                        ==> !#[trigger] idx@.versions.dom().contains(k)
                &&& forall|k: Seq<char>|
                    start@.versions.dom().contains(k) ==> #[trigger] idx@.versions.dom().contains(k)
                &&& forall|g: Seq<char>| #[trigger]
                    idx@.by_mc_version.dom().contains(g) ==> idx@.by_mc_version[g].versions.len()
                        > 0 && idx@.by_mc_version[g].latest == Some(
                        idx@.by_mc_version[g].versions.last(),
                    )
            },
            Err(IndexError::MissingGameVersion { mc_version }) => stray_among(
                start@.by_mc_version,
                start.versions.values(),
                start.versions.values().len() as int,
                recommended.deep_view(),
            ) && !start@.by_mc_version.dom().contains(mc_version@),
            Err(IndexError::NoVersions { mc_version }) => {
                let g = gathered(
                    start@,
                    start.versions.keys(),
                    start.versions.values(),
                    recommended.deep_view(),
                    fetched.deep_view(),
                );
                g.by_mc_version.dom().contains(mc_version@) && g.by_mc_version[mc_version@].versions.len()
                    == 0
            },
        },
{
    let mut index = start;
    let ghost rec = recommended.deep_view();
    match refresh_recommendations(&mut index, recommended) {
        Ok(()) => {},
        Err(e) => {
            return Err(e);
        },
    }
    let ghost refreshed = index@;
    add_versions(&mut index, fetched);
    let ghost g = index@;
    proof {
        lemma_with_versions_keys(refreshed, fetched.deep_view());
        lemma_with_versions_keeps(refreshed, fetched.deep_view());
    }
    match resolve_latest(&mut index) {
        Ok(()) => {},
        Err(e) => {
            return Err(e);
        },
    }
    proof {
        assert forall|m: Seq<char>| #[trigger]
            index@.by_mc_version.dom().contains(m) implies index@.by_mc_version[m].versions.len() > 0
            && index@.by_mc_version[m].latest == Some(index@.by_mc_version[m].versions.last()) by {
            assert(g.by_mc_version.dom().contains(m));
        }
    }
    Ok(index)
}

/// What a cycle of the mod-loader source sets out to do.
pub struct ForgeUpdatePlan {
    /// The short versions that the promotions recommend.
    pub recommended: Vec<String>,
    /// The pairs of game version and long version that are to be fetched.
    pub pending: Vec<(String, String)>,
    /// The index that the cycle starts from.
    pub start: DerivedForgeIndex,
}

/// Plans a cycle from the two remote documents and from what is stored of the
/// cycle before. The cycle starts from the stored index, or from an empty one.
/// It fetches the pairs of the remote listing that the stored listing does not
/// hold; all of them where no listing is stored, or where an index is stored
/// that holds no build.
pub fn plan_forge_update(
    promotions: &ForgeMavenPromotions,
    remote: &ForgeMavenMetadata,
    local: Option<&ForgeMavenMetadata>,
    local_index: Option<DerivedForgeIndex>,
) -> (r: ForgeUpdatePlan)
    ensures
        r.recommended.deep_view() == recommended_list(
            promotions.promos.keys(),
            promotions.promos.values(),
            promotions.promos.keys().len() as int,
        ),
        match local_index {
            Some(index) => r.start == index,
            None => r.start@ == empty_index_view() && r.start.versions.keys() == Seq::<
                Seq<char>,
            >::empty() && r.start.versions.values().len() == 0,
        },
        forall|pair: (Seq<char>, Seq<char>)|
            r.pending.deep_view().contains(pair) <==> listed(remote@.versions, pair) && !(match local {
                Some(l) => !(local_index matches Some(index) && index.versions.keys().len() == 0)
                    && listed(l@.versions, pair),
                None => false,
            }),
        r.pending.deep_view().no_duplicates(),
{
    let recommended = recommended_versions(promotions);
    let (start, process_all) = match local_index {
        Some(index) => {
            let process_all = index.versions.len() == 0;
            (index, process_all)
        },
        None => (empty_index(), false),
    };
    let pending = pending_forge_versions(remote, local, process_all);
    ForgeUpdatePlan { recommended, pending, start }
}

/// What a cycle of the mod-loader source leaves to be stored.
pub struct ForgeUpdate {
    /// The derived index.
    pub index: DerivedForgeIndex,
    /// The coordinate listing, without the pairs that failed.
    pub listing: ForgeMavenMetadata,
}

/// Ends a cycle: derives the index from the index that the cycle started from
/// and the builds that were fetched, and leaves the pairs that failed out of
/// the listing that is stored, so that the next cycle fetches them again.
pub fn finish_forge_update(
    start: DerivedForgeIndex,
    recommended: &Vec<String>,
    remote: &ForgeMavenMetadata,
    fetched: Vec<ForgeEntry>,
    failed: &Vec<(String, String)>,
) -> (r: Result<ForgeUpdate, IndexError>)
    ensures
        match r {
            Ok(u) => {
                &&& u.index@ == derived(
                    start@,
                    start.versions.keys(),
                    start.versions.values(),
                    recommended.deep_view(),
                    fetched.deep_view(),
                )
                &&& u.listing@.versions.dom() == remote@.versions.dom()
                &&& forall|g: Seq<char>| #[trigger]
                    remote@.versions.dom().contains(g) ==> u.listing@.versions[g] == kept_builds(
                        g,
                        remote@.versions[g],
                        failed.deep_view(),
                        remote@.versions[g].len() as int,
                    )
            },
            Err(IndexError::MissingGameVersion { mc_version }) => stray_among(
                start@.by_mc_version,
                start.versions.values(),
                start.versions.values().len() as int,
                recommended.deep_view(),
            ) && !start@.by_mc_version.dom().contains(mc_version@),
            Err(IndexError::NoVersions { mc_version }) => {
                let g = gathered(
                    start@,
                    start.versions.keys(),
                    start.versions.values(),
                    recommended.deep_view(),
                    fetched.deep_view(),
                );
                g.by_mc_version.dom().contains(mc_version@) && g.by_mc_version[mc_version@].versions.len()
                    == 0
            },
        },
{
    match derive_index(start, recommended, fetched) {
        Ok(index) => Ok(ForgeUpdate { index, listing: stored_listing(remote, failed) }),
        Err(e) => Err(e),
    }
}

} // verus!
