//! What is done with the archive of a build: which builds are looked at, what
//! has to be fetched and read for each, how an installer profile is matched
//! against the known schemas, and what is kept of a build without an installer.

use vstd::prelude::*;
use crate::errors::{ErrorClass, FailureCause};
use crate::models::forge::{
    archive_url, processed, supported, uses_installer_spec, DerivedForgeIndex, ForgeEntryView,
    ForgeLegacyInfo, ForgeLegacyInfoList, ForgeLegacyInfoView, ForgeProcessedVersion,
    ForgeProcessedVersionView, InstallerInfo,
};
use crate::models::{MetaMcIndexEntry, Timestamp};
use crate::storage::forge::{bad_version, is_bad_version};
use crate::strmap::StrMap;
use crate::text::str_eq;

verus! {

/// A build is looked at where it has an archive to fetch and is not on the
/// list of known-bad builds.
pub open spec fn looked_at(e: ForgeEntryView) -> bool {
    archive_url(processed(e)) is Some && !bad_version(processed(e).long_version)
}

/// The builds among the first `n` entries that are looked at, worked out, in
/// the order of the entries.
pub open spec fn builds_among(entries: Seq<ForgeEntryView>, n: int) -> Seq<ForgeProcessedVersionView>
    decreases n,
{
    if n <= 0 {
        Seq::empty()
    } else if looked_at(entries[n - 1]) {
        builds_among(entries, n - 1).push(processed(entries[n - 1]))
    } else {
        builds_among(entries, n - 1)
    }
}

/// The builds of the index whose archives are to be looked at, in the order of
/// their long versions.
pub fn builds_to_process(index: &DerivedForgeIndex) -> (r: Vec<ForgeProcessedVersion>)
    ensures
        r.deep_view() == builds_among(
            index.versions.values(),
            index.versions.values().len() as int,
        ),
{
    index.versions.known_order();
    let mut out: Vec<ForgeProcessedVersion> = Vec::new();
    let mut i: usize = 0;
    while i < index.versions.len()
        invariant
            i <= index.versions.keys().len(),
            index.versions.keys().len() == index.versions.values().len(),
            out.deep_view() == builds_among(index.versions.values(), i as int),
        decreases index.versions.keys().len() - i,
    {
        let version = ForgeProcessedVersion::new(index.versions.value_at(i));
        let ghost before = out.deep_view();
        if version.url().is_some() && !is_bad_version(version.long_version.as_str()) {
            out.push(version);
            assert(out.deep_view() == before.push(version@));
        }
        i += 1;
    }
    out
}

/// What is there of a build from earlier cycles.
#[derive(Debug, Clone, Copy, PartialEq, Eq, Structural)]
pub struct Stored {
    /// Its installer profile is stored.
    pub profile: bool,
    /// The hashes and the size of its installer are stored.
    pub installer_info: bool,
    /// Its archive is on disk.
    pub archive: bool,
}

/// What has to be done for a build.
#[derive(Debug, Clone, Copy, PartialEq, Eq, Structural)]
pub struct InstallerPlan {
    /// Fetch the archive.
    pub download: bool,
    /// Read the embedded documents out of the installer.
    pub read_profile: bool,
    /// Hash and measure the installer.
    pub hash_installer: bool,
    /// Gather what is kept of a build without an installer.
    pub gather_legacy_info: bool,
}

/// The plan for a build. Where it uses an installer: the profile is read
/// where none is stored, the installer is hashed where its hashes are not
/// stored, and the archive is fetched where one of the two is due and it is not
/// on disk. Where it does not: nothing is done for the game version 1.6.1, nor
/// where the legacy information has been gathered before; else that
/// information is gathered, and the archive fetched where it is not on disk.
pub open spec fn planned(
    v: ForgeProcessedVersionView,
    stored: Stored,
    acquire_legacy_info: bool,
) -> InstallerPlan {
    if uses_installer_spec(v) {
        InstallerPlan {
            download: (!stored.profile || !stored.installer_info) && !stored.archive,
            read_profile: !stored.profile,
            hash_installer: !stored.installer_info,
            gather_legacy_info: false,
        }
    } else if v.mc_version_sane == "1.6.1"@ || !acquire_legacy_info {
        InstallerPlan {
            download: false,
            read_profile: false,
            hash_installer: false,
            gather_legacy_info: false,
        }
    } else {
        InstallerPlan {
            download: !stored.archive,
            read_profile: false,
            hash_installer: false,
            gather_legacy_info: true,
        }
    }
}

/// Decides what has to be done for a build, from what is stored of it and from
/// whether the legacy information is still to be gathered.
pub fn plan_installer(
    version: &ForgeProcessedVersion,
    stored: Stored,
    acquire_legacy_info: bool,
) -> (r: InstallerPlan)
    ensures
        r == planned(version@, stored, acquire_legacy_info),
{
    if version.uses_installer() {
        InstallerPlan {
            download: (!stored.profile || !stored.installer_info) && !stored.archive,
            read_profile: !stored.profile,
            hash_installer: !stored.installer_info,
            gather_legacy_info: false,
        }
    } else if str_eq(version.mc_version_sane.as_str(), "1.6.1") || !acquire_legacy_info {
        InstallerPlan {
            download: false,
            read_profile: false,
            hash_installer: false,
            gather_legacy_info: false,
        }
    } else {
        InstallerPlan {
            download: !stored.archive,
            read_profile: false,
            hash_installer: false,
            gather_legacy_info: true,
        }
    }
}

/// A plan never fetches an archive that is on disk, and fetches one only for
/// work that needs it.
pub proof fn lemma_plan_fetches_for_work(
    v: ForgeProcessedVersionView,
    stored: Stored,
    acquire_legacy_info: bool,
)
    ensures
        planned(v, stored, acquire_legacy_info).download ==> !stored.archive && (planned(
            v,
            stored,
            acquire_legacy_info,
        ).read_profile || planned(v, stored, acquire_legacy_info).hash_installer || planned(
            v,
            stored,
            acquire_legacy_info,
        ).gather_legacy_info),
        planned(v, stored, acquire_legacy_info).gather_legacy_info ==> !uses_installer_spec(v)
            && acquire_legacy_info,
{
}

/// The shapes that an installer profile has had over time.
#[derive(Debug, Clone, Copy, PartialEq, Eq, Structural)]
pub enum SchemaVariant {
    Legacy,
    V1,
    V2,
}

/// What matching an installer profile against the schemas gave.
#[derive(Debug, Clone, Copy, PartialEq, Eq, Structural)]
pub enum ProfileParse {
    LegacyProfile,
    V1Profile,
    V2Profile,
    Unrecognized,
}

/// The schemas in the order in which a profile is tried against them.
pub open spec fn schema_order_spec() -> Seq<SchemaVariant> {
    seq![SchemaVariant::V1, SchemaVariant::V2, SchemaVariant::Legacy]
}

/// The schemas in the order in which a profile is tried against them.
pub fn schema_order() -> (r: Vec<SchemaVariant>)
    ensures
        r@ == schema_order_spec(),
{
    let mut r: Vec<SchemaVariant> = Vec::new();
    r.push(SchemaVariant::V1);
    r.push(SchemaVariant::V2);
    r.push(SchemaVariant::Legacy);
    assert(r@ =~= schema_order_spec());
    r
}

/// The place of the first attempt that parsed, if any did.
pub open spec fn first_parsed(attempts: Seq<bool>) -> Option<int>
    decreases attempts.len(),
{
    if attempts.len() == 0 {
        None
    } else if attempts[0] {
        Some(0)
    } else {
        match first_parsed(attempts.drop_first()) {
            Some(i) => Some(i + 1),
            None => None,
        }
    }
}

/// `first_parsed` is the place of an attempt that parsed, before which none
/// did; it is `None` only where none did.
pub proof fn lemma_first_parsed(attempts: Seq<bool>)
    ensures
        match first_parsed(attempts) {
            Some(i) => 0 <= i < attempts.len() && attempts[i] && forall|k: int|
                0 <= k < i ==> !attempts[k],
            None => forall|k: int| 0 <= k < attempts.len() ==> !attempts[k],
        },
    decreases attempts.len(),
{
    if attempts.len() > 0 && !attempts[0] {
        let rest = attempts.drop_first();
        lemma_first_parsed(rest);
        match first_parsed(rest) {
            Some(i) => {
                assert forall|k: int| 0 <= k < i + 1 implies !attempts[k] by {
                    if k > 0 {
                        assert(rest[k - 1] == attempts[k]);
                    }
                }
                assert(rest[i] == attempts[i + 1]);
            },
            None => {
                assert forall|k: int| 0 <= k < attempts.len() implies !attempts[k] by {
                    if k > 0 {
                        assert(rest[k - 1] == attempts[k]);
                    }
                }
            },
        }
    }
}

/// What a profile is taken for: the first schema, in the order of
/// `schema_order`, against which it parsed.
pub open spec fn recognized(attempts: Seq<bool>) -> ProfileParse {
    match first_parsed(attempts) {
        Some(i) => if i < schema_order_spec().len() {
            parse_of(schema_order_spec()[i])
        } else {
            ProfileParse::Unrecognized
        },
        None => ProfileParse::Unrecognized,
    }
}

/// The result that stands for a schema.
pub open spec fn parse_of(v: SchemaVariant) -> ProfileParse {
    match v {
        SchemaVariant::Legacy => ProfileParse::LegacyProfile,
        SchemaVariant::V1 => ProfileParse::V1Profile,
        SchemaVariant::V2 => ProfileParse::V2Profile,
    }
}

/// Takes a profile for the first schema against which it parsed. `attempts`
/// says of each schema of `schema_order`, in that order, whether the profile
/// parsed against it; attempts beyond the known schemas count for nothing.
pub fn recognize_profile(attempts: &Vec<bool>) -> (r: ProfileParse)
    ensures
        r == recognized(attempts@),
{
    let order = schema_order();
    let mut i: usize = 0;
    proof {
        assert(attempts@.skip(0) == attempts@);
    }
    while i < attempts.len()
        invariant
            i <= attempts.len(),
            order@ == schema_order_spec(),
            first_parsed(attempts@.skip(i as int)) matches Some(k) ==> first_parsed(attempts@)
                == Some(k + i),
            first_parsed(attempts@.skip(i as int)) is None ==> first_parsed(attempts@) is None,
        decreases attempts.len() - i,
    {
        assert(attempts@.skip(i as int)[0] == attempts@[i as int]);
        assert(attempts@.skip(i as int).drop_first() == attempts@.skip(i + 1));
        if attempts[i] {
            if i < order.len() {
                return match order[i] {
                    SchemaVariant::Legacy => ProfileParse::LegacyProfile,
                    SchemaVariant::V1 => ProfileParse::V1Profile,
                    SchemaVariant::V2 => ProfileParse::V2Profile,
                };
            } else {
                return ProfileParse::Unrecognized;
            }
        }
        i += 1;
    }
    ProfileParse::Unrecognized
}

/// What is done with an installer profile.
#[derive(Debug, Clone, Copy, PartialEq, Eq, Structural)]
pub enum ProfileVerdict {
    /// It is stored, as a profile of this shape.
    Store(ProfileParse),
    /// The build is passed over: generation for it is expected to fail.
    Skip,
    /// The build fails, with this cause.
    Fail(FailureCause),
}

/// What to do with the profile of a build: a profile that parsed is stored;
/// one that parsed against no schema fails a supported build and lets any
/// other be passed over.
pub open spec fn verdict_of(parse: ProfileParse, is_supported: bool) -> ProfileVerdict {
    match parse {
        ProfileParse::Unrecognized => if is_supported {
            ProfileVerdict::Fail(FailureCause::Validation)
        } else {
            ProfileVerdict::Skip
        },
        p => ProfileVerdict::Store(p),
    }
}

/// Decides what to do with the installer profile of `version`, from what
/// matching it against the schemas gave.
pub fn profile_verdict(version: &ForgeProcessedVersion, parse: ProfileParse) -> (r: ProfileVerdict)
    ensures
        r == verdict_of(parse, supported(version@)),
{
    match parse {
        ProfileParse::Unrecognized => {
            if version.is_supported() {
                ProfileVerdict::Fail(FailureCause::Validation)
            } else {
                ProfileVerdict::Skip
            }
        },
        p => ProfileVerdict::Store(p),
    }
}

/// What to do where the installer of a build holds no profile: a supported
/// build fails, any other is passed over.
pub open spec fn missing_verdict(is_supported: bool) -> ProfileVerdict {
    if is_supported {
        ProfileVerdict::Fail(FailureCause::MissingEntry)
    } else {
        ProfileVerdict::Skip
    }
}

/// Decides what to do where the installer of `version` holds no profile.
pub fn missing_profile_verdict(version: &ForgeProcessedVersion) -> (r: ProfileVerdict)
    ensures
        r == missing_verdict(supported(version@)),
{
    if version.is_supported() {
        ProfileVerdict::Fail(FailureCause::MissingEntry)
    } else {
        ProfileVerdict::Skip
    }
}

/// A profile fails a build only where the build is supported, and whatever
/// parsed against a schema is stored.
pub proof fn lemma_profile_verdicts(parse: ProfileParse, is_supported: bool)
    ensures
        verdict_of(parse, is_supported) is Fail ==> is_supported && parse
            == ProfileParse::Unrecognized,
        missing_verdict(is_supported) is Fail ==> is_supported,
        parse != ProfileParse::Unrecognized ==> verdict_of(parse, is_supported)
            == ProfileVerdict::Store(parse),
        verdict_of(parse, is_supported) matches ProfileVerdict::Fail(c) ==> crate::errors::class_of(c)
            == ErrorClass::DataError,
        missing_verdict(is_supported) matches ProfileVerdict::Fail(c) ==> crate::errors::class_of(c)
            == ErrorClass::DataError,
{
}

/// The start of 1970, UTC.
pub open spec fn epoch() -> Timestamp {
    Timestamp { unix_nanos: 0, offset_seconds: 0 }
}

/// The latest of the first `n` instants, and the epoch where none is later
/// than it. Of two that name the same instant the earlier in the list stays.
pub open spec fn latest_among(stamps: Seq<Timestamp>, n: int) -> Timestamp
    decreases n,
{
    if n <= 0 {
        epoch()
    } else {
        let before = latest_among(stamps, n - 1);
        if stamps[n - 1].unix_nanos > before.unix_nanos {
            stamps[n - 1]
        } else {
            before
        }
    }
}

/// The latest of the modification times of the entries of an archive, and the
/// epoch where it has none after it.
pub fn latest_timestamp(stamps: &Vec<Timestamp>) -> (r: Timestamp)
    ensures
        r == latest_among(stamps@, stamps@.len() as int),
{
    let mut latest = Timestamp { unix_nanos: 0, offset_seconds: 0 };
    let mut i: usize = 0;
    while i < stamps.len()
        invariant
            i <= stamps.len(),
            latest == latest_among(stamps@, i as int),
        decreases stamps.len() - i,
    {
        if stamps[i].unix_nanos > latest.unix_nanos {
            latest = stamps[i];
        }
        i += 1;
    }
    latest
}

/// The latest instant is no earlier than the epoch or than any of the
/// instants, and is one of them or the epoch.
pub proof fn lemma_latest_is_greatest(stamps: Seq<Timestamp>, n: int)
    requires
        0 <= n <= stamps.len(),
    ensures
        latest_among(stamps, n).unix_nanos >= 0,
        forall|k: int| 0 <= k < n ==> stamps[k].unix_nanos <= latest_among(stamps, n).unix_nanos,
        latest_among(stamps, n) == epoch() || exists|k: int|
            0 <= k < n && stamps[k] == latest_among(stamps, n),
    decreases n,
{
    if n > 0 {
        lemma_latest_is_greatest(stamps, n - 1);
        let before = latest_among(stamps, n - 1);
        if stamps[n - 1].unix_nanos > before.unix_nanos {
            assert(stamps[n - 1] == latest_among(stamps, n));
        } else if before != epoch() {
            let k = choose|k: int| 0 <= k < n - 1 && stamps[k] == before;
            assert(0 <= k < n && stamps[k] == latest_among(stamps, n));
        }
    }
}

/// What is kept of a build without an installer: the latest modification time
/// in its archive, the two digests of the archive and its size.
pub fn legacy_info(stamps: &Vec<Timestamp>, sha1: String, sha256: String, size: u64) -> (r:
    ForgeLegacyInfo)
    ensures
        r@ == (ForgeLegacyInfoView {
            release_time: Some(latest_among(stamps@, stamps@.len() as int)),
            size: Some(size),
            sha256: Some(sha256@),
            sha1: Some(sha1@),
        }),
{
    ForgeLegacyInfo {
        release_time: Some(latest_timestamp(stamps)),
        size: Some(size),
        sha256: Some(sha256),
        sha1: Some(sha1),
    }
}

/// The hashes and the size of an installer.
pub fn installer_info(sha1: String, sha256: String, size: u64) -> (r: InstallerInfo)
    ensures
        r@.sha1hash == Some(sha1@),
        r@.sha256hash == Some(sha256@),
        r@.size == Some(size),
{
    InstallerInfo { sha1hash: Some(sha1), sha256hash: Some(sha256), size: Some(size) }
}

/// The legacy information of the first `n` builds, by long version: of each
/// build that gave some, what it gave; a later build of the same long version
/// takes the place of an earlier one.
pub open spec fn legacy_collected(
    gathered: Seq<Option<(Seq<char>, ForgeLegacyInfoView)>>,
    n: int,
) -> Map<Seq<char>, ForgeLegacyInfoView>
    decreases n,
{
    if n <= 0 {
        Map::empty()
    } else {
        match gathered[n - 1] {
            Some(pair) => legacy_collected(gathered, n - 1).insert(pair.0, pair.1),
            None => legacy_collected(gathered, n - 1),
        }
    }
}

/// Collects what the builds without an installer gave into one list.
pub fn collect_legacy_info(gathered: Vec<Option<(String, ForgeLegacyInfo)>>) -> (r:
    ForgeLegacyInfoList)
    ensures
        r@.number == legacy_collected(gathered.deep_view(), gathered.deep_view().len() as int),
{
    let mut list = ForgeLegacyInfoList { number: StrMap::new() };
    let ghost all = gathered.deep_view();
    for item in it: gathered
        invariant
            it.seq() == gathered@,
            all == gathered.deep_view(),
            list@.number == legacy_collected(all, it.index() as int),
    {
        assert(all[it.index() as int] == item.deep_view());
        if let Some((long_version, info)) = item {
            list.number.insert(long_version, info);
        }
    }
    list
}

/// The record of a run that went through: the digest of the index it worked
/// from, and when it ran. The path is filled in when the record is stored.
pub fn index_entry(hash: String, now: Timestamp) -> (r: MetaMcIndexEntry)
    ensures
        r.hash@ == hash@,
        r.update_time == now,
        r.path@ == Seq::<char>::empty(),
{
    MetaMcIndexEntry { update_time: now, path: String::new(), hash }
}

} // verus!
