//! What a cycle does for the game distribution: which versions are fetched,
//! and what is made of an old snapshot.

use vstd::prelude::*;
use crate::models::mojang::{
    MinecraftVersion, MojangVersionManifest, MojangVersionManifestVersion, OldSnapshotEntry,
    VersionDownload, VersionDownloads,
};
use crate::sync::{
    pending_updates, updates_among, IdentityRecord, IdentityRecordView, PendingUpdate,
};
use crate::text::{concat, contains_str};

verus! {

/// The records of the versions that a manifest lists: the id of each version,
/// when it was last changed, and where its document lies.
pub open spec fn records_of(m: MojangVersionManifest) -> Seq<IdentityRecordView> {
    Seq::new(
        m.versions@.len(),
        |i: int|
            IdentityRecordView {
                id: m.versions@[i].id@,
                remote_timestamp: m.versions@[i].time,
                source_url: m.versions@[i].url@,
            },
    )
}

/// The records of the versions that `manifest` lists, in its order.
pub fn identity_records(manifest: &MojangVersionManifest) -> (r: Vec<IdentityRecord>)
    ensures
        r.deep_view() == records_of(*manifest),
{
    let mut out: Vec<IdentityRecord> = Vec::new();
    let mut i: usize = 0;
    while i < manifest.versions.len()
        invariant
            i <= manifest.versions.len(),
            out@.len() == i,
            forall|k: int| 0 <= k < i ==> out@[k]@ == records_of(*manifest)[k],
        decreases manifest.versions.len() - i,
    {
        let v = &manifest.versions[i];
        out.push(
            IdentityRecord { id: v.id.clone(), remote_timestamp: v.time, source_url: v.url.clone() },
        );
        i += 1;
    }
    assert(out.deep_view() =~= records_of(*manifest));
    out
}

/// The local records, where there is a local manifest.
pub open spec fn local_records(local: Option<MojangVersionManifest>) -> Option<
    Seq<IdentityRecordView>,
> {
    match local {
        Some(m) => Some(records_of(m)),
        None => None,
    }
}

/// The versions that a cycle fetches: every version of the remote manifest
/// where there is no local one; else those that the local manifest does not
/// list, and those that it lists with an older instant.
pub fn pending_versions(remote: &MojangVersionManifest, local: Option<&MojangVersionManifest>) -> (r:
    Vec<PendingUpdate>)
    ensures
        r.deep_view() == updates_among(
            records_of(*remote),
            local_records(
                match local {
                    Some(l) => Some(*l),
                    None => None,
                },
            ),
            remote.versions@.len() as int,
        ),
{
    let remote_records = identity_records(remote);
    match local {
        Some(l) => {
            let local_records = identity_records(l);
            pending_updates(&remote_records, Some(&local_records))
        },
        None => pending_updates(&remote_records, None),
    }
}

/// A version is fetched where no copy of it is stored, or where it is to be
/// fetched in any case.
pub fn needs_fetch(stored: bool, force_update: bool) -> (r: bool)
    ensures
        r == (!stored || force_update),
{
    !stored || force_update
}

/// The offset that is put after the release date of an old snapshot.
pub open spec fn snapshot_time_suffix() -> Seq<char> {
    "T00:00:00+02:00"@
}

/// Makes the document of an old snapshot out of the document that was fetched
/// for it: the release date becomes an instant, which is also the time of the
/// document; the client download is the jar of the snapshot; the type is
/// `old_snapshot`. Everything else stays.
pub fn old_snapshot_version(version: MinecraftVersion, snapshot: &OldSnapshotEntry) -> (r:
    MinecraftVersion)
    ensures
        r.release_time@ == version.release_time@ + snapshot_time_suffix(),
        r.time@ == r.release_time@,
        r.release_type@ == "old_snapshot"@,
        r.downloads matches Some(d) && d.client.url@ == snapshot.jar@ && d.client.sha1@
            == snapshot.sha1@ && d.client.size == snapshot.size && d.server is None
            && d.windows_server is None && d.client_mappings is None && d.server_mappings is None,
        r.asset_index == version.asset_index,
        r.assets == version.assets,
        r.compliance_level == version.compliance_level,
        r.id == version.id,
        r.java_version == version.java_version,
        r.libraries == version.libraries,
        r.logging == version.logging,
        r.main_class == version.main_class,
        r.minecraft_arguments == version.minecraft_arguments,
        r.arguments == version.arguments,
        r.minimum_launcher_version == version.minimum_launcher_version,
{
    let mut v = version;
    let release_time = concat(v.release_time.as_str(), "T00:00:00+02:00");
    v.time = release_time.clone();
    v.release_time = release_time;
    v.downloads = Some(
        VersionDownloads {
            client: VersionDownload {
                url: snapshot.jar.clone(),
                sha1: snapshot.sha1.clone(),
                size: snapshot.size,
            },
            server: None,
            windows_server: None,
            client_mappings: None,
            server_mappings: None,
        },
    );
    v.release_type = "old_snapshot".to_owned();
    v
}

/// The first `n` versions but for those whose id is among `failed`.
pub open spec fn kept_versions(
    versions: Seq<MojangVersionManifestVersion>,
    failed: Seq<Seq<char>>,
    n: int,
) -> Seq<MojangVersionManifestVersion>
    decreases n,
{
    if n <= 0 {
        Seq::empty()
    } else if failed.contains(versions[n - 1].id@) {
        kept_versions(versions, failed, n - 1)
    } else {
        kept_versions(versions, failed, n - 1).push(versions[n - 1])
    }
}

/// The manifest that is stored after a cycle: the remote manifest without the
/// versions that failed, so that the next cycle finds them pending again.
pub fn stored_manifest(remote: MojangVersionManifest, failed: &Vec<String>) -> (r:
    MojangVersionManifest)
    ensures
        r.latest == remote.latest,
        r.versions@ == kept_versions(
            remote.versions@,
            failed.deep_view(),
            remote.versions@.len() as int,
        ),
{
    let MojangVersionManifest { latest, versions } = remote;
    let ghost all = versions@;
    let mut kept: Vec<MojangVersionManifestVersion> = Vec::new();
    for version in it: versions
        invariant
            it.seq() == all,
            kept@ == kept_versions(all, failed.deep_view(), it.index() as int),
    {
        if !contains_str(failed, version.id.as_str()) {
            kept.push(version);
        }
    }
    MojangVersionManifest { latest, versions: kept }
}

} // verus!
