//! What is to be fetched in a cycle, and the bounded dispatch of the fetches:
//! the identities that are missing or stale, a scheduler that never has more
//! tasks in flight than allowed, and the aggregate of what the tasks reported.

use vstd::prelude::*;
use crate::duplicate::Duplicate;
use crate::models::Timestamp;
use crate::text::str_eq;

verus! {

/// One unit that can be fetched: a version of the game, or a build of the
/// mod-loader.
#[derive(Debug, Clone, PartialEq, Eq)]
pub struct IdentityRecord {
    /// The identifier.
    pub id: String,
    /// When upstream last changed it.
    pub remote_timestamp: Timestamp,
    /// Where it is fetched from.
    pub source_url: String,
}

/// What an `IdentityRecord` holds, as plain values.
pub struct IdentityRecordView {
    pub id: Seq<char>,
    pub remote_timestamp: Timestamp,
    pub source_url: Seq<char>,
}

impl DeepView for IdentityRecord {
    type V = IdentityRecordView;

    open spec fn deep_view(&self) -> IdentityRecordView {
        IdentityRecordView {
            id: self.id@,
            remote_timestamp: self.remote_timestamp,
            source_url: self.source_url@,
        }
    }
}

impl View for IdentityRecord {
    type V = IdentityRecordView;

    open spec fn view(&self) -> IdentityRecordView {
        self.deep_view()
    }
}

impl Duplicate for IdentityRecord {
    fn duplicate(&self) -> (r: Self) {
        IdentityRecord {
            id: self.id.clone(),
            remote_timestamp: self.remote_timestamp,
            source_url: self.source_url.clone(),
        }
    }
}

/// The instant that the local records give for `id`: that of the last record
/// with this id, in nanoseconds; `None` where no record has it.
pub open spec fn local_time(local: Seq<IdentityRecordView>, id: Seq<char>) -> Option<int>
    decreases local.len(),
{
    if local.len() == 0 {
        None
    } else if local.last().id == id {
        Some(local.last().remote_timestamp.unix_nanos as int)
    } else {
        local_time(local.drop_last(), id)
    }
}

/// A remote record is pending where its id is absent locally, or present with
/// an older instant than the remote record reports.
pub open spec fn is_pending(local: Seq<IdentityRecordView>, r: IdentityRecordView) -> bool {
    match local_time(local, r.id) {
        None => true,
        Some(t) => t < r.remote_timestamp.unix_nanos,
    }
}

/// The pending records among the first `n` remote ones, in their order.
pub open spec fn pending_among(
    remote: Seq<IdentityRecordView>,
    local: Seq<IdentityRecordView>,
    n: int,
) -> Seq<IdentityRecordView>
    decreases n,
{
    if n <= 0 {
        Seq::empty()
    } else if is_pending(local, remote[n - 1]) {
        pending_among(remote, local, n - 1).push(remote[n - 1])
    } else {
        pending_among(remote, local, n - 1)
    }
}

/// The work that is pending: the remote records that are missing or stale
/// locally, in the order of `remote`.
pub open spec fn pending_of(remote: Seq<IdentityRecordView>, local: Seq<IdentityRecordView>) -> Seq<
    IdentityRecordView,
> {
    pending_among(remote, local, remote.len() as int)
}

/// The instant that `local` gives for `id`, in nanoseconds.
pub fn find_local_time(local: &Vec<IdentityRecord>, id: &str) -> (r: Option<i128>)
    ensures
        match r {
            Some(t) => local_time(local.deep_view(), id@) == Some(t as int),
            None => local_time(local.deep_view(), id@) is None,
        },
{
    let ghost all = local.deep_view();
    let mut i: usize = local.len();
    proof {
        assert(all.take(i as int) == all);
    }
    while i > 0
        invariant
            i <= local.len(),
            all == local.deep_view(),
            local_time(all, id@) == local_time(all.take(i as int), id@),
        decreases i,
    {
        i -= 1;
        proof {
            assert(all.take(i + 1).last() == all[i as int]);
            assert(all.take(i + 1).drop_last() == all.take(i as int));
            assert(all[i as int] == local@[i as int]@);
        }
        if str_eq(local[i].id.as_str(), id) {
            return Some(local[i].remote_timestamp.unix_nanos);
        }
    }
    None
}

/// Whether the remote record `r` is pending with respect to `local`.
pub fn pending(local: &Vec<IdentityRecord>, r: &IdentityRecord) -> (p: bool)
    ensures
        p == is_pending(local.deep_view(), r@),
{
    match find_local_time(local, r.id.as_str()) {
        None => true,
        Some(t) => t < r.remote_timestamp.unix_nanos,
    }
}

/// The records of `remote` that are to be fetched: those whose id `local`
/// does not hold, and those that `local` holds with an older instant.
/// Staleness goes by the instants alone, not by content.
pub fn diff(remote: &Vec<IdentityRecord>, local: &Vec<IdentityRecord>) -> (r: Vec<IdentityRecord>)
    ensures
        r.deep_view() == pending_of(remote.deep_view(), local.deep_view()),
{
    let mut out: Vec<IdentityRecord> = Vec::new();
    let mut i: usize = 0;
    while i < remote.len()
        invariant
            i <= remote.len(),
            out.deep_view() == pending_among(remote.deep_view(), local.deep_view(), i as int),
        decreases remote.len() - i,
    {
        let ghost before = out.deep_view();
        assert(remote.deep_view()[i as int] == remote@[i as int]@);
        if pending(local, &remote[i]) {
            out.push(remote[i].duplicate());
            assert(out.deep_view() == before.push(remote@[i as int]@));
        }
        i += 1;
    }
    out
}

/// With nothing held locally every remote record is pending: the difference
/// is the remote list itself, nothing left out and nothing added.
pub proof fn lemma_diff_of_empty_local(remote: Seq<IdentityRecordView>)
    ensures
        pending_of(remote, Seq::empty()) == remote,
{
    lemma_all_pending(remote, remote.len() as int);
    assert(remote.take(remote.len() as int) == remote);
}

/// With nothing held locally the pending records among the first `n` are the
/// first `n`.
pub proof fn lemma_all_pending(remote: Seq<IdentityRecordView>, n: int)
    requires
        0 <= n <= remote.len(),
    ensures
        pending_among(remote, Seq::empty(), n) == remote.take(n),
    decreases n,
{
    if n > 0 {
        lemma_all_pending(remote, n - 1);
        assert(remote.take(n) == remote.take(n - 1).push(remote[n - 1]));
    } else {
        assert(remote.take(0) == Seq::<IdentityRecordView>::empty());
    }
}

/// No two records of `s` have the same id.
pub open spec fn distinct_ids(s: Seq<IdentityRecordView>) -> bool {
    forall|a: int, b: int| 0 <= a < s.len() && 0 <= b < s.len() && a != b ==> s[a].id != s[b].id
}

/// `x` is one of the first `n` remote records, and pending.
pub open spec fn pending_record(
    remote: Seq<IdentityRecordView>,
    local: Seq<IdentityRecordView>,
    n: int,
    x: IdentityRecordView,
) -> bool {
    exists|m: int| 0 <= m < n && #[trigger] remote[m] == x && is_pending(local, remote[m])
}

/// What the pending records among the first `n` are: each is one of the first
/// `n` remote records and is pending, every pending one of these is among them,
/// and where the remote ids are distinct so are theirs.
pub proof fn lemma_pending_among(
    remote: Seq<IdentityRecordView>,
    local: Seq<IdentityRecordView>,
    n: int,
)
    requires
        0 <= n <= remote.len(),
    ensures
        forall|k: int|
            0 <= k < pending_among(remote, local, n).len() ==> pending_record(
                remote,
                local,
                n,
                #[trigger] pending_among(remote, local, n)[k],
            ),
        forall|m: int|
            0 <= m < n && is_pending(local, #[trigger] remote[m]) ==> pending_among(
                remote,
                local,
                n,
            ).contains(remote[m]),
        distinct_ids(remote) ==> distinct_ids(pending_among(remote, local, n)),
    decreases n,
{
    if n > 0 {
        lemma_pending_among(remote, local, n - 1);
        let before = pending_among(remote, local, n - 1);
        let now = pending_among(remote, local, n);
        assert forall|x: IdentityRecordView| pending_record(remote, local, n - 1, x) implies pending_record(
            remote,
            local,
            n,
            x,
        ) by {
            let m = choose|m: int|
                0 <= m < n - 1 && #[trigger] remote[m] == x && is_pending(local, remote[m]);
            assert(0 <= m < n && remote[m] == x && is_pending(local, remote[m]));
        }
        if is_pending(local, remote[n - 1]) {
            assert(now == before.push(remote[n - 1]));
            assert(pending_record(remote, local, n, remote[n - 1]));
            assert forall|k: int| 0 <= k < now.len() implies pending_record(
                remote,
                local,
                n,
                #[trigger] now[k],
            ) by {
                if k < before.len() {
                    assert(pending_record(remote, local, n - 1, before[k]));
                }
            }
            assert forall|m: int| 0 <= m < n && is_pending(local, #[trigger] remote[m]) implies now.contains(
                remote[m],
            ) by {
                if m < n - 1 {
                    let k = before.index_of(remote[m]);
                    assert(before[k] == remote[m]);
                    assert(now[k] == remote[m]);
                } else {
                    assert(now[now.len() - 1] == remote[m]);
                }
            }
            if distinct_ids(remote) {
                assert forall|a: int, b: int|
                    0 <= a < now.len() && 0 <= b < now.len() && a != b implies now[a].id
                    != now[b].id by {
                    if a < before.len() && b < before.len() {
                        assert(before[a].id != before[b].id);
                    } else {
                        let x = if a < before.len() { a } else { b };
                        assert(pending_record(remote, local, n - 1, before[x]));
                        let m = choose|m: int|
                            0 <= m < n - 1 && #[trigger] remote[m] == before[x] && is_pending(
                                local,
                                remote[m],
                            );
                        assert(remote[m].id != remote[n - 1].id);
                    }
                }
            }
        } else {
            assert forall|k: int| 0 <= k < now.len() implies pending_record(
                remote,
                local,
                n,
                #[trigger] now[k],
            ) by {
                assert(pending_record(remote, local, n - 1, before[k]));
            }
        }
    }
}

/// A remote record whose id is held locally with an older instant is in the
/// difference, and where the remote ids are distinct it is there exactly once:
/// no other record of the difference has its id.
pub proof fn lemma_stale_listed_once(
    remote: Seq<IdentityRecordView>,
    local: Seq<IdentityRecordView>,
    i: int,
)
    requires
        0 <= i < remote.len(),
        distinct_ids(remote),
        local_time(local, remote[i].id) matches Some(t) && t < remote[i].remote_timestamp.unix_nanos,
    ensures
        pending_of(remote, local).contains(remote[i]),
        forall|a: int, b: int|
            0 <= a < pending_of(remote, local).len() && 0 <= b < pending_of(remote, local).len()
                && pending_of(remote, local)[a].id == remote[i].id && pending_of(remote, local)[b].id
                == remote[i].id ==> a == b,
{
    lemma_pending_among(remote, local, remote.len() as int);
    assert(is_pending(local, remote[i]));
}

/// A pending record, with whether it is fetched even where a copy is stored.
#[derive(Debug, Clone, PartialEq, Eq)]
pub struct PendingUpdate {
    /// What is to be fetched.
    pub record: IdentityRecord,
    /// Fetch it even where a copy is stored.
    pub force_update: bool,
}

/// What a `PendingUpdate` holds, as plain values.
pub struct PendingUpdateView {
    pub record: IdentityRecordView,
    pub force_update: bool,
}

impl DeepView for PendingUpdate {
    type V = PendingUpdateView;

    open spec fn deep_view(&self) -> PendingUpdateView {
        PendingUpdateView { record: self.record@, force_update: self.force_update }
    }
}

/// The updates among the first `n` remote records. Without a local manifest
/// every record is fetched, whatever is stored. With one, a record that it does
/// not hold is fetched unless a copy is stored, and one that it holds with an
/// older instant is fetched in any case.
pub open spec fn updates_among(
    remote: Seq<IdentityRecordView>,
    local: Option<Seq<IdentityRecordView>>,
    n: int,
) -> Seq<PendingUpdateView>
    decreases n,
{
    if n <= 0 {
        Seq::empty()
    } else {
        let before = updates_among(remote, local, n - 1);
        let r = remote[n - 1];
        match local {
            None => before.push(PendingUpdateView { record: r, force_update: true }),
            Some(l) => if is_pending(l, r) {
                before.push(
                    PendingUpdateView { record: r, force_update: local_time(l, r.id) is Some },
                )
            } else {
                before
            },
        }
    }
}

/// The updates that a cycle has to make, in the order of `remote`.
pub fn pending_updates(remote: &Vec<IdentityRecord>, local: Option<&Vec<IdentityRecord>>) -> (r:
    Vec<PendingUpdate>)
    ensures
        r.deep_view() == updates_among(
            remote.deep_view(),
            local.deep_view(),
            remote.deep_view().len() as int,
        ),
{
    let mut out: Vec<PendingUpdate> = Vec::new();
    let mut i: usize = 0;
    while i < remote.len()
        invariant
            i <= remote.len(),
            out.deep_view() == updates_among(remote.deep_view(), local.deep_view(), i as int),
        decreases remote.len() - i,
    {
        let ghost before = out.deep_view();
        assert(remote.deep_view()[i as int] == remote@[i as int]@);
        match local {
            None => {
                out.push(PendingUpdate { record: remote[i].duplicate(), force_update: true });
                assert(out.deep_view() == before.push(
                    PendingUpdateView { record: remote@[i as int]@, force_update: true },
                ));
            },
            Some(l) => {
                let known = find_local_time(l, remote[i].id.as_str());
                let due = match known {
                    None => true,
                    Some(t) => t < remote[i].remote_timestamp.unix_nanos,
                };
                if due {
                    let force_update = known.is_some();
                    out.push(PendingUpdate { record: remote[i].duplicate(), force_update });
                    assert(out.deep_view() == before.push(
                        PendingUpdateView { record: remote@[i as int]@, force_update },
                    ));
                }
            },
        }
        i += 1;
    }
    out
}

} // verus!
