//! The stages of a cycle of the mod-loader source. A cycle passes through them
//! once, in order, and ends when the last one is through, when the derived
//! index has not changed since the last run that went through, or at the first
//! failure of storage.

use vstd::prelude::*;

verus! {

/// Where a cycle stands.
#[derive(Debug, Clone, Copy, PartialEq, Eq, Structural)]
pub enum Stage {
    FetchPromotions,
    ParsePromotions,
    FetchVersionList,
    ParseVersionEntries,
    BuildIndex,
    ResolveLatestPerGameVersion,
    PersistIndex,
    ExtractInstallerArtifacts,
    PersistArtifacts,
    /// The cycle went through.
    Done,
    /// The cycle was given up.
    Failed,
}

/// How a stage ended.
#[derive(Debug, Clone, Copy, PartialEq, Eq, Structural)]
pub struct StageResult {
    /// Storage failed, or what the stage needs could not be had at all.
    pub fatal: bool,
    /// The documents derived from the index have to be made again. This is
    /// asked only after the index was stored.
    pub regenerate: bool,
}

/// The place of a stage in the order of the stages.
pub open spec fn rank(stage: Stage) -> int {
    match stage {
        Stage::FetchPromotions => 0,
        Stage::ParsePromotions => 1,
        Stage::FetchVersionList => 2,
        Stage::ParseVersionEntries => 3,
        Stage::BuildIndex => 4,
        Stage::ResolveLatestPerGameVersion => 5,
        Stage::PersistIndex => 6,
        Stage::ExtractInstallerArtifacts => 7,
        Stage::PersistArtifacts => 8,
        Stage::Done => 9,
        Stage::Failed => 9,
    }
}

/// A cycle that has ended.
pub open spec fn terminal(stage: Stage) -> bool {
    stage == Stage::Done || stage == Stage::Failed
}

/// The stage that follows `stage` after it ended with `result`. A cycle that
/// has ended stays where it is. A fatal end gives the cycle up. After the index
/// was stored the cycle is done unless the derived documents have to be made
/// again. Else the next stage in order follows.
pub open spec fn following(stage: Stage, result: StageResult) -> Stage {
    if terminal(stage) {
        stage
    } else if result.fatal {
        Stage::Failed
    } else {
        match stage {
            Stage::FetchPromotions => Stage::ParsePromotions,
            Stage::ParsePromotions => Stage::FetchVersionList,
            Stage::FetchVersionList => Stage::ParseVersionEntries,
            Stage::ParseVersionEntries => Stage::BuildIndex,
            Stage::BuildIndex => Stage::ResolveLatestPerGameVersion,
            Stage::ResolveLatestPerGameVersion => Stage::PersistIndex,
            Stage::PersistIndex => if result.regenerate {
                Stage::ExtractInstallerArtifacts
            } else {
                Stage::Done
            },
            Stage::ExtractInstallerArtifacts => Stage::PersistArtifacts,
            _ => Stage::Done,
        }
    }
}

/// The stage with which a cycle starts.
pub fn first_stage() -> (r: Stage)
    ensures
        r == Stage::FetchPromotions,
{
    Stage::FetchPromotions
}

/// Whether the cycle has ended.
pub fn is_terminal(stage: Stage) -> (r: bool)
    ensures
        r == terminal(stage),
{
    match stage {
        Stage::Done => true,
        Stage::Failed => true,
        _ => false,
    }
}

/// The stage that follows `stage` after it ended with `result`.
pub fn next_stage(stage: Stage, result: StageResult) -> (r: Stage)
    ensures
        r == following(stage, result),
{
    match stage {
        Stage::Done => Stage::Done,
        Stage::Failed => Stage::Failed,
        _ => {
            if result.fatal {
                Stage::Failed
            } else {
                match stage {
                    Stage::FetchPromotions => Stage::ParsePromotions,
                    Stage::ParsePromotions => Stage::FetchVersionList,
                    Stage::FetchVersionList => Stage::ParseVersionEntries,
                    Stage::ParseVersionEntries => Stage::BuildIndex,
                    Stage::BuildIndex => Stage::ResolveLatestPerGameVersion,
                    Stage::ResolveLatestPerGameVersion => Stage::PersistIndex,
                    Stage::PersistIndex => {
                        if result.regenerate {
                            Stage::ExtractInstallerArtifacts
                        } else {
                            Stage::Done
                        }
                    },
                    Stage::ExtractInstallerArtifacts => Stage::PersistArtifacts,
                    _ => Stage::Done,
                }
            }
        },
    }
}

/// A cycle is a single pass: every step leads further on in the order of the
/// stages until the cycle has ended, and the archives are looked at only
/// where the derived documents have to be made again.
pub proof fn lemma_single_pass(stage: Stage, result: StageResult)
    ensures
        !terminal(stage) ==> rank(following(stage, result)) > rank(stage),
        terminal(stage) ==> following(stage, result) == stage,
        following(stage, result) == Stage::ExtractInstallerArtifacts ==> stage
            == Stage::PersistIndex && result.regenerate && !result.fatal,
        following(stage, result) == Stage::Failed ==> stage == Stage::Failed || result.fatal,
{
}

} // verus!
