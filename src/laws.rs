use vstd::prelude::*;
use crate::digest::digest_of;
use crate::status::{FileModel, SyncStatus, status_of};
use crate::transfer::{Direction, Transfer, PairModel, outcome_of, pair_status, transfer_of};

verus! {

/// Two existing, readable files with the same bytes are `Synced`, whatever
/// their modification times.
pub proof fn lemma_identical_content_is_synced(repo: FileModel, system: FileModel)
    requires
        repo.exists,
        system.exists,
        repo.content is Some,
        repo.content == system.content,
    ensures
        status_of(repo, system) == SyncStatus::Synced,
{
}

/// Absence decides the status: only the system copy present gives
/// `RepoMissing`, only the repository copy present gives `SystemMissing`,
/// neither gives `BothMissing`.
pub proof fn lemma_missing_sides(repo: FileModel, system: FileModel)
    ensures
        !repo.exists && system.exists ==> status_of(repo, system) == SyncStatus::RepoMissing,
        repo.exists && !system.exists ==> status_of(repo, system) == SyncStatus::SystemMissing,
        !repo.exists && !system.exists ==> status_of(repo, system) == SyncStatus::BothMissing,
{
}

/// Two existing, readable files whose contents have different fingerprints
/// are ordered by their modification times: a strictly later repository time
/// gives `RepoNewer`, a strictly earlier one `SystemNewer`, equal times
/// `Conflict`.
pub proof fn lemma_differing_content_by_time(
    repo_bytes: Seq<u8>,
    system_bytes: Seq<u8>,
    repo_time: int,
    system_time: int,
)
    requires
        digest_of(repo_bytes) != digest_of(system_bytes),
    ensures
        ({
            let repo = FileModel {
                exists: true,
                content: Some(repo_bytes),
                modified: Some(repo_time),
            };
            let system = FileModel {
                exists: true,
                content: Some(system_bytes),
                modified: Some(system_time),
            };
            &&& repo_time > system_time ==> status_of(repo, system) == SyncStatus::RepoNewer
            &&& repo_time < system_time ==> status_of(repo, system) == SyncStatus::SystemNewer
            &&& repo_time == system_time ==> status_of(repo, system) == SyncStatus::Conflict
        }),
{
}

/// Deploying without force onto a newer system copy writes nothing and
/// reports a skip; with force (and not as a dry run) the system copy ends up
/// holding exactly the repository copy's bytes.
pub proof fn lemma_deploy_onto_newer_system(p: PairModel, dry_run: bool, now: int)
    requires
        pair_status(p) == SyncStatus::SystemNewer,
    ensures
        outcome_of(p, Direction::Deploy, dry_run, false, now) == (Transfer::DestinationNewer, p),
        ({
            let (t, q) = outcome_of(p, Direction::Deploy, false, true, now);
            &&& t == Transfer::Proceed
            &&& q.system.exists
            &&& q.system.content == p.repo.content
            &&& q.repo == p.repo
        }),
{
}

/// A dry run never changes either copy, and reports what a real run would
/// do: `DryRun` where it would copy, the same skip where it would skip.
pub proof fn lemma_dry_run_writes_nothing(p: PairModel, direction: Direction, force: bool, now: int)
    ensures
        outcome_of(p, direction, true, force, now).1 == p,
        ({
            let live = transfer_of(direction, pair_status(p), false, force);
            outcome_of(p, direction, true, force, now).0 == if live == Transfer::Proceed {
                Transfer::DryRun
            } else {
                live
            }
        }),
{
}

/// A transfer from a readable source that is not skipped for a missing
/// source or a newer destination leaves the pair `Synced` when it is
/// classified again.
pub proof fn lemma_transfer_then_synced(
    p: PairModel,
    direction: Direction,
    force: bool,
    now: int,
)
    requires
        outcome_of(p, direction, false, force, now).0 != Transfer::SourceMissing,
        outcome_of(p, direction, false, force, now).0 != Transfer::DestinationNewer,
        match direction {
            Direction::Deploy => p.repo.content is Some,
            Direction::Backup => p.system.content is Some,
        },
    ensures
        pair_status(outcome_of(p, direction, false, force, now).1) == SyncStatus::Synced,
{
}

} // verus!
