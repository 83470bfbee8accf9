use vstd::prelude::*;
use crate::status::{FileState, FileModel, SyncStatus, classify, status_of};

verus! {

/// Which way a copy goes.
#[derive(Clone, Copy, Debug, PartialEq, Eq, Structural)]
pub enum Direction {
    /// Repository copy to system copy.
    Deploy,
    /// System copy to repository copy.
    Backup,
}

/// What the executor does with one entry.
#[derive(Clone, Copy, Debug, PartialEq, Eq, Structural)]
pub enum Transfer {
    /// Skipped: both copies already hold the same content.
    AlreadySynced,
    /// Skipped: the copy to read from does not exist.
    SourceMissing,
    /// Skipped: the copy to overwrite is newer and the copy was not forced.
    DestinationNewer,
    /// The copy would be made, but this is a dry run.
    DryRun,
    /// The copy is made.
    Proceed,
}

/// Whether the source side of `direction` is absent under `status`.
pub open spec fn source_missing(direction: Direction, status: SyncStatus) -> bool {
    status == SyncStatus::BothMissing || (direction == Direction::Deploy && status
        == SyncStatus::RepoMissing) || (direction == Direction::Backup && status
        == SyncStatus::SystemMissing)
}

/// Whether the destination side of `direction` is the newer one under `status`.
pub open spec fn destination_newer(direction: Direction, status: SyncStatus) -> bool {
    (direction == Direction::Deploy && status == SyncStatus::SystemNewer) || (direction
        == Direction::Backup && status == SyncStatus::RepoNewer)
}

/// The decision table of the executor.
pub open spec fn transfer_of(
    direction: Direction,
    status: SyncStatus,
    dry_run: bool,
    force: bool,
) -> Transfer {
    if status == SyncStatus::Synced {
        Transfer::AlreadySynced
    } else if source_missing(direction, status) {
        Transfer::SourceMissing
    } else if destination_newer(direction, status) && !force {
        Transfer::DestinationNewer
    } else if dry_run {
        Transfer::DryRun
    } else {
        Transfer::Proceed
    }
}

/// Decides what to do with one entry of the given status.
pub fn plan_transfer(direction: Direction, status: SyncStatus, dry_run: bool, force: bool) -> (r:
    Transfer)
    ensures
        r == transfer_of(direction, status, dry_run, force),
{
    if status == SyncStatus::Synced {
        return Transfer::AlreadySynced;
    }
    let missing = match direction {
        Direction::Deploy => status == SyncStatus::RepoMissing || status
            == SyncStatus::BothMissing,
        Direction::Backup => status == SyncStatus::SystemMissing || status
            == SyncStatus::BothMissing,
    };
    if missing {
        return Transfer::SourceMissing;
    }
    let newer = match direction {
        Direction::Deploy => status == SyncStatus::SystemNewer,
        Direction::Backup => status == SyncStatus::RepoNewer,
    };
    if newer && !force {
        Transfer::DestinationNewer
    } else if dry_run {
        Transfer::DryRun
    } else {
        Transfer::Proceed
    }
}

impl Transfer {
    /// Whether the entry was left alone for a reason other than a dry run.
    pub open spec fn is_skip(self) -> bool {
        self == Transfer::AlreadySynced || self == Transfer::SourceMissing || self
            == Transfer::DestinationNewer
    }

    /// The text reported for a transfer in the given direction.
    pub fn note(&self, direction: Direction) -> (r: String)
        ensures
            r@ == note_of(*self, direction)@,
    {
        match self {
            Transfer::AlreadySynced => String::from_str("already synced"),
            Transfer::SourceMissing => match direction {
                Direction::Deploy => String::from_str("repo file missing"),
                Direction::Backup => String::from_str("system file missing"),
            },
            Transfer::DestinationNewer => match direction {
                Direction::Deploy => String::from_str("system newer, use --force to overwrite"),
                Direction::Backup => String::from_str("repo newer, use --force to overwrite"),
            },
            Transfer::DryRun => String::from_str("would copy"),
            Transfer::Proceed => String::from_str("copied"),
        }
    }
}

/// The text reported for each transfer.
pub open spec fn note_of(t: Transfer, direction: Direction) -> &'static str {
    match t {
        Transfer::AlreadySynced => "already synced",
        Transfer::SourceMissing => match direction {
            Direction::Deploy => "repo file missing",
            Direction::Backup => "system file missing",
        },
        Transfer::DestinationNewer => match direction {
            Direction::Deploy => "system newer, use --force to overwrite",
            Direction::Backup => "repo newer, use --force to overwrite",
        },
        Transfer::DryRun => "would copy",
        Transfer::Proceed => "copied",
    }
}

/// Both sides of one managed entry, held in memory.
pub struct FilePair {
    pub repo: FileState,
    pub system: FileState,
}

/// Model of a [`FilePair`].
pub ghost struct PairModel {
    pub repo: FileModel,
    pub system: FileModel,
}

impl View for FilePair {
    type V = PairModel;

    open spec fn view(&self) -> PairModel {
        PairModel { repo: self.repo@, system: self.system@ }
    }
}

/// The side a copy writes, after it has copied `source` at time `now`.
pub open spec fn copy_of(source: FileModel, now: int) -> FileModel {
    FileModel { exists: true, content: source.content, modified: Some(now) }
}

/// The pair after a copy in `direction` at time `now`.
pub open spec fn after_copy(p: PairModel, direction: Direction, now: int) -> PairModel {
    match direction {
        Direction::Deploy => PairModel { repo: p.repo, system: copy_of(p.repo, now) },
        Direction::Backup => PairModel { repo: copy_of(p.system, now), system: p.system },
    }
}

/// The status of a pair.
pub open spec fn pair_status(p: PairModel) -> SyncStatus {
    status_of(p.repo, p.system)
}

/// What a transfer reports, and the pair it leaves behind.
pub open spec fn outcome_of(
    p: PairModel,
    direction: Direction,
    dry_run: bool,
    force: bool,
    now: int,
) -> (Transfer, PairModel) {
    let t = transfer_of(direction, pair_status(p), dry_run, force);
    if t == Transfer::Proceed {
        (t, after_copy(p, direction, now))
    } else {
        (t, p)
    }
}

fn copy_side(source: &FileState, now: i128) -> (r: FileState)
    ensures
        r@ == copy_of(source@, now as int),
{
    let content = match &source.content {
        Some(c) => Some(c.clone()),
        None => None,
    };
    FileState { exists: true, content, modified: Some(now) }
}

/// Runs one transfer on a pair held in memory; `now` is the time a copy
/// stamps on the side it writes.
pub fn sync_pair(pair: &mut FilePair, direction: Direction, dry_run: bool, force: bool, now: i128) -> (r:
    Transfer)
    ensures
        (r, final(pair)@) == outcome_of(old(pair)@, direction, dry_run, force, now as int),
{
    let status = classify(&pair.repo, &pair.system);
    let t = plan_transfer(direction, status, dry_run, force);
    if t == Transfer::Proceed {
        match direction {
            Direction::Deploy => {
                pair.system = copy_side(&pair.repo, now);
            },
            Direction::Backup => {
                pair.repo = copy_side(&pair.system, now);
            },
        }
    }
    t
}

} // verus!
