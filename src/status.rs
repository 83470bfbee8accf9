use vstd::prelude::*;
use crate::digest::{digest_of, file_hash};

verus! {

/// What one side of a pair looks like at the instant it is observed.
pub struct FileState {
    /// Whether the path exists.
    pub exists: bool,
    /// The full byte content, or `None` where it could not be read.
    pub content: Option<Vec<u8>>,
    /// Last-modified time in nanoseconds since the Unix epoch, or `None`
    /// where it could not be read.
    pub modified: Option<i128>,
}

/// Mathematical model of a [`FileState`].
pub ghost struct FileModel {
    pub exists: bool,
    pub content: Option<Seq<u8>>,
    pub modified: Option<int>,
}

impl View for FileState {
    type V = FileModel;

    open spec fn view(&self) -> FileModel {
        FileModel {
            exists: self.exists,
            content: match self.content {
                Some(c) => Some(c@),
                None => None,
            },
            modified: match self.modified {
                Some(t) => Some(t as int),
                None => None,
            },
        }
    }
}

impl FileState {
    /// A side that does not exist.
    pub fn missing() -> (r: FileState)
        ensures
            !r@.exists,
            r@.content.is_none(),
            r@.modified.is_none(),
    {
        FileState { exists: false, content: None, modified: None }
    }

    /// An existing, readable file with the given content and modification time.
    pub fn present(content: Vec<u8>, modified: i128) -> (r: FileState)
        ensures
            r@.exists,
            r@.content == Some(content@),
            r@.modified == Some(modified as int),
    {
        FileState { exists: true, content: Some(content), modified: Some(modified) }
    }
}

/// Relation between the repository copy and the system copy of one entry.
#[derive(Clone, Copy, Debug, PartialEq, Eq, Structural)]
pub enum SyncStatus {
    Synced,
    RepoNewer,
    SystemNewer,
    Conflict,
    RepoMissing,
    SystemMissing,
    BothMissing,
}

/// Fingerprint of an optional content.
pub open spec fn fingerprint(content: Option<Seq<u8>>) -> Option<Seq<char>> {
    match content {
        Some(c) => Some(digest_of(c)),
        None => None,
    }
}

/// Classification of a pair: existence first, then content fingerprints
/// (`Synced` needs both contents read and their fingerprints equal), then
/// modification times.
pub open spec fn status_of(repo: FileModel, system: FileModel) -> SyncStatus {
    if !repo.exists && !system.exists {
        SyncStatus::BothMissing
    } else if !repo.exists {
        SyncStatus::RepoMissing
    } else if !system.exists {
        SyncStatus::SystemMissing
    } else if repo.content is Some && system.content is Some && fingerprint(repo.content)
        == fingerprint(system.content) {
        SyncStatus::Synced
    } else {
        match (repo.modified, system.modified) {
            (Some(r), Some(s)) => if r > s {
                SyncStatus::RepoNewer
            } else if s > r {
                SyncStatus::SystemNewer
            } else {
                SyncStatus::Conflict
            },
            _ => SyncStatus::Conflict,
        }
    }
}

/// Classifies a pair of observed files.
pub fn classify(repo: &FileState, system: &FileState) -> (r: SyncStatus)
    ensures
        r == status_of(repo@, system@),
{
    if !repo.exists && !system.exists {
        return SyncStatus::BothMissing;
    }
    if !repo.exists {
        return SyncStatus::RepoMissing;
    }
    if !system.exists {
        return SyncStatus::SystemMissing;
    }
    let repo_hash = file_hash(&repo.content);
    let system_hash = file_hash(&system.content);
    let same: bool = match repo_hash {
        Some(a) => match system_hash {
            Some(b) => a == b,
            None => false,
        },
        None => false,
    };
    if same {
        return SyncStatus::Synced;
    }
    match (repo.modified, system.modified) {
        (Some(r), Some(s)) => {
            if r > s {
                SyncStatus::RepoNewer
            } else if s > r {
                SyncStatus::SystemNewer
            } else {
                SyncStatus::Conflict
            }
        },
        _ => SyncStatus::Conflict,
    }
}

impl SyncStatus {
    /// Short human-readable label of the status.
    pub fn label(&self) -> (r: String)
        ensures
            r@ == label_of(*self)@,
    {
        match self {
            SyncStatus::Synced => String::from_str("✓ synced"),
            SyncStatus::RepoNewer => String::from_str("→ repo newer"),
            SyncStatus::SystemNewer => String::from_str("← system newer"),
            SyncStatus::Conflict => String::from_str("⚡ conflict"),
            SyncStatus::RepoMissing => String::from_str("? repo missing"),
            SyncStatus::SystemMissing => String::from_str("? system missing"),
            SyncStatus::BothMissing => String::from_str("✗ both missing"),
        }
    }
}

/// The label of each status.
pub open spec fn label_of(s: SyncStatus) -> &'static str {
    match s {
        SyncStatus::Synced => "✓ synced",
        SyncStatus::RepoNewer => "→ repo newer",
        SyncStatus::SystemNewer => "← system newer",
        SyncStatus::Conflict => "⚡ conflict",
        SyncStatus::RepoMissing => "? repo missing",
        SyncStatus::SystemMissing => "? system missing",
        SyncStatus::BothMissing => "✗ both missing",
    }
}

} // verus!
