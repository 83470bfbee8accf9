//! Two-sided synchronisation of managed configuration files: every file has a
//! repository copy and a deployed system copy. The library classifies each pair,
//! decides directed copies under a dry-run / force policy, resolves path
//! templates and renders line diffs.

mod digest;

pub use digest::{file_hash, digest_of, hex_of, lemma_hex_len};

mod status;

pub use status::{FileState, FileModel, SyncStatus, classify, status_of, fingerprint, label_of};

mod transfer;

pub use transfer::{
    Direction, Transfer, FilePair, PairModel, plan_transfer, sync_pair, transfer_of, outcome_of,
    after_copy, copy_of, pair_status, source_missing, destination_newer, note_of,
};

pub mod laws;

mod diff;

pub use diff::{
    DiffTag, DiffLine, diff_lines, render_diff, render_changes, diff_copies, line_changes_of,
    left_lines, right_lines, lines_of, line_end, rendered, renders, is_line_diff, tag_marker,
    ends_with_newline,
};

mod paths;

pub use paths::{PathEnv, expand_path, join_path, expanded, joined, token, replacement, token_from, starts_with};

mod config;

pub use config::{
    DotfilesConfig, ConfigEntry, TronConfig, ResolvedConfig, resolve_configs, resolves_to,
    expanded_in,
};

mod select;

pub use select::{
    select_entries, find_entry, count_synced, shown_in_status, is_selected, is_selection,
    synced_count, views_of, opt_view,
};

mod categories;

pub use categories::{CategoryCount, count_categories, category_count, lex_less, is_tally};
