//! Incremental backups: only files that have changed since the last backup
//! are copied. The decision compares the modification times that the caller
//! read for the source entry and its destination counterpart.

use vstd::prelude::*;

verus! {

use crate::features::{BackupFeature, EntryInfo, HookContext, PostAction};
use crate::BackupError;

/// Skips a file whose destination copy is at least as new as its source.
/// Directories are never skipped by this feature.
pub struct IncrementalFeature {
    /// Whether incremental pruning is active.
    pub enabled: bool,
}

impl IncrementalFeature {
    /// Whether this feature vetoes `e`: it is enabled, the entry is a file,
    /// a destination copy exists, and that copy is at least as new.
    pub open spec fn skips(&self, e: &EntryInfo) -> bool {
        self.enabled && !e.is_dir && e.dest_exists && e.src_modified <= e.dest_modified
    }
}

impl BackupFeature for IncrementalFeature {
    open spec fn allows(&self, e: &EntryInfo) -> bool {
        !self.skips(e)
    }

    open spec fn post_action(&self, ctx: &HookContext) -> PostAction {
        PostAction::Nothing
    }

    fn initialize(&mut self) {
    }

    fn pre_process(&self, ctx: &HookContext) -> (r: Result<(), BackupError>) {
        Ok(())
    }

    fn process_file(&self, e: &EntryInfo) -> (r: Result<bool, BackupError>) {
        if self.enabled && !e.is_dir && e.dest_exists && e.src_modified <= e.dest_modified {
            Ok(false)
        } else {
            Ok(true)
        }
    }

    fn post_process(&self, ctx: &HookContext) -> (r: Result<PostAction, BackupError>) {
        Ok(PostAction::Nothing)
    }
}

} // verus!
