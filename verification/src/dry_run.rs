//! Dry runs: when active, every entry is vetoed before any copy happens, so
//! a run changes nothing at the destination beyond its root directory. The
//! caller reports each would-be copy instead of performing it.

use vstd::prelude::*;

verus! {

use crate::features::{BackupFeature, EntryInfo, HookContext, PostAction};
use crate::BackupError;

/// Simulates the backup: with `enabled` set, no entry ever survives this
/// hook, so nothing is copied and no directory is descended into.
pub struct DryRunFeature {
    /// Whether the dry run is active.
    pub enabled: bool,
}

impl BackupFeature for DryRunFeature {
    open spec fn allows(&self, e: &EntryInfo) -> bool {
        !self.enabled
    }

    open spec fn post_action(&self, ctx: &HookContext) -> PostAction {
        PostAction::Nothing
    }

    fn initialize(&mut self) {
    }

    fn pre_process(&self, ctx: &HookContext) -> (r: Result<(), BackupError>) {
        Ok(())
    }

    fn process_file(&self, e: &EntryInfo) -> (r: Result<bool, BackupError>) {
        if self.enabled {
            Ok(false)
        } else {
            Ok(true)
        }
    }

    fn post_process(&self, ctx: &HookContext) -> (r: Result<PostAction, BackupError>) {
        Ok(PostAction::Nothing)
    }
}

} // verus!
