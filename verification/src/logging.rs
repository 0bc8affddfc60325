//! Logging: an observational feature that never vetoes an entry. It reports
//! each copy about to happen; the console and logger setup belong to the
//! surrounding binary, which prints the line this module builds.

use vstd::prelude::*;

verus! {

use crate::features::{BackupFeature, EntryInfo, HookContext, PostAction};
use crate::BackupError;

/// Logs file copy operations during the backup; purely observational, it
/// always lets the entry continue to the next hook.
pub struct LoggingFeature;

impl LoggingFeature {
    /// Builds the feature; the logger itself is the surrounding binary's to
    /// set up.
    pub fn new() -> (f: Self) {
        LoggingFeature
    }

    /// The line reported for a copy of `src` to `dest`.
    pub fn copy_message(src: &String, dest: &String) -> (r: String)
        ensures
            r@ == "Copying "@ + src@ + " to "@ + dest@,
    {
        let mut r = String::new();
        r.append("Copying ");
        r.append(src.as_str());
        r.append(" to ");
        r.append(dest.as_str());
        proof {
            assert(r@ =~= "Copying "@ + src@ + " to "@ + dest@);
        }
        r
    }
}

impl BackupFeature for LoggingFeature {
    open spec fn allows(&self, e: &EntryInfo) -> bool {
        true
    }

    open spec fn post_action(&self, ctx: &HookContext) -> PostAction {
        PostAction::Nothing
    }

    fn initialize(&mut self) {
    }

    fn pre_process(&self, ctx: &HookContext) -> (r: Result<(), BackupError>) {
        Ok(())
    }

    fn process_file(&self, e: &EntryInfo) -> (r: Result<bool, BackupError>) {
        Ok(true)
    }

    fn post_process(&self, ctx: &HookContext) -> (r: Result<PostAction, BackupError>) {
        Ok(PostAction::Nothing)
    }
}

} // verus!
