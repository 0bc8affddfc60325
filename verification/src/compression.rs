//! Compression: once the backup root is finished, pack it into a
//! gzip-compressed tar archive named after the destination and remove the
//! loose tree. Archiving is only correct at the top-level task — packing a
//! subtree mid-traversal would delete directories the walk still needs — so
//! the post-hook asks for it there and nowhere else.

use vstd::prelude::*;

verus! {

use crate::features::{BackupFeature, EntryInfo, HookContext, PostAction};
use crate::BackupError;

/// Packs the finished backup into a `.tar.gz` archive and removes the
/// original directory tree.
pub struct CompressionFeature {
    /// Whether compression is enabled.
    pub enabled: bool,
}

/// The archive file name for a destination directory: the directory's own
/// name with `.tar.gz` appended.
pub fn archive_name(dest: &String) -> (r: String)
    ensures
        r@ == dest@ + ".tar.gz"@,
{
    let mut r = dest.clone();
    r.append(".tar.gz");
    r
}

impl BackupFeature for CompressionFeature {
    open spec fn allows(&self, e: &EntryInfo) -> bool {
        true
    }

    open spec fn post_action(&self, ctx: &HookContext) -> PostAction {
        if self.enabled && ctx.is_top_level {
            PostAction::Archive
        } else {
            PostAction::Nothing
        }
    }

    fn initialize(&mut self) {
    }

    fn pre_process(&self, ctx: &HookContext) -> (r: Result<(), BackupError>) {
        Ok(())
    }

    fn process_file(&self, e: &EntryInfo) -> (r: Result<bool, BackupError>) {
        Ok(true)
    }

    fn post_process(&self, ctx: &HookContext) -> (r: Result<PostAction, BackupError>) {
        if self.enabled && ctx.is_top_level {
            Ok(PostAction::Archive)
        } else {
            Ok(PostAction::Nothing)
        }
    }
}

} // verus!
