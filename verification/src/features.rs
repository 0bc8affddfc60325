//! The feature pipeline: a fixed, ordered roster of capability objects that
//! every directory and every directory entry passes through. Each feature
//! contributes a per-entry decision (continue or skip) and a per-directory
//! post action; the order of the roster is part of the run configuration.

use vstd::prelude::*;

verus! {

use crate::BackupError;

/// The facts about one directory entry that the pipeline's decisions read.
/// The surrounding binary gathers these from the filesystem; the decisions
/// themselves are pure functions of this record.
pub struct EntryInfo {
    /// The entry's file name (the last path component).
    pub name: String,
    /// Whether the source entry is a directory (after following links).
    pub is_dir: bool,
    /// Whether the entry itself is a symbolic link.
    pub is_symlink: bool,
    /// Whether an entry of the same name already exists at the destination.
    pub dest_exists: bool,
    /// Source modification time; only its order relative to `dest_modified`
    /// matters.
    pub src_modified: u64,
    /// Destination modification time; meaningful only when `dest_exists`.
    pub dest_modified: u64,
}

/// What the pipeline decided for one directory entry, in the order the
/// vetoing feature appears in the roster.
#[derive(Clone, Copy, PartialEq, Eq, Structural, Debug)]
pub enum EntryDecision {
    /// A skip pattern matched the entry's name or extension.
    SkipFiltered,
    /// The destination is at least as new as the source.
    SkipUnmodified,
    /// Dry run is active: nothing proceeds.
    SkipDryRun,
    /// A symbolic link to a directory is never followed.
    SkipSymlink,
    /// The entry is a file and survives every hook: copy it.
    CopyFile,
    /// The entry is a directory and survives every hook: descend into it.
    Descend,
}

/// What a directory-level hook sees of the directory being finished.
#[derive(Clone, Copy, PartialEq, Eq, Structural, Debug)]
pub struct HookContext {
    /// Whether the source side of the task is a directory.
    pub src_is_dir: bool,
    /// Whether the directory is the run's top-level one (the backup root).
    pub is_top_level: bool,
}

/// The work a feature's post-hook asks for once a directory is finished.
#[derive(Clone, Copy, PartialEq, Eq, Structural, Debug)]
pub enum PostAction {
    /// No work.
    Nothing,
    /// Pack the finished destination into a compressed archive and remove
    /// the loose tree.
    Archive,
    /// Compare source and destination by streamed digest.
    VerifyDigest,
}

/// A backup feature hooks into the stages of the backup: one-time setup,
/// before a directory's entries are listed, once per entry, and after a
/// directory's entries are handled. Every hook is a pure decision here; the
/// filesystem work each decision calls for is the caller's to perform.
pub trait BackupFeature: Sized {
    /// Whether this feature lets `e` continue to the next hook.
    spec fn allows(&self, e: &EntryInfo) -> bool;

    /// The work this feature's post-hook asks for in context `ctx`.
    spec fn post_action(&self, ctx: &HookContext) -> PostAction;

    /// One-time setup at the start of the run.
    fn initialize(&mut self)
        ensures
            *final(self) == *old(self),
    ;

    /// Called once per directory before its entries are listed.
    fn pre_process(&self, ctx: &HookContext) -> (r: Result<(), BackupError>)
        ensures
            r is Ok,
    ;

    /// Called once per entry; `Ok(true)` continues to the next hook,
    /// `Ok(false)` skips the entry without error.
    fn process_file(&self, e: &EntryInfo) -> (r: Result<bool, BackupError>)
        ensures
            r matches Ok(b) && b == self.allows(e),
    ;

    /// Called once per directory after all its entries are handled.
    fn post_process(&self, ctx: &HookContext) -> (r: Result<PostAction, BackupError>)
        ensures
            r matches Ok(a) && a == self.post_action(ctx),
    ;
}

/// The run's feature roster, in the order the hooks fire: wildcards,
/// compression, incremental, logging, dry run, integrity. The order is part
/// of the run configuration: the filters must come before the observational
/// features for the latter to see only entries that will be considered, and
/// the two post-hook features see only already-copied results.
pub struct FeatureSet {
    pub wildcards: crate::wildcards::WildcardsFeature,
    pub compression: crate::compression::CompressionFeature,
    pub incremental: crate::incremental::IncrementalFeature,
    pub logging: crate::logging::LoggingFeature,
    pub dry_run: crate::dry_run::DryRunFeature,
    pub integrity: crate::integrity::IntegrityFeature,
}

/// What the pipeline decides for one entry: the first feature to veto it
/// names the decision; an entry that survives every hook is descended into
/// if it is a directory that is not a symbolic link, and copied if it is a
/// file.
pub open spec fn entry_decision(fs: &FeatureSet, e: &EntryInfo) -> EntryDecision {
    if !fs.wildcards.allows(e) {
        EntryDecision::SkipFiltered
    } else if !fs.incremental.allows(e) {
        EntryDecision::SkipUnmodified
    } else if !fs.dry_run.allows(e) {
        EntryDecision::SkipDryRun
    } else if e.is_dir {
        if e.is_symlink {
            EntryDecision::SkipSymlink
        } else {
            EntryDecision::Descend
        }
    } else {
        EntryDecision::CopyFile
    }
}

/// The directory-level work the post-hooks ask for, in hook order.
#[derive(Clone, Copy, PartialEq, Eq, Structural, Debug)]
pub struct PostPlan {
    /// Pack the destination into an archive and drop the loose tree.
    pub archive: bool,
    /// Verify source against destination by streamed digest.
    pub verify: bool,
}

impl FeatureSet {
    /// Builds the roster from the skip configuration and the run's toggles,
    /// in the fixed hook order.
    pub fn new(
        config: &crate::config::Config,
        compress: bool,
        incremental: bool,
        dry_run: bool,
        verify: bool,
    ) -> (fs: FeatureSet)
        ensures
            fs.wildcards.names() == config.skip_folders_and_files@,
            fs.wildcards.extensions() == config.skip_file_extensions@,
            fs.compression.enabled == compress,
            fs.incremental.enabled == incremental,
            fs.dry_run.enabled == dry_run,
            fs.integrity.enabled == verify,
    {
        FeatureSet {
            wildcards: crate::wildcards::WildcardsFeature::new(
                config.skip_folders_and_files.as_slice(),
                config.skip_file_extensions.as_slice(),
            ),
            compression: crate::compression::CompressionFeature { enabled: compress },
            incremental: crate::incremental::IncrementalFeature { enabled: incremental },
            logging: crate::logging::LoggingFeature::new(),
            dry_run: crate::dry_run::DryRunFeature { enabled: dry_run },
            integrity: crate::integrity::IntegrityFeature { enabled: verify },
        }
    }

    /// Runs every feature's one-time setup, in hook order.
    pub fn initialize_all(&mut self)
        ensures
            *final(self) == *old(self),
    {
        self.wildcards.initialize();
        self.compression.initialize();
        self.incremental.initialize();
        self.logging.initialize();
        self.dry_run.initialize();
        self.integrity.initialize();
    }

    /// Runs every feature's pre-hook for one directory, in hook order.
    pub fn pre_process_all(&self, ctx: &HookContext) -> (r: Result<(), BackupError>)
        ensures
            r is Ok,
    {
        self.wildcards.pre_process(ctx)?;
        self.compression.pre_process(ctx)?;
        self.incremental.pre_process(ctx)?;
        self.logging.pre_process(ctx)?;
        self.dry_run.pre_process(ctx)?;
        self.integrity.pre_process(ctx)?;
        Ok(())
    }

    /// Runs every feature's per-entry hook, in hook order, each hook seeing
    /// the cumulative verdict of the ones before it; the first veto stops
    /// the chain.
    pub fn evaluate_entry(&self, e: &EntryInfo) -> (d: EntryDecision)
        ensures
            d == entry_decision(self, e),
    {
        if !self.wildcards.process_file(e).unwrap() {
            return EntryDecision::SkipFiltered;
        }
        if !self.compression.process_file(e).unwrap() {
            return EntryDecision::SkipFiltered;
        }
        if !self.incremental.process_file(e).unwrap() {
            return EntryDecision::SkipUnmodified;
        }
        if !self.logging.process_file(e).unwrap() {
            return EntryDecision::SkipFiltered;
        }
        if !self.dry_run.process_file(e).unwrap() {
            return EntryDecision::SkipDryRun;
        }
        if !self.integrity.process_file(e).unwrap() {
            return EntryDecision::SkipFiltered;
        }
        if e.is_dir {
            if e.is_symlink {
                EntryDecision::SkipSymlink
            } else {
                EntryDecision::Descend
            }
        } else {
            EntryDecision::CopyFile
        }
    }

    /// Runs every feature's post-hook for one finished directory, in hook
    /// order, and collects the work they ask for.
    pub fn post_process_all(&self, ctx: &HookContext) -> (r: Result<PostPlan, BackupError>)
        ensures
            r matches Ok(p) && p.archive == (self.compression.enabled && ctx.is_top_level)
                && p.verify == (self.integrity.enabled && !ctx.src_is_dir),
    {
        let mut plan = PostPlan { archive: false, verify: false };
        match self.wildcards.post_process(ctx)? {
            PostAction::Archive => plan.archive = true,
            PostAction::VerifyDigest => plan.verify = true,
            PostAction::Nothing => {},
        }
        match self.compression.post_process(ctx)? {
            PostAction::Archive => plan.archive = true,
            PostAction::VerifyDigest => plan.verify = true,
            PostAction::Nothing => {},
        }
        match self.incremental.post_process(ctx)? {
            PostAction::Archive => plan.archive = true,
            PostAction::VerifyDigest => plan.verify = true,
            PostAction::Nothing => {},
        }
        match self.logging.post_process(ctx)? {
            PostAction::Archive => plan.archive = true,
            PostAction::VerifyDigest => plan.verify = true,
            PostAction::Nothing => {},
        }
        match self.dry_run.post_process(ctx)? {
            PostAction::Archive => plan.archive = true,
            PostAction::VerifyDigest => plan.verify = true,
            PostAction::Nothing => {},
        }
        match self.integrity.post_process(ctx)? {
            PostAction::Archive => plan.archive = true,
            PostAction::VerifyDigest => plan.verify = true,
            PostAction::Nothing => {},
        }
        Ok(plan)
    }
}

/// Symbolic links to directories are never followed: whatever the rest of
/// the configuration, the pipeline never decides to descend into an entry
/// that is a symbolic link, so such an entry joins no wavefront and creates
/// no destination directory.
pub proof fn lemma_symlink_never_descends(fs: &FeatureSet, e: &EntryInfo)
    requires
        e.is_symlink,
    ensures
        entry_decision(fs, e) != EntryDecision::Descend,
{
}

/// Dry-run purity: with dry run enabled no entry is ever copied and no
/// directory is ever descended into, so the destination tree beyond its
/// root directory stays empty, whatever the other toggles say.
pub proof fn lemma_dry_run_purity(fs: &FeatureSet, e: &EntryInfo)
    requires
        fs.dry_run.enabled,
    ensures
        entry_decision(fs, e) != EntryDecision::CopyFile,
        entry_decision(fs, e) != EntryDecision::Descend,
{
}

/// Incremental skip, first half: with incremental backups enabled, a file
/// whose destination copy is at least as new as its source is never copied,
/// so the destination's content is left untouched by the run.
pub proof fn lemma_incremental_leaves_fresh_dest(fs: &FeatureSet, e: &EntryInfo)
    requires
        fs.incremental.enabled,
        !e.is_dir,
        e.dest_exists,
        e.src_modified <= e.dest_modified,
    ensures
        entry_decision(fs, e) != EntryDecision::CopyFile,
{
}

/// Incremental skip, second half: a file whose source is strictly newer
/// than its destination copy (or has no destination copy yet) is copied,
/// provided no skip pattern filters it out and the run is not a dry run.
pub proof fn lemma_newer_source_copied(fs: &FeatureSet, e: &EntryInfo)
    requires
        !e.is_dir,
        e.dest_exists ==> e.src_modified > e.dest_modified,
        fs.wildcards.allows(e),
        !fs.dry_run.enabled,
    ensures
        entry_decision(fs, e) == EntryDecision::CopyFile,
{
}

} // verus!
