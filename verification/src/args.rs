//! The run's settings: where to read, where to write, which features to
//! switch on, and how many worker threads to use. Reading the command line
//! is the surrounding binary's job; the validation of the raw values is
//! here, and a zero thread count is rejected before the engine is invoked.

use vstd::prelude::*;

verus! {

use crate::BackupError;

/// The validated settings of one backup run.
pub struct Args {
    /// Source directory to back up.
    pub source_dir: String,
    /// Target directory for the backup.
    pub target_dir: String,
    /// Compress the finished backup into a `.tar.gz` archive.
    pub compress: bool,
    /// Only copy files newer than their destination copy.
    pub incremental: bool,
    /// Simulate the run without copying anything.
    pub dry_run: bool,
    /// Verify the integrity of the backup.
    pub verify: bool,
    /// Number of worker threads; must be positive.
    pub threads: usize,
}

impl Args {
    /// Validates the raw argument values: every setting is taken as given,
    /// and a thread count of zero is rejected.
    pub fn parse_and_validate(
        source_dir: String,
        target_dir: String,
        compress: bool,
        incremental: bool,
        dry_run: bool,
        verify: bool,
        threads: usize,
    ) -> (r: Result<Args, BackupError>)
        ensures
            r is Ok <==> threads > 0,
            match r {
                Ok(a) => {
                    &&& a.source_dir@ == source_dir@
                    &&& a.target_dir@ == target_dir@
                    &&& a.compress == compress
                    &&& a.incremental == incremental
                    &&& a.dry_run == dry_run
                    &&& a.verify == verify
                    &&& a.threads == threads
                },
                Err(e) => e matches BackupError::InvalidThreads(m) && m@
                    == "Number of threads must be greater than 0"@,
            },
    {
        if threads == 0 {
            return Err(
                BackupError::InvalidThreads(
                    String::from_str("Number of threads must be greater than 0"),
                ),
            );
        }
        Ok(
            Args {
                source_dir,
                target_dir,
                compress,
                incremental,
                dry_run,
                verify,
                threads,
            },
        )
    }
}

} // verus!
