//! The run's skip configuration: two ordered lists of glob-style patterns,
//! one for file and folder names, one for file extensions. They are loaded
//! once per run by the surrounding binary and treated as immutable input.

use vstd::prelude::*;

verus! {

/// Which files and folders to skip during the backup.
pub struct Config {
    /// Folder and file names to skip.
    pub skip_folders_and_files: Vec<String>,
    /// File extensions to skip.
    pub skip_file_extensions: Vec<String>,
}

impl Config {
    /// A configuration that skips nothing.
    pub fn empty() -> (c: Self)
        ensures
            c.skip_folders_and_files@ == Seq::<String>::empty(),
            c.skip_file_extensions@ == Seq::<String>::empty(),
    {
        Config { skip_folders_and_files: Vec::new(), skip_file_extensions: Vec::new() }
    }
}

} // verus!
