//! Glob-style skip lists: decides, from two ordered lists of patterns (one
//! for file and folder names, one for file extensions), whether an entry
//! should be excluded from the backup. A pattern that does not parse never
//! matches anything: the lists fail open per pattern, not per run.

use vstd::prelude::*;

verus! {

use crate::features::{BackupFeature, EntryInfo, HookContext, PostAction};
use crate::BackupError;

/// Whether `glob::Pattern::new` accepts `pattern` as a well-formed pattern.
pub uninterp spec fn glob_valid(pattern: Seq<char>) -> bool;

/// Whether the glob pattern `pattern` matches `text`; the result is a
/// function of the two character sequences alone.
pub uninterp spec fn glob_matches(pattern: Seq<char>, text: Seq<char>) -> bool;

/// Relies on glob::Pattern::new and glob::Pattern::matches: compiles
/// `pattern` and matches `text` against it; a pattern that does not parse
/// matches nothing.
#[verifier::external_body]
fn pattern_matches(pattern: &String, text: &String) -> (r: bool)
    ensures
        r == (glob_valid(pattern@) && glob_matches(pattern@, text@)),
{
    match glob::Pattern::new(pattern) {
        Ok(p) => p.matches(text),
        Err(_) => false,
    }
}

/// Whether some pattern in `patterns` is well formed and matches `text`.
pub open spec fn matches_any(patterns: Seq<String>, text: Seq<char>) -> bool {
    exists|i: int|
        0 <= i < patterns.len() && glob_valid(#[trigger] patterns[i]@) && glob_matches(
            patterns[i]@,
            text,
        )
}

/// Tries every pattern in the list against `text`, in order.
pub fn matches_any_pattern(patterns: &Vec<String>, text: &String) -> (r: bool)
    ensures
        r == matches_any(patterns@, text@),
{
    let mut i: usize = 0;
    while i < patterns.len()
        invariant
            0 <= i <= patterns@.len(),
            forall|j: int|
                0 <= j < i ==> !(glob_valid(#[trigger] patterns@[j]@) && glob_matches(
                    patterns@[j]@,
                    text@,
                )),
        decreases patterns@.len() - i,
    {
        if pattern_matches(&patterns[i], text) {
            return true;
        }
        i += 1;
    }
    false
}

/// The position of the last `'.'` in `name`, or `-1` if there is none.
pub open spec fn last_dot(name: Seq<char>) -> int
    decreases name.len(),
{
    if name.len() == 0 {
        -1
    } else if name[name.len() - 1] == '.' {
        name.len() - 1
    } else {
        last_dot(name.drop_last())
    }
}

/// The extension of a file name: the part after the last `'.'`, provided
/// that dot is neither absent nor the leading character (so a name that
/// starts with its only dot has no extension).
pub open spec fn extension_spec(name: Seq<char>) -> Option<Seq<char>> {
    if last_dot(name) >= 1 {
        Some(name.subrange(last_dot(name) + 1, name.len() as int))
    } else {
        None
    }
}

proof fn lemma_last_dot_bounds(name: Seq<char>)
    ensures
        -1 <= last_dot(name) < name.len(),
        last_dot(name) >= 0 ==> name[last_dot(name)] == '.',
        forall|j: int| last_dot(name) < j < name.len() ==> name[j] != '.',
    decreases name.len(),
{
    if name.len() == 0 {
    } else if name[name.len() - 1] == '.' {
    } else {
        lemma_last_dot_bounds(name.drop_last());
        assert forall|j: int| last_dot(name) < j < name.len() implies name[j] != '.' by {
            if j < name.len() - 1 {
                assert(name.drop_last()[j] != '.');
            }
        }
    }
}

proof fn lemma_last_dot_at(name: Seq<char>, k: int)
    requires
        0 <= k < name.len(),
        name[k] == '.',
        forall|j: int| k < j < name.len() ==> name[j] != '.',
    ensures
        last_dot(name) == k,
    decreases name.len(),
{
    if name[name.len() - 1] == '.' {
        assert(k == name.len() - 1);
    } else {
        lemma_last_dot_at(name.drop_last(), k);
    }
}

/// Computes the extension of a file name, as `extension_spec` describes it.
pub fn extension_of(name: &String) -> (r: Option<String>)
    ensures
        match r {
            Some(e) => extension_spec(name@) == Some(e@),
            None => extension_spec(name@) is None,
        },
{
    let s = name.as_str();
    let len = s.unicode_len();
    proof {
        lemma_last_dot_bounds(name@);
    }
    let mut i: usize = len;
    while i > 0
        invariant
            0 <= i <= len,
            len == name@.len(),
            s@ == name@,
            forall|j: int| i <= j < len ==> name@[j] != '.',
        decreases i,
    {
        if s.get_char(i - 1) == '.' {
            proof {
                lemma_last_dot_at(name@, i - 1);
            }
            if i - 1 >= 1 {
                let ext = s.substring_char(i, len);
                return Some(ext.to_owned());
            } else {
                return None;
            }
        }
        i -= 1;
    }
    proof {
        if last_dot(name@) >= 0 {
            assert(name@[last_dot(name@)] == '.');
        }
    }
    None
}

/// Skips files, folders, or file extensions during the backup, going by two
/// lists of glob-style patterns.
pub struct WildcardsFeature {
    skip_folders_and_files: Vec<String>,
    skip_file_extensions: Vec<String>,
}

impl WildcardsFeature {
    /// The name and folder patterns this feature skips.
    pub closed spec fn names(&self) -> Seq<String> {
        self.skip_folders_and_files@
    }

    /// The extension patterns this feature skips.
    pub closed spec fn extensions(&self) -> Seq<String> {
        self.skip_file_extensions@
    }

    /// Builds the feature from the two configured pattern lists.
    pub fn new(skip_folders_and_files: &[String], skip_file_extensions: &[String]) -> (w: Self)
        ensures
            w.names() == skip_folders_and_files@,
            w.extensions() == skip_file_extensions@,
    {
        WildcardsFeature {
            skip_folders_and_files: clone_strings(skip_folders_and_files),
            skip_file_extensions: clone_strings(skip_file_extensions),
        }
    }

    /// Whether the skip lists let an entry named `name` through: no name
    /// pattern matches the name, and — for files only, directories are
    /// filtered by name patterns alone — no extension pattern matches its
    /// extension (when it has one).
    pub open spec fn lets_through(&self, name: Seq<char>, is_dir: bool) -> bool {
        &&& !matches_any(self.names(), name)
        &&& !is_dir ==> match extension_spec(name) {
            Some(e) => !matches_any(self.extensions(), e),
            None => true,
        }
    }
}

fn clone_strings(xs: &[String]) -> (r: Vec<String>)
    ensures
        r@ == xs@,
{
    let mut r: Vec<String> = Vec::new();
    let mut i: usize = 0;
    while i < xs.len()
        invariant
            0 <= i <= xs@.len(),
            r@ == xs@.subrange(0, i as int),
        decreases xs@.len() - i,
    {
        r.push(xs[i].clone());
        proof {
            assert(r@ =~= xs@.subrange(0, i + 1 as int));
        }
        i += 1;
    }
    proof {
        assert(r@ =~= xs@);
    }
    r
}

impl BackupFeature for WildcardsFeature {
    open spec fn allows(&self, e: &EntryInfo) -> bool {
        self.lets_through(e.name@, e.is_dir)
    }

    open spec fn post_action(&self, ctx: &HookContext) -> PostAction {
        PostAction::Nothing
    }

    fn initialize(&mut self) {
    }

    fn pre_process(&self, ctx: &HookContext) -> (r: Result<(), BackupError>) {
        Ok(())
    }

    fn process_file(&self, e: &EntryInfo) -> (r: Result<bool, BackupError>) {
        if matches_any_pattern(&self.skip_folders_and_files, &e.name) {
            return Ok(false);
        }
        if !e.is_dir {
            match extension_of(&e.name) {
                Some(ext) => {
                    if matches_any_pattern(&self.skip_file_extensions, &ext) {
                        return Ok(false);
                    }
                },
                None => {},
            }
        }
        Ok(true)
    }

    fn post_process(&self, ctx: &HookContext) -> (r: Result<PostAction, BackupError>) {
        Ok(PostAction::Nothing)
    }
}

} // verus!
