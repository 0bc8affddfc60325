//! The permission gate: validates, before any work begins, that the source
//! can be read and listed and that the target (or, when it does not exist
//! yet, the nearest existing ancestor that will hold it) can be written and
//! listed. The caller reads a path's existence and POSIX mode bits; the
//! verdicts here are pure functions of those facts, and a shared cache
//! memoizes them per path for the duration of one run.

use vstd::prelude::*;

verus! {

use crate::{BackupError, PermissionType};

/// Checks the source side: the path must exist and its mode must grant
/// read and execute (list) permission. `exists` and `mode` are the facts
/// the caller read from the filesystem for `path`.
pub fn check_source_permissions(path: &String, exists: bool, mode: u32) -> (r: Result<
    (),
    BackupError,
>)
    ensures
        r is Ok <==> (exists && mode & 0o400 != 0 && mode & 0o100 != 0),
        match r {
            Ok(_) => true,
            Err(e) => match e {
                BackupError::SourceNotFound(p) => !exists && p@ == path@,
                BackupError::PermissionDenied { path: p, permission } => {
                    &&& exists
                    &&& p@ == path@
                    &&& (permission == PermissionType::Read ==> mode & 0o400 == 0)
                    &&& (permission == PermissionType::Execute ==> mode & 0o400 != 0 && mode
                        & 0o100 == 0)
                    &&& (permission == PermissionType::Read || permission
                        == PermissionType::Execute)
                },
                _ => false,
            },
        },
{
    if !exists {
        return Err(BackupError::SourceNotFound(path.clone()));
    }
    if mode & 0o400 == 0 {
        return Err(
            BackupError::PermissionDenied { path: path.clone(), permission: PermissionType::Read },
        );
    }
    if mode & 0o100 == 0 {
        return Err(
            BackupError::PermissionDenied {
                path: path.clone(),
                permission: PermissionType::Execute,
            },
        );
    }
    Ok(())
}

/// Checks the target side: `mode` holds the mode bits of the target when it
/// exists, or of the nearest existing ancestor that will hold it; `None`
/// means no ancestor check is applicable, and the check passes vacuously.
/// The checked path must grant write and execute (list) permission.
pub fn check_target_permissions(path: &String, mode: Option<u32>) -> (r: Result<(), BackupError>)
    ensures
        r is Ok <==> match mode {
            Option::None => true,
            Option::Some(m) => m & 0o200 != 0 && m & 0o100 != 0,
        },
        match r {
            Ok(_) => true,
            Err(e) => match e {
                BackupError::PermissionDenied { path: p, permission } => {
                    &&& p@ == path@
                    &&& mode is Some
                    &&& (permission == PermissionType::Write ==> mode->0 & 0o200 == 0)
                    &&& (permission == PermissionType::Execute ==> mode->0 & 0o200 != 0 && mode->0
                        & 0o100 == 0)
                    &&& (permission == PermissionType::Write || permission
                        == PermissionType::Execute)
                },
                _ => false,
            },
        },
{
    match mode {
        Option::None => Ok(()),
        Option::Some(m) => {
            if m & 0o200 == 0 {
                Err(
                    BackupError::PermissionDenied {
                        path: path.clone(),
                        permission: PermissionType::Write,
                    },
                )
            } else if m & 0o100 == 0 {
                Err(
                    BackupError::PermissionDenied {
                        path: path.clone(),
                        permission: PermissionType::Execute,
                    },
                )
            } else {
                Ok(())
            }
        },
    }
}

/// A per-run memo of permission verdicts, keyed by path. Entries are
/// written at most once and never invalidated within a run: permissions are
/// assumed stable for the run's duration.
pub struct PermissionCache {
    entries: Vec<(String, Result<(), BackupError>)>,
}

spec fn entries_map(s: Seq<(String, Result<(), BackupError>)>) -> Map<
    Seq<char>,
    Result<(), BackupError>,
>
    decreases s.len(),
{
    if s.len() == 0 {
        Map::empty()
    } else {
        entries_map(s.drop_last()).insert(s.last().0@, s.last().1)
    }
}

proof fn lemma_entries_map_key(s: Seq<(String, Result<(), BackupError>)>, k: Seq<char>)
    ensures
        entries_map(s).contains_key(k) <==> exists|i: int|
            0 <= i < s.len() && #[trigger] s[i].0@ == k,
        entries_map(s).contains_key(k) ==> exists|i: int|
            0 <= i < s.len() && #[trigger] s[i].0@ == k && entries_map(s)[k] == s[i].1,
    decreases s.len(),
{
    if s.len() > 0 {
        lemma_entries_map_key(s.drop_last(), k);
        if s.last().0@ == k {
            assert(s[s.len() - 1].0@ == k && entries_map(s)[k] == s[s.len() - 1].1);
        } else {
            if entries_map(s).contains_key(k) {
                let i = choose|i: int|
                    0 <= i < s.drop_last().len() && #[trigger] s.drop_last()[i].0@ == k
                        && entries_map(s.drop_last())[k] == s.drop_last()[i].1;
                assert(s[i].0@ == k && entries_map(s)[k] == s[i].1);
            }
            if exists|i: int| 0 <= i < s.len() && #[trigger] s[i].0@ == k {
                let i = choose|i: int| 0 <= i < s.len() && #[trigger] s[i].0@ == k;
                assert(s.drop_last()[i].0@ == k);
            }
        }
    }
}

impl PermissionCache {
    /// The memoized verdicts, as a map from path to outcome.
    pub closed spec fn view(&self) -> Map<Seq<char>, Result<(), BackupError>> {
        entries_map(self.entries@)
    }

    /// Each path holds at most one entry.
    pub closed spec fn wf(&self) -> bool {
        forall|i: int, j: int|
            0 <= i < j < self.entries@.len() ==> #[trigger] self.entries@[i].0@
                != #[trigger] self.entries@[j].0@
    }

    /// An empty cache, created at run start.
    pub fn new() -> (c: Self)
        ensures
            c.wf(),
            c@ == Map::<Seq<char>, Result<(), BackupError>>::empty(),
    {
        PermissionCache { entries: Vec::new() }
    }

    /// The memoized verdict for `path`, if one was recorded.
    pub fn lookup(&self, path: &String) -> (r: Option<&Result<(), BackupError>>)
        requires
            self.wf(),
        ensures
            match r {
                Some(o) => self@.contains_key(path@) && *o == self@[path@],
                None => !self@.contains_key(path@),
            },
    {
        proof {
            lemma_entries_map_key(self.entries@, path@);
        }
        let mut i: usize = 0;
        while i < self.entries.len()
            invariant
                self.wf(),
                0 <= i <= self.entries@.len(),
                forall|j: int| 0 <= j < i ==> #[trigger] self.entries@[j].0@ != path@,
            decreases self.entries@.len() - i,
        {
            if self.entries[i].0.eq(path) {
                proof {
                    lemma_entries_map_key(self.entries@, path@);
                    let k = choose|k: int|
                        0 <= k < self.entries@.len() && #[trigger] self.entries@[k].0@ == path@
                            && entries_map(self.entries@)[path@] == self.entries@[k].1;
                    assert(k == i);
                }
                return Some(&self.entries[i].1);
            }
            i += 1;
        }
        None
    }

    /// Records a verdict for `path` unless one is already there: entries
    /// are written via insert-if-absent, never replaced.
    pub fn record(&mut self, path: &String, outcome: Result<(), BackupError>)
        requires
            old(self).wf(),
        ensures
            final(self).wf(),
            final(self)@ == if old(self)@.contains_key(path@) {
                old(self)@
            } else {
                old(self)@.insert(path@, outcome)
            },
    {
        match self.lookup(path) {
            Some(_) => {},
            None => {
                proof {
                    lemma_entries_map_key(self.entries@, path@);
                }
                self.entries.push((path.clone(), outcome));
                proof {
                    assert(self.entries@.drop_last() =~= old(self).entries@);
                }
            },
        }
    }
}

} // verus!
