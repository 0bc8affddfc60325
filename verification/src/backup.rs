//! The traversal engine's decision core. A run expands one (source,
//! destination) pair into a breadth-first wavefront of directory tasks; for
//! each directory this module takes the canonical source path and the facts
//! about the directory's entries, guards against re-entry through the shared
//! visited set, and decides, entry by entry, what the feature pipeline asks
//! for. The caller performs the filesystem work these decisions call for and
//! feeds the directories to be descended into back as the next wavefront.

use vstd::prelude::*;

verus! {

use crate::features::{entry_decision, EntryDecision, EntryInfo, FeatureSet};

/// One directory to mirror: an ordered pair of source and destination
/// paths. A task exists only in a wavefront list.
pub struct Task {
    /// The source directory.
    pub src: String,
    /// The destination directory.
    pub dest: String,
}

/// The set of canonical source paths processed so far in one run. A path
/// enters the set at most once: insertion is the test-and-set that keeps a
/// directory reachable through several links from being processed twice.
pub struct VisitedSet {
    paths: Vec<String>,
}

impl View for VisitedSet {
    type V = Set<Seq<char>>;

    closed spec fn view(&self) -> Set<Seq<char>> {
        Set::new(
            |p: Seq<char>|
                exists|i: int| 0 <= i < self.paths@.len() && #[trigger] self.paths@[i]@ == p,
        )
    }
}

impl VisitedSet {
    /// An empty set, created at run start.
    pub fn new() -> (v: Self)
        ensures
            v@ == Set::<Seq<char>>::empty(),
    {
        let v = VisitedSet { paths: Vec::new() };
        proof {
            assert(v@ =~= Set::<Seq<char>>::empty());
        }
        v
    }

    /// The atomic test-and-set: adds `path` and reports whether it was
    /// absent before. Nothing is ever removed within a run.
    pub fn insert_if_absent(&mut self, path: &String) -> (fresh: bool)
        ensures
            final(self)@ == old(self)@.insert(path@),
            fresh == !old(self)@.contains(path@),
    {
        let mut i: usize = 0;
        while i < self.paths.len()
            invariant
                0 <= i <= self.paths@.len(),
                self.paths@ == old(self).paths@,
                forall|j: int| 0 <= j < i ==> #[trigger] self.paths@[j]@ != path@,
            decreases self.paths@.len() - i,
        {
            if self.paths[i].eq(path) {
                proof {
                    assert(old(self)@.contains(path@));
                    assert(self@ =~= old(self)@.insert(path@));
                }
                return false;
            }
            i += 1;
        }
        proof {
            assert(!old(self)@.contains(path@));
        }
        self.paths.push(path.clone());
        proof {
            assert forall|p: Seq<char>| self@.contains(p) <==> old(self)@.insert(
                path@,
            ).contains(p) by {
                if self@.contains(p) {
                    let k = choose|k: int|
                        0 <= k < self.paths@.len() && #[trigger] self.paths@[k]@ == p;
                    if k < old(self).paths@.len() {
                        assert(old(self).paths@[k]@ == p);
                    }
                }
                if old(self)@.contains(p) {
                    let k = choose|k: int|
                        0 <= k < old(self).paths@.len() && #[trigger] old(self).paths@[k]@ == p;
                    assert(self.paths@[k]@ == p);
                }
                if p == path@ {
                    assert(self.paths@[self.paths@.len() - 1]@ == p);
                }
            }
            assert(self@ =~= old(self)@.insert(path@));
        }
        true
    }
}

/// What one directory-processing step decided: whether the directory had
/// already been visited (and so contributes nothing), and otherwise one
/// decision per entry, aligned with the entry list.
pub struct DirPlan {
    /// The re-entry guard fired: the directory contributes no work.
    pub already_visited: bool,
    /// The pipeline's decision for each entry, in entry order.
    pub decisions: Vec<EntryDecision>,
}

/// The pipeline's decisions for a whole entry list, in order.
pub open spec fn decisions_spec(fs: &FeatureSet, entries: Seq<EntryInfo>) -> Seq<EntryDecision> {
    entries.map_values(|e: EntryInfo| entry_decision(fs, &e))
}

/// One directory-processing step over the run model: an already-visited
/// canonical path contributes nothing; a fresh one is added to the visited
/// set and every entry gets its pipeline decision.
pub open spec fn process_spec(
    fs: &FeatureSet,
    visited: Set<Seq<char>>,
    canon_src: Seq<char>,
    entries: Seq<EntryInfo>,
) -> (Set<Seq<char>>, Seq<EntryDecision>) {
    if visited.contains(canon_src) {
        (visited, Seq::<EntryDecision>::empty())
    } else {
        (visited.insert(canon_src), decisions_spec(fs, entries))
    }
}

/// Runs the pipeline over a whole entry list: one decision per entry, in
/// entry order.
pub fn plan_entries(fs: &FeatureSet, entries: &Vec<EntryInfo>) -> (decisions: Vec<EntryDecision>)
    ensures
        decisions@ == decisions_spec(fs, entries@),
{
    let mut decisions: Vec<EntryDecision> = Vec::new();
    let mut i: usize = 0;
    while i < entries.len()
        invariant
            0 <= i <= entries@.len(),
            decisions@.len() == i,
            forall|j: int|
                0 <= j < i ==> #[trigger] decisions@[j] == entry_decision(fs, &entries@[j]),
        decreases entries@.len() - i,
    {
        let d = fs.evaluate_entry(&entries[i]);
        decisions.push(d);
        i += 1;
    }
    proof {
        assert(decisions@ =~= decisions_spec(fs, entries@));
    }
    decisions
}

/// Processes one directory task: the re-entry guard first, then one
/// pipeline decision per entry. The caller lists the directory, hands the
/// entries' facts in, and acts on the returned plan: copying the files,
/// creating the destination, and scheduling the directories to descend into
/// for the next wavefront. A driver that must not list an already-visited
/// directory at all makes the same two steps itself, `insert_if_absent`
/// before any other work and `plan_entries` after listing.
pub fn process_directory(
    fs: &FeatureSet,
    visited: &mut VisitedSet,
    canon_src: &String,
    entries: &Vec<EntryInfo>,
) -> (p: DirPlan)
    ensures
        (final(visited)@, p.decisions@) == process_spec(fs, old(visited)@, canon_src@, entries@),
        p.already_visited == old(visited)@.contains(canon_src@),
{
    let fresh = visited.insert_if_absent(canon_src);
    if !fresh {
        proof {
            assert(old(visited)@.insert(canon_src@) =~= old(visited)@);
        }
        return DirPlan { already_visited: true, decisions: Vec::new() };
    }
    let decisions = plan_entries(fs, entries);
    DirPlan { already_visited: false, decisions }
}

spec fn views_of(lists: Seq<Vec<Task>>) -> Seq<Seq<Task>> {
    lists.map_values(|v: Vec<Task>| v@)
}

/// Collects the children every directory of one wavefront produced into
/// the next wavefront, in wavefront order: the new list is exactly the
/// concatenation of the child lists. All directories of a depth are
/// processed before any of the next depth begins.
pub fn next_wavefront(child_lists: Vec<Vec<Task>>) -> (r: Vec<Task>)
    ensures
        r@ == child_lists@.map_values(|v: Vec<Task>| v@).flatten(),
{
    let ghost all = child_lists@;
    let mut rest = child_lists;
    let mut r: Vec<Task> = Vec::new();
    let ghost mut done: int = 0;
    proof {
        assert(views_of(all.take(0)).flatten_alt() =~= Seq::<Task>::empty());
    }
    while rest.len() > 0
        invariant
            0 <= done <= all.len(),
            rest@ =~= all.skip(done),
            r@ == views_of(all.take(done)).flatten_alt(),
        decreases rest@.len(),
    {
        let mut first = rest.remove(0);
        proof {
            assert(all.skip(done)[0] == all[done]);
            assert(rest@ =~= all.skip(done + 1));
        }
        r.append(&mut first);
        proof {
            done = done + 1;
            assert(views_of(all.take(done)).drop_last() =~= views_of(all.take(done - 1)));
            assert(views_of(all.take(done)).last() == all[done - 1]@);
        }
    }
    proof {
        assert(all.take(done) =~= all);
        views_of(all).lemma_flatten_and_flatten_alt_are_equivalent();
    }
    r
}

/// Joins a directory path and an entry name with the path separator.
pub fn join_path(base: &String, name: &String) -> (r: String)
    ensures
        r@ == base@ + "/"@ + name@,
{
    let mut r = base.clone();
    r.append("/");
    r.append(name.as_str());
    proof {
        assert(r@ =~= base@ + "/"@ + name@);
    }
    r
}

/// Dry-run purity at the level of a whole directory plan: with dry run
/// enabled, no entry of any directory is ever copied or descended into, so
/// a run builds nothing at the destination beyond its root directory.
pub proof fn lemma_dry_run_plan_inert(fs: &FeatureSet, entries: Seq<EntryInfo>)
    requires
        fs.dry_run.enabled,
    ensures
        forall|j: int|
            0 <= j < decisions_spec(fs, entries).len() ==> #[trigger] decisions_spec(fs, entries)[j]
                != EntryDecision::CopyFile && decisions_spec(fs, entries)[j]
                != EntryDecision::Descend,
{
    assert forall|j: int| 0 <= j < decisions_spec(fs, entries).len() implies #[trigger] decisions_spec(
        fs,
        entries,
    )[j] != EntryDecision::CopyFile && decisions_spec(fs, entries)[j]
        != EntryDecision::Descend by {
        crate::features::lemma_dry_run_purity(fs, &entries[j]);
    }
}

/// Idempotent re-entry: once a canonical source path has gone through one
/// directory-processing step, a second step for the same path — however it
/// was reached — contributes no decisions, so its children are produced
/// exactly once.
pub proof fn lemma_reentry_idempotent(
    fs: &FeatureSet,
    visited: Set<Seq<char>>,
    canon_src: Seq<char>,
    entries1: Seq<EntryInfo>,
    entries2: Seq<EntryInfo>,
)
    ensures
        process_spec(fs, process_spec(fs, visited, canon_src, entries1).0, canon_src, entries2).1
            == Seq::<EntryDecision>::empty(),
{
}

} // verus!
