use snapshotter::backup::{join_path, next_wavefront, process_directory, Task, VisitedSet};
use snapshotter::config::Config;
use snapshotter::features::{EntryDecision, EntryInfo, FeatureSet, HookContext};

fn entry(name: &str, is_dir: bool) -> EntryInfo {
    EntryInfo {
        name: String::from(name),
        is_dir,
        is_symlink: false,
        dest_exists: false,
        src_modified: 0,
        dest_modified: 0,
    }
}

fn plain_features() -> FeatureSet {
    FeatureSet::new(&Config::empty(), false, false, false, false)
}

fn features_with_skips(names: Vec<&str>, extensions: Vec<&str>) -> FeatureSet {
    let config = Config {
        skip_folders_and_files: names.into_iter().map(String::from).collect(),
        skip_file_extensions: extensions.into_iter().map(String::from).collect(),
    };
    FeatureSet::new(&config, false, false, false, false)
}

#[test]
fn visited_set_test_and_set() {
    let mut visited = VisitedSet::new();
    assert!(visited.insert_if_absent(&String::from("/a/b")));
    assert!(!visited.insert_if_absent(&String::from("/a/b")));
    assert!(visited.insert_if_absent(&String::from("/a/c")));
}

#[test]
fn reentry_yields_empty_plan() {
    let fs = plain_features();
    let mut visited = VisitedSet::new();
    let canon = String::from("/src/dir");
    let entries = vec![entry("a.txt", false), entry("sub", true)];

    let first = process_directory(&fs, &mut visited, &canon, &entries);
    assert!(!first.already_visited);
    assert_eq!(first.decisions.len(), 2);

    let second = process_directory(&fs, &mut visited, &canon, &entries);
    assert!(second.already_visited);
    assert_eq!(second.decisions.len(), 0);
}

#[test]
fn symlinked_directory_is_never_descended() {
    let fs = plain_features();
    let mut e = entry("linked", true);
    e.is_symlink = true;
    assert_eq!(fs.evaluate_entry(&e), EntryDecision::SkipSymlink);
}

#[test]
fn symlinked_file_is_still_copied() {
    let fs = plain_features();
    let mut e = entry("linked.txt", false);
    e.is_symlink = true;
    assert_eq!(fs.evaluate_entry(&e), EntryDecision::CopyFile);
}

#[test]
fn extension_pattern_skips_file() {
    let fs = features_with_skips(vec![], vec!["tmp"]);
    assert_eq!(fs.evaluate_entry(&entry("x.tmp", false)), EntryDecision::SkipFiltered);
    assert_eq!(fs.evaluate_entry(&entry("x.txt", false)), EntryDecision::CopyFile);
}

#[test]
fn name_pattern_skips_folder() {
    let fs = features_with_skips(vec!["cache"], vec![]);
    assert_eq!(fs.evaluate_entry(&entry("cache", true)), EntryDecision::SkipFiltered);
    assert_eq!(fs.evaluate_entry(&entry("data", true)), EntryDecision::Descend);
}

#[test]
fn glob_metacharacters_match() {
    let fs = features_with_skips(vec!["*.bak"], vec![]);
    assert_eq!(fs.evaluate_entry(&entry("x.bak", false)), EntryDecision::SkipFiltered);
    assert_eq!(fs.evaluate_entry(&entry("bak", false)), EntryDecision::CopyFile);
}

#[test]
fn extension_pattern_leaves_directories_alone() {
    // Extension patterns apply to files only: a directory with a dotted
    // name is still descended into; only name patterns can veto it.
    let fs = features_with_skips(vec![], vec!["log"]);
    assert_eq!(fs.evaluate_entry(&entry("v1.log", true)), EntryDecision::Descend);
    assert_eq!(fs.evaluate_entry(&entry("v1.log", false)), EntryDecision::SkipFiltered);
}

#[test]
fn ill_formed_pattern_never_matches() {
    let fs = features_with_skips(vec!["[unclosed"], vec![]);
    assert_eq!(fs.evaluate_entry(&entry("[unclosed", false)), EntryDecision::CopyFile);
}

#[test]
fn incremental_skips_fresh_destination() {
    let config = Config::empty();
    let fs = FeatureSet::new(&config, false, true, false, false);
    let mut e = entry("a.txt", false);
    e.dest_exists = true;
    e.src_modified = 100;
    e.dest_modified = 100;
    assert_eq!(fs.evaluate_entry(&e), EntryDecision::SkipUnmodified);

    e.src_modified = 101;
    assert_eq!(fs.evaluate_entry(&e), EntryDecision::CopyFile);
}

#[test]
fn incremental_never_skips_directories() {
    let config = Config::empty();
    let fs = FeatureSet::new(&config, false, true, false, false);
    let mut e = entry("sub", true);
    e.dest_exists = true;
    e.src_modified = 100;
    e.dest_modified = 200;
    assert_eq!(fs.evaluate_entry(&e), EntryDecision::Descend);
}

#[test]
fn dry_run_vetoes_everything() {
    let config = Config::empty();
    let fs = FeatureSet::new(&config, true, true, true, true);
    assert_eq!(fs.evaluate_entry(&entry("a.txt", false)), EntryDecision::SkipDryRun);
    assert_eq!(fs.evaluate_entry(&entry("sub", true)), EntryDecision::SkipDryRun);
}

#[test]
fn end_to_end_scenario_plan() {
    // Source tree {a.txt: "hello", sub/b.log: "x"}, skip extensions ["log"]:
    // a.txt is copied, sub is descended into, and sub/b.log is filtered out.
    let fs = features_with_skips(vec![], vec!["log"]);
    let mut visited = VisitedSet::new();

    let root = String::from("/src");
    let root_entries = vec![entry("a.txt", false), entry("sub", true)];
    let root_plan = process_directory(&fs, &mut visited, &root, &root_entries);
    assert!(!root_plan.already_visited);
    assert_eq!(root_plan.decisions, vec![EntryDecision::CopyFile, EntryDecision::Descend]);

    let sub = join_path(&root, &String::from("sub"));
    assert_eq!(sub, "/src/sub");
    let sub_entries = vec![entry("b.log", false)];
    let sub_plan = process_directory(&fs, &mut visited, &sub, &sub_entries);
    assert!(!sub_plan.already_visited);
    assert_eq!(sub_plan.decisions, vec![EntryDecision::SkipFiltered]);
}

#[test]
fn post_hooks_archive_only_at_top_level() {
    let config = Config::empty();
    let fs = FeatureSet::new(&config, true, false, false, false);
    let top = HookContext { src_is_dir: true, is_top_level: true };
    let nested = HookContext { src_is_dir: true, is_top_level: false };
    assert!(fs.post_process_all(&top).unwrap().archive);
    assert!(!fs.post_process_all(&nested).unwrap().archive);

    let disabled = FeatureSet::new(&config, false, false, false, false);
    assert!(!disabled.post_process_all(&top).unwrap().archive);
}

#[test]
fn post_hooks_verify_only_files() {
    let config = Config::empty();
    let fs = FeatureSet::new(&config, false, false, false, true);
    let dir = HookContext { src_is_dir: true, is_top_level: false };
    let file = HookContext { src_is_dir: false, is_top_level: false };
    assert!(!fs.post_process_all(&dir).unwrap().verify);
    assert!(fs.post_process_all(&file).unwrap().verify);

    let disabled = FeatureSet::new(&config, false, false, false, false);
    assert!(!disabled.post_process_all(&file).unwrap().verify);
}

#[test]
fn wavefront_concatenates_children_in_order() {
    let task = |s: &str| Task { src: String::from(s), dest: String::from(s) };
    let wave = next_wavefront(vec![
        vec![task("a"), task("b")],
        vec![],
        vec![task("c")],
    ]);
    let names: Vec<String> = wave.into_iter().map(|t| t.src).collect();
    assert_eq!(names, vec!["a", "b", "c"]);
}

#[test]
fn pre_hooks_always_succeed() {
    let fs = plain_features();
    let ctx = HookContext { src_is_dir: true, is_top_level: true };
    assert!(fs.pre_process_all(&ctx).is_ok());
}
