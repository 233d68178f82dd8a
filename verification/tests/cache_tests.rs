use kifi::FileStatus;
use kifi::errors::Error;
use kifi::ignore::{PatternSet, file_is_ignored, get_kignore};
use kifi::metafiles::FileCache;
use kifi::reconcile::update_file_cache;

fn strings(literals: &[&str]) -> Vec<String> {
    let mut out: Vec<String> = Vec::new();
    for &literal in literals {
        out.push(String::from(literal));
    }
    out
}

fn patterns(lines: &[&str]) -> PatternSet {
    get_kignore(&strings(lines), &strings(&[]))
}

#[test]
fn reconcile_classifies_new_files() {
    let discovered = strings(&["a.txt", "build.log"]);
    let previous = FileCache::new();
    let kignore = patterns(&["*.log"]);
    let cache = update_file_cache(&discovered, &previous, &kignore);
    assert!(matches!(
        cache.get_status(&String::from("a.txt")),
        Some(FileStatus::Untracked)
    ));
    assert!(matches!(
        cache.get_status(&String::from("build.log")),
        Some(FileStatus::Ignored)
    ));
    assert_eq!(cache.get_keys(), strings(&["a.txt", "build.log"]));
}

#[test]
fn reconcile_is_idempotent() {
    let discovered = strings(&["a.txt", "build.log", "src/lib.rs"]);
    let previous = FileCache::new();
    let kignore = patterns(&["*.log"]);
    let once = update_file_cache(&discovered, &previous, &kignore);
    let twice = update_file_cache(&discovered, &once, &kignore);
    assert_eq!(once.get_keys(), twice.get_keys());
    for key in once.get_keys() {
        assert_eq!(once.get_status(&key), twice.get_status(&key));
    }
}

#[test]
fn reconcile_keeps_status_despite_new_patterns() {
    let discovered = strings(&["kept.txt"]);
    let previous = FileCache::new();
    let mut cache = update_file_cache(&discovered, &previous, &patterns(&[]));
    cache
        .change_status(&String::from("kept.txt"), FileStatus::Tracking, false)
        .expect("the path was just discovered");
    let after = update_file_cache(&discovered, &cache, &patterns(&["kept.txt"]));
    assert!(matches!(
        after.get_status(&String::from("kept.txt")),
        Some(FileStatus::Tracking)
    ));
}

#[test]
fn reconcile_purges_deleted_files() {
    let previous = FileCache::new();
    let mut cache = update_file_cache(&strings(&["a.txt", "b.txt"]), &previous, &patterns(&[]));
    cache
        .change_status(&String::from("b.txt"), FileStatus::Tracking, false)
        .expect("the path was just discovered");
    assert!(matches!(
        cache.get_status(&String::from("b.txt")),
        Some(FileStatus::Tracking)
    ));
    let after = update_file_cache(&strings(&["a.txt"]), &cache, &patterns(&[]));
    assert!(after.get_status(&String::from("b.txt")).is_none());
    assert!(matches!(
        after.get_status(&String::from("a.txt")),
        Some(FileStatus::Untracked)
    ));
}

#[test]
fn ignore_seeds_only_newly_discovered_paths() {
    let discovered = strings(&["notes.log"]);
    let previous = FileCache::new();
    let fresh = update_file_cache(&discovered, &previous, &patterns(&["*.log"]));
    assert!(matches!(
        fresh.get_status(&String::from("notes.log")),
        Some(FileStatus::Ignored)
    ));

    let mut tracked_before = update_file_cache(&discovered, &previous, &patterns(&[]));
    tracked_before
        .change_status(&String::from("notes.log"), FileStatus::Tracking, false)
        .expect("the path was just discovered");
    let after = update_file_cache(&discovered, &tracked_before, &patterns(&["*.log"]));
    assert!(matches!(
        after.get_status(&String::from("notes.log")),
        Some(FileStatus::Tracking)
    ));
}

#[test]
fn tracking_an_ignored_file_needs_the_override() {
    let discovered = strings(&["secret.log"]);
    let previous = FileCache::new();
    let mut cache = update_file_cache(&discovered, &previous, &patterns(&["*.log"]));

    let refused = cache.change_status(&String::from("secret.log"), FileStatus::Tracking, false);
    assert!(matches!(refused, Err(Error::TrackIgnoredFile(p)) if p == "secret.log"));
    assert!(matches!(
        cache.get_status(&String::from("secret.log")),
        Some(FileStatus::Ignored)
    ));

    let forced = cache.change_status(&String::from("secret.log"), FileStatus::Tracking, true);
    assert!(forced.is_ok());
    assert!(matches!(
        cache.get_status(&String::from("secret.log")),
        Some(FileStatus::Tracking)
    ));
}

#[test]
fn tracking_an_unknown_path_fails() {
    let mut cache = FileCache::new();
    let refused = cache.change_status(&String::from("ghost.txt"), FileStatus::Tracking, false);
    assert!(matches!(refused, Err(Error::FileNotFoundInCache(p)) if p == "ghost.txt"));
}

#[test]
fn tracked_files_are_selected_in_order() {
    let previous = FileCache::new();
    let mut cache = update_file_cache(
        &strings(&["a.txt", "b.txt", "c.txt"]),
        &previous,
        &patterns(&[]),
    );
    cache
        .change_status(&String::from("c.txt"), FileStatus::Tracking, false)
        .expect("the path was just discovered");
    cache
        .change_status(&String::from("a.txt"), FileStatus::Tracking, false)
        .expect("the path was just discovered");
    assert_eq!(cache.get_tracked_files(), strings(&["a.txt", "c.txt"]));
    assert!(cache.has_tracked_file(&String::from("a.txt")));
    assert!(!cache.has_tracked_file(&String::from("b.txt")));
    assert!(!cache.has_tracked_file(&String::from("missing.txt")));
}

#[test]
fn tracking_twice_succeeds_silently() {
    let previous = FileCache::new();
    let mut cache = update_file_cache(&strings(&["a.txt"]), &previous, &patterns(&[]));
    assert!(cache
        .change_status(&String::from("a.txt"), FileStatus::Tracking, false)
        .is_ok());
    assert!(cache
        .change_status(&String::from("a.txt"), FileStatus::Tracking, false)
        .is_ok());
    assert!(matches!(
        cache.get_status(&String::from("a.txt")),
        Some(FileStatus::Tracking)
    ));
}

#[test]
fn the_metadata_directory_is_always_ignored() {
    let kignore = patterns(&[]);
    assert!(file_is_ignored(&String::from(".kifi/META.kifi"), &kignore));
    assert!(!file_is_ignored(&String::from("src/lib.rs"), &kignore));
}

#[test]
fn an_invalid_pattern_line_is_dropped() {
    let kignore = patterns(&["[", "*.tmp"]);
    assert!(file_is_ignored(&String::from("x.tmp"), &kignore));
    assert!(!file_is_ignored(&String::from("["), &kignore));
}

#[test]
fn an_empty_walk_empties_the_cache() {
    let previous = FileCache::new();
    let mut cache = update_file_cache(&strings(&["a.txt"]), &previous, &patterns(&[]));
    cache
        .change_status(&String::from("a.txt"), FileStatus::Tracking, false)
        .expect("the path was just discovered");
    let after = update_file_cache(&strings(&[]), &cache, &patterns(&[]));
    assert!(after.get_keys().is_empty());
    assert!(after.get_tracked_files().is_empty());
}
