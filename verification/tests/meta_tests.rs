use kifi::errors::Error;
use kifi::locate::{first_repository, kifi_candidate};
use kifi::metafiles::{Metadata, Paths};
use kifi::output::{DebugOutput, Output};
use kifi::snapshot::{parent_of, snapshot_destination};
use kifi::text::{str_contains, u64_to_dec_string};

#[test]
fn paths_derive_every_metadata_file() {
    let paths = Paths::from_path_buf(String::from("/home/u/repo"));
    assert_eq!(paths.root(), "/home/u/repo");
    assert_eq!(paths.kifi(), "/home/u/repo/.kifi");
    assert_eq!(paths.meta(), "/home/u/repo/.kifi/META.kifi");
    assert_eq!(paths.tracked_list(), "/home/u/repo/.kifi/TRACKED.kifi");
    assert_eq!(paths.snaps(), "/home/u/repo/.kifi/SNAPSHOTS.kifi");
    assert_eq!(paths.filecache(), "/home/u/repo/.kifi/FILECACHE.kifi");
}

#[test]
fn metadata_takes_the_base_name() {
    let meta = Metadata::from_pathbuf(String::from("/home/u/project"));
    assert_eq!(meta.name(), "project");
    let bare = Metadata::from_pathbuf(String::from("project"));
    assert_eq!(bare.name(), "project");
}

#[test]
fn candidate_probes_the_metadata_directory() {
    assert_eq!(kifi_candidate(".kifi"), ".kifi");
    assert_eq!(kifi_candidate("a/b/.kifi"), "a/b/.kifi");
    assert_eq!(kifi_candidate("a/b"), "a/b/.kifi");
    assert_eq!(kifi_candidate("ends.kifi"), "ends.kifi/.kifi");
}

#[test]
fn the_nearest_ancestor_wins() {
    assert_eq!(first_repository(&vec![false, true, true]), Some(1));
    assert_eq!(first_repository(&vec![true]), Some(0));
    assert_eq!(first_repository(&vec![false, false]), None);
    assert_eq!(first_repository(&Vec::new()), None);
}

#[test]
fn snapshot_paths_mirror_the_relative_path() {
    assert_eq!(
        snapshot_destination("src/lib.rs", ".kifi/testuser_5"),
        ".kifi/testuser_5/src/lib.rs"
    );
    assert_eq!(parent_of("src/deep/lib.rs"), Some(String::from("src/deep")));
    assert_eq!(parent_of("flat.rs"), None);
}

#[test]
fn decimal_rendering_is_exact() {
    assert_eq!(u64_to_dec_string(0), "0");
    assert_eq!(u64_to_dec_string(7), "7");
    assert_eq!(u64_to_dec_string(907), "907");
    assert_eq!(u64_to_dec_string(u64::MAX), "18446744073709551615");
}

#[test]
fn containment_search_is_exact() {
    assert!(str_contains("testuser_100", "user_1"));
    assert!(str_contains("abc", ""));
    assert!(str_contains("abc", "abc"));
    assert!(!str_contains("abc", "abcd"));
    assert!(!str_contains("abc", "ac"));
}

#[test]
fn errors_render_their_console_lines() {
    let mut output = DebugOutput::new();
    Error::TrackIgnoredFile(String::from("x.log")).handle(&mut output);
    let lines = output.print().expect("a debug collector always hands lines back");
    assert_eq!(
        lines,
        vec![
            String::from("File x.log has been ignored."),
            String::from("Use -f to force tracking."),
        ]
    );

    let mut output = DebugOutput::new();
    Error::KifiNotInitialised.handle(&mut output);
    let lines = output.print().expect("a debug collector always hands lines back");
    assert_eq!(
        lines,
        vec![
            String::from("No repository accessible at the current working directory."),
            String::from("Run `kifi init` to initialise the repository."),
        ]
    );

    let mut output = DebugOutput::new();
    Error::InvalidTime(12345).handle(&mut output);
    let lines = output.print().expect("a debug collector always hands lines back");
    assert_eq!(lines, vec![String::from("Could not parse time 12345.")]);

    let mut output = DebugOutput::new();
    Error::FileCopy(
        String::from("a.txt"),
        String::from("b/a.txt"),
        String::from("denied"),
    )
    .handle(&mut output);
    let lines = output.print().expect("a debug collector always hands lines back");
    assert_eq!(
        lines,
        vec![String::from("Failed to copy a.txt to b/a.txt: denied")]
    );
}
