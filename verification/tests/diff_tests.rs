use kifi::output::{DebugOutput, Output};
use kifi::preview::generate_diffs;

fn strings(literals: &[&str]) -> Vec<String> {
    let mut out: Vec<String> = Vec::new();
    for &literal in literals {
        out.push(String::from(literal));
    }
    out
}

#[test]
fn test_diffs() {
    let dummy_snapped_file = vec![
        "Lorem ipsum dolor sit amet",
        "consectetur adipiscing elit",
        "sed do eiusmod tempor incididunt ut labore et dolore magna aliqua",
        "Ut enim ad minim veniam",
        "quis nostrud exercitation ullamco laboris nisi ut aliquip ex ea commodo consequat",
        "Duis aute irure dolor in reprehenderit in voluptate velit esse cillum dolore eu fugiat nulla pariatur",
        "sunt in culpa qui officia deserunt mollit anim id est laborum",
        "Vulputate ut pharetra sit amet",
    ];

    let dummy_changed_file = vec![
        "Lorem ipsum dolor sit amet",
        "sed do eiusmod tempor incididunt ut labore et dolore magna aliqua",
        "Ut enim ad minim veniam",
        "quis nostrud exercitation ullamco laboris nisi ut aliquip ex ea commodo consequat",
        "Excepteur sint occaecat cupidatat non proident",
        "Duis aute irure dolor in reprehenderit in voluptate velit esse cillum dolore eu fugiat nulla pariatur",
        "Tempor orci dapibus ultrices in iaculis nunc sed",
        "Vulputate ut pharetra sit amet",
    ];

    let mut snapped_strings: Vec<String> = Vec::new();
    for &literal in &dummy_snapped_file {
        snapped_strings.push(String::from(literal));
    }

    let mut changed_strings: Vec<String> = Vec::new();
    for &literal in &dummy_changed_file {
        changed_strings.push(String::from(literal));
    }

    let test = vec![
        "\x1B[91m- 2\t|consectetur adipiscing elit\x1B[0m",
        "",
        "\x1B[32m+ 5\t|Excepteur sint occaecat cupidatat non proident\x1B[0m",
        "",
        "\x1B[91m- 7\t|sunt in culpa qui officia deserunt mollit anim id est laborum\x1B[0m\n\x1B[32m+ 7\t|Tempor orci dapibus ultrices in iaculis nunc sed\x1B[0m",
        "",
    ];

    let mut test_strings: Vec<String> = Vec::new();
    for &literal in &test {
        test_strings.push(String::from(literal));
    }

    let mut output = DebugOutput::new();
    assert!(generate_diffs(snapped_strings, changed_strings, &mut output).is_ok());

    assert_eq!(
        test_strings,
        output
            .print()
            .expect("generate_diffs() should have given an output.")
    );
}

#[test]
fn identical_lines_render_nothing() {
    let prev = strings(&["a", "b", "c"]);
    let curr = strings(&["a", "b", "c"]);
    let mut output = DebugOutput::new();
    assert!(generate_diffs(prev, curr, &mut output).is_ok());
    let lines = output.print().expect("a debug collector always hands lines back");
    assert!(lines.is_empty());
}

#[test]
fn removal_reports_original_line_number() {
    let prev = strings(&["a", "b", "c"]);
    let curr = strings(&["a", "c"]);
    let mut output = DebugOutput::new();
    assert!(generate_diffs(prev, curr, &mut output).is_ok());
    let lines = output.print().expect("a debug collector always hands lines back");
    assert_eq!(lines, strings(&["\x1B[91m- 2\t|b\x1B[0m", ""]));
}

#[test]
fn insertion_reports_new_line_number() {
    let prev = strings(&["a", "c"]);
    let curr = strings(&["a", "b", "c"]);
    let mut output = DebugOutput::new();
    assert!(generate_diffs(prev, curr, &mut output).is_ok());
    let lines = output.print().expect("a debug collector always hands lines back");
    assert_eq!(lines, strings(&["\x1B[32m+ 2\t|b\x1B[0m", ""]));
}

#[test]
fn diff_against_nothing_inserts_every_line() {
    let prev: Vec<String> = Vec::new();
    let curr = strings(&["only"]);
    let mut output = DebugOutput::new();
    assert!(generate_diffs(prev, curr, &mut output).is_ok());
    let lines = output.print().expect("a debug collector always hands lines back");
    assert_eq!(lines, strings(&["\x1B[32m+ 1\t|only\x1B[0m", ""]));
}
