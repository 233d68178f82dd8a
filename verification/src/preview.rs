//! The line-level diff renderer: replaying the positional operations a diff
//! primitive produces against a working copy of the old lines, while a
//! parallel array of original line numbers keeps every report
//! line-number-correct.
//!
//! The longest-common-subsequence computation itself belongs to the
//! `slice-diff-patch` crate; its operations are replayed here, verified
//! against the one thing promised of them: applied in order, they turn the
//! old line sequence into the new one.

use vstd::prelude::*;

verus! {

use crate::errors::Error;
use crate::output::Output;
use crate::text::dec_chars;
use vstd::string::StringExecFns;

/// One positional operation against the evolving old-lines array: remove
/// the line at an index, insert a line at an index, or replace the line at
/// an index.
pub enum Change {
    Remove(usize),
    Insert(usize, String),
    Update(usize, String),
}

/// Applies one operation, or nothing when its index is out of range.
pub open spec fn apply_change(lines: Seq<Seq<char>>, c: Change) -> Option<Seq<Seq<char>>> {
    match c {
        Change::Remove(i) => if (i as int) < lines.len() {
            Some(lines.remove(i as int))
        } else {
            None
        },
        Change::Insert(i, s) => if (i as int) <= lines.len() {
            Some(lines.insert(i as int, s@))
        } else {
            None
        },
        Change::Update(i, s) => if (i as int) < lines.len() {
            Some(lines.update(i as int, s@))
        } else {
            None
        },
    }
}

/// Applies the operations in order; nothing as soon as one fails to apply.
pub open spec fn apply_changes(lines: Seq<Seq<char>>, cs: Seq<Change>) -> Option<Seq<Seq<char>>>
    decreases cs.len(),
{
    if cs.len() == 0 {
        Some(lines)
    } else {
        match apply_change(lines, cs.first()) {
            Some(next) => apply_changes(next, cs.drop_first()),
            None => None,
        }
    }
}

/// The report for a removed line: its original line number and its text.
pub open spec fn removed_line(n: int, text: Seq<char>) -> Seq<char> {
    ("\u{1B}[91m- ")@ + dec_chars(n as nat) + ("\t|")@ + text + ("\u{1B}[0m")@
}

/// The report for an inserted line: its new line number and its text.
pub open spec fn inserted_line(n: int, text: Seq<char>) -> Seq<char> {
    ("\u{1B}[32m+ ")@ + dec_chars(n as nat) + ("\t|")@ + text + ("\u{1B}[0m")@
}

/// The initial line-number array: line `i + 1` for the `i`-th line.
pub open spec fn initial_numbers(len: nat) -> Seq<int> {
    Seq::new(len, |i: int| i + 1)
}

/// The report lines of replaying `cs` against the lines `content` and
/// their parallel original line numbers `nums`: each operation reports one
/// entry (an update reports its removed and inserted halves as one entry),
/// followed by a blank line. A removal deletes from both arrays; an
/// insertion inserts a placeholder number; a replacement leaves the
/// numbers unchanged.
pub open spec fn render_lines(content: Seq<Seq<char>>, nums: Seq<int>, cs: Seq<Change>) -> Seq<
    Seq<char>,
>
    decreases cs.len(),
{
    if cs.len() == 0 {
        Seq::empty()
    } else {
        match cs.first() {
            Change::Remove(i) => seq![
                removed_line(nums[i as int], content[i as int]),
                Seq::<char>::empty(),
            ] + render_lines(content.remove(i as int), nums.remove(i as int), cs.drop_first()),
            Change::Insert(i, s) => seq![
                inserted_line(i + 1, s@),
                Seq::<char>::empty(),
            ] + render_lines(
                content.insert(i as int, s@),
                nums.insert(i as int, 0),
                cs.drop_first(),
            ),
            Change::Update(i, s) => seq![
                removed_line(nums[i as int], content[i as int]) + ("\n")@ + inserted_line(
                    i + 1,
                    s@,
                ),
                Seq::<char>::empty(),
            ] + render_lines(content.update(i as int, s@), nums, cs.drop_first()),
        }
    }
}

/// Builds one removed-line report.
fn format_removed(num: usize, text: &String) -> (r: String)
    ensures
        r@ == removed_line(num as int, text@),
{
    let mut r = String::from_str("\u{1B}[91m- ");
    let rendered = crate::text::u64_to_dec_string(num as u64);
    r.append(rendered.as_str());
    r.append("\t|");
    r.append(text.as_str());
    r.append("\u{1B}[0m");
    proof {
        assert(r@ =~= removed_line(num as int, text@));
    }
    r
}

/// Builds one inserted-line report.
fn format_inserted(num: usize, text: &String) -> (r: String)
    ensures
        r@ == inserted_line(num as int, text@),
{
    let mut r = String::from_str("\u{1B}[32m+ ");
    let rendered = crate::text::u64_to_dec_string(num as u64);
    r.append(rendered.as_str());
    r.append("\t|");
    r.append(text.as_str());
    r.append("\u{1B}[0m");
    proof {
        assert(r@ =~= inserted_line(num as int, text@));
    }
    r
}

/// The diff operations turning `old_lines` into `new_lines`.
///
/// Relies on `slice_diff_patch::lcs_diff`: the returned operations, replayed
/// in order against `old_lines`, produce exactly `new_lines`; equal
/// sequences share everything, so none are returned for them.
#[verifier::external_body]
fn lcs_diff(old_lines: &Vec<String>, new_lines: &Vec<String>) -> (r: Vec<Change>)
    ensures
        apply_changes(old_lines.deep_view(), r@) == Some(new_lines.deep_view()),
        old_lines.deep_view() == new_lines.deep_view() ==> r@.len() == 0,
{
    let raw = slice_diff_patch::lcs_diff(old_lines, new_lines);
    let mut out = Vec::new();
    for c in raw {
        match c {
            slice_diff_patch::Change::Remove(i) => out.push(Change::Remove(i)),
            slice_diff_patch::Change::Insert((i, s)) => out.push(Change::Insert(i, s)),
            slice_diff_patch::Change::Update((i, s)) => out.push(Change::Update(i, s)),
        }
    }
    out
}

/// Replays `changes` against `snapped_file`, reporting each change with
/// line-number-correct positions on `output`.
pub fn generate_output_from_diffs<O: Output>(
    snapped_file: Vec<String>,
    changes: Vec<Change>,
    output: &mut O,
) -> (r: Result<(), Error>)
    requires
        apply_changes(snapped_file.deep_view(), changes@) is Some,
    ensures
        r is Ok,
        final(output).lines() == old(output).lines() + render_lines(
            snapped_file.deep_view(),
            initial_numbers(snapped_file.deep_view().len()),
            changes@,
        ),
{
    let ghost orig_content = snapped_file.deep_view();
    let ghost all = changes@;
    let mut content = snapped_file;
    let mut line_numbers: Vec<usize> = Vec::new();
    let mut n: usize = 0;
    while n < content.len()
        invariant
            0 <= n <= content.len(),
            line_numbers@.len() == n,
            forall|j: int| 0 <= j < n ==> line_numbers@[j] == j + 1,
        decreases content.len() - n,
    {
        line_numbers.push(n + 1);
        n += 1;
    }
    proof {
        assert(line_numbers@.map_values(|v: usize| v as int) =~= initial_numbers(
            orig_content.len(),
        ));
        assert(all.skip(0) =~= all);
    }
    let mut k: usize = 0;
    while k < changes.len()
        invariant
            0 <= k <= changes.len(),
            all == changes@,
            content.deep_view().len() == line_numbers@.len(),
            apply_changes(content.deep_view(), all.skip(k as int)) is Some,
            old(output).lines() + render_lines(
                orig_content,
                initial_numbers(orig_content.len()),
                all,
            ) =~= output.lines() + render_lines(
                content.deep_view(),
                line_numbers@.map_values(|v: usize| v as int),
                all.skip(k as int),
            ),
        decreases changes.len() - k,
    {
        let ghost pre_content = content.deep_view();
        let ghost pre_nums = line_numbers@.map_values(|v: usize| v as int);
        let ghost pre_out = output.lines();
        let ghost rest = all.skip(k as int);
        proof {
            assert(rest.first() == all[k as int]);
            assert(rest.drop_first() =~= all.skip(k + 1 as int));
        }
        match &changes[k] {
            Change::Remove(index) => {
                let i = *index;
                let num = line_numbers.remove(i);
                let text = content.remove(i);
                let line = format_removed(num, &text);
                output.add(line);
                output.add_str("");
                proof {
                    reveal_strlit("");
                    assert(("")@ =~= Seq::<char>::empty());
                    assert(content.deep_view() =~~= pre_content.remove(i as int));
                    assert(line_numbers@.map_values(|v: usize| v as int) =~= pre_nums.remove(
                        i as int,
                    ));
                    assert(apply_change(pre_content, rest.first()) == Some(
                        content.deep_view(),
                    ));
                    assert(num as int == pre_nums[i as int]);
                    assert(text@ == pre_content[i as int]);
                    assert(render_lines(pre_content, pre_nums, rest) =~= seq![
                        line@,
                        Seq::<char>::empty(),
                    ] + render_lines(
                        content.deep_view(),
                        line_numbers@.map_values(|v: usize| v as int),
                        rest.drop_first(),
                    ));
                    assert(output.lines() =~= pre_out.push(line@).push(Seq::<char>::empty()));
                }
            },
            Change::Insert(index, element) => {
                let i = *index;
                line_numbers.insert(i, 0);
                content.insert(i, element.clone());
                let new_len = content.len();
                proof {
                    assert(i < new_len);
                }
                let num = i + 1;
                let line = format_inserted(num, element);
                output.add(line);
                output.add_str("");
                proof {
                    reveal_strlit("");
                    assert(("")@ =~= Seq::<char>::empty());
                    assert(content.deep_view() =~~= pre_content.insert(i as int, element@));
                    assert(line_numbers@.map_values(|v: usize| v as int) =~= pre_nums.insert(
                        i as int,
                        0,
                    ));
                    assert(apply_change(pre_content, rest.first()) == Some(
                        content.deep_view(),
                    ));
                    assert(render_lines(pre_content, pre_nums, rest) =~= seq![
                        line@,
                        Seq::<char>::empty(),
                    ] + render_lines(
                        content.deep_view(),
                        line_numbers@.map_values(|v: usize| v as int),
                        rest.drop_first(),
                    ));
                    assert(output.lines() =~= pre_out.push(line@).push(Seq::<char>::empty()));
                }
            },
            Change::Update(index, element) => {
                let i = *index;
                let num = line_numbers[i];
                let removed = content[i].clone();
                let mut line = format_removed(num, &removed);
                line.append("\n");
                let cur_len = content.len();
                proof {
                    assert(i < cur_len);
                }
                let inserted = format_inserted(i + 1, element);
                line.append(inserted.as_str());
                content.set(i, element.clone());
                output.add(line);
                output.add_str("");
                proof {
                    reveal_strlit("");
                    assert(("")@ =~= Seq::<char>::empty());
                    assert(content.deep_view() =~~= pre_content.update(i as int, element@));
                    assert(line_numbers@.map_values(|v: usize| v as int) =~= pre_nums);
                    assert(apply_change(pre_content, rest.first()) == Some(
                        content.deep_view(),
                    ));
                    assert(num as int == pre_nums[i as int]);
                    assert(removed@ == pre_content[i as int]);
                    assert(line@ =~= removed_line(pre_nums[i as int], pre_content[i as int]) + (
                    "\n")@ + inserted_line(i + 1, element@));
                    assert(render_lines(pre_content, pre_nums, rest) =~= seq![
                        line@,
                        Seq::<char>::empty(),
                    ] + render_lines(
                        content.deep_view(),
                        line_numbers@.map_values(|v: usize| v as int),
                        rest.drop_first(),
                    ));
                    assert(output.lines() =~= pre_out.push(line@).push(Seq::<char>::empty()));
                }
            },
        }
        proof {
            reveal_strlit("");
            assert(old(output).lines() + render_lines(
                orig_content,
                initial_numbers(orig_content.len()),
                all,
            ) =~= output.lines() + render_lines(
                content.deep_view(),
                line_numbers@.map_values(|v: usize| v as int),
                all.skip((k + 1) as int),
            ));
        }
        k += 1;
    }
    proof {
        assert(all.skip(all.len() as int) =~= Seq::<Change>::empty());
        assert(output.lines() =~= old(output).lines() + render_lines(
            orig_content,
            initial_numbers(orig_content.len()),
            all,
        ));
    }
    Ok(())
}

/// Diffs the snapshotted lines against the current lines and, when they
/// differ, reports every change on `output`; identical sequences produce
/// no output at all.
pub fn generate_diffs<O: Output>(
    snapped_file: Vec<String>,
    current_file: Vec<String>,
    output: &mut O,
) -> (r: Result<(), Error>)
    ensures
        r is Ok,
        snapped_file.deep_view() == current_file.deep_view() ==> final(output).lines() == old(
            output,
        ).lines(),
        exists|cs: Seq<Change>|
            apply_changes(snapped_file.deep_view(), cs) == Some(current_file.deep_view())
                && final(output).lines() == old(output).lines() + (if cs.len() == 0 {
                Seq::<Seq<char>>::empty()
            } else {
                render_lines(
                    snapped_file.deep_view(),
                    initial_numbers(snapped_file.deep_view().len()),
                    cs,
                )
            }),
{
    let changes = lcs_diff(&snapped_file, &current_file);
    if changes.is_empty() {
        proof {
            let cs = changes@;
            assert(apply_changes(snapped_file.deep_view(), cs) == Some(
                current_file.deep_view(),
            ) && output.lines() == old(output).lines() + (if cs.len() == 0 {
                Seq::<Seq<char>>::empty()
            } else {
                render_lines(
                    snapped_file.deep_view(),
                    initial_numbers(snapped_file.deep_view().len()),
                    cs,
                )
            }));
        }
        return Ok(());
    }
    let ghost cs = changes@;
    let ghost snapped = snapped_file.deep_view();
    let r = generate_output_from_diffs(snapped_file, changes, output);
    proof {
        assert(apply_changes(snapped, cs) == Some(current_file.deep_view()) && output.lines()
            == old(output).lines() + (if cs.len() == 0 {
            Seq::<Seq<char>>::empty()
        } else {
            render_lines(snapped, initial_numbers(snapped.len()), cs)
        }));
    }
    r
}

} // verus!
