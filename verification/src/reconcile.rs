//! The reconciliation algorithm: merging the files discovered by a walk of
//! the working tree with the previously persisted file-status cache, while
//! honoring the ignore rules.
//!
//! A discovered path keeps its old status when the previous cache knows it;
//! a new path is `Ignored` when it matches an ignore pattern and `Untracked`
//! otherwise; a path the walk no longer finds is dropped.

use vstd::prelude::*;

verus! {

use crate::FileStatus;
use crate::ignore::{PatternSet, file_is_ignored, ignored_by};
use crate::metafiles::FileCache;

/// No path occurs twice, as holds of the paths found by a directory walk.
pub open spec fn distinct_seq(d: Seq<Seq<char>>) -> bool {
    forall|i: int, j: int| 0 <= i < j < d.len() ==> d[i] != d[j]
}

/// The status a discovered path gets: its old status when the previous
/// cache has it; otherwise `Ignored` when it matches an ignore pattern;
/// otherwise `Untracked`.
pub open spec fn classify(p: Seq<char>, previous: FileCache, patterns: Seq<Seq<char>>) -> FileStatus {
    if previous.contains_path(p) {
        previous.status_of(p)
    } else if ignored_by(patterns, p) {
        FileStatus::Ignored
    } else {
        FileStatus::Untracked
    }
}

/// The entries of a reconciled cache: exactly the discovered paths, in
/// discovery order, each with its classified status.
pub open spec fn reconciled_entries(
    discovered: Seq<Seq<char>>,
    previous: FileCache,
    patterns: Seq<Seq<char>>,
) -> Seq<(Seq<char>, FileStatus)> {
    discovered.map_values(|p: Seq<char>| (p, classify(p, previous, patterns)))
}

/// Rebuilds the file-status cache from the paths a walk of the working tree
/// discovered, carrying over the status of every path the previous cache
/// knows and classifying the rest by the ignore patterns.
pub fn update_file_cache(
    discovered: &Vec<String>,
    old_file_list: &FileCache,
    kignore: &PatternSet,
) -> (r: FileCache)
    requires
        old_file_list.wf(),
        distinct_seq(discovered.deep_view()),
    ensures
        r.wf(),
        r.entries() == reconciled_entries(
            discovered.deep_view(),
            *old_file_list,
            kignore.sources(),
        ),
{
    let ghost d = discovered.deep_view();
    let mut r = FileCache::new();
    let mut i: usize = 0;
    while i < discovered.len()
        invariant
            0 <= i <= discovered.len(),
            d == discovered.deep_view(),
            distinct_seq(d),
            old_file_list.wf(),
            r.wf(),
            r.entries() =~= reconciled_entries(d.take(i as int), *old_file_list, kignore.sources()),
        decreases discovered.len() - i,
    {
        let p = &discovered[i];
        proof {
            assert(p@ == d[i as int]);
            assert(!r.contains_path(p@)) by {
                if r.contains_path(p@) {
                    let k = choose|k: int|
                        0 <= k < r.entries().len() && (#[trigger] r.entries()[k]).0 == p@;
                    assert(d.take(i as int)[k] == d[k]);
                }
            }
        }
        match old_file_list.get_status(p) {
            Some(st) => {
                let carried = *st;
                r.add_file_from_existing(p.clone(), carried);
            },
            None => {
                if file_is_ignored(p, kignore) {
                    r.add_file(p.clone(), FileStatus::Ignored);
                } else {
                    r.add_file(p.clone(), FileStatus::Untracked);
                }
            },
        }
        proof {
            assert(r.entries() =~= reconciled_entries(
                d.take((i + 1) as int),
                *old_file_list,
                kignore.sources(),
            ));
        }
        i += 1;
    }
    proof {
        assert(d.take(d.len() as int) =~= d);
    }
    r
}

/// Reconciliation is idempotent: with the same discovered paths and the
/// same ignore patterns, reconciling a just-reconciled cache reproduces it
/// entry for entry.
pub proof fn lemma_reconcile_idempotent(
    discovered: Seq<Seq<char>>,
    previous: FileCache,
    once: FileCache,
    twice: FileCache,
    patterns: Seq<Seq<char>>,
)
    requires
        distinct_seq(discovered),
        once.entries() == reconciled_entries(discovered, previous, patterns),
        twice.entries() == reconciled_entries(discovered, once, patterns),
    ensures
        twice.entries() == once.entries(),
{
    assert forall|k: int| 0 <= k < discovered.len() implies twice.entries()[k]
        == once.entries()[k] by {
        let p = discovered[k];
        assert(once.entries()[k].0 == p);
        assert(once.contains_path(p));
        let j = once.idx_of(p);
        assert(0 <= j < once.entries().len() && once.entries()[j].0 == p);
        assert(discovered[j] == p);
        assert(j == k);
    }
    assert(twice.entries() =~= once.entries());
}

/// Status is sticky: a path known to the previous cache and discovered
/// again keeps its status, whatever the ignore patterns now say.
pub proof fn lemma_reconcile_status_sticky(
    discovered: Seq<Seq<char>>,
    previous: FileCache,
    reconciled: FileCache,
    patterns: Seq<Seq<char>>,
    p: Seq<char>,
)
    requires
        distinct_seq(discovered),
        previous.wf(),
        reconciled.entries() == reconciled_entries(discovered, previous, patterns),
        previous.contains_path(p),
        discovered.contains(p),
    ensures
        reconciled.contains_path(p),
        reconciled.status_of(p) == previous.status_of(p),
{
    let k = choose|k: int| 0 <= k < discovered.len() && discovered[k] == p;
    assert(reconciled.entries()[k].0 == p);
    assert(reconciled.contains_path(p));
    let j = reconciled.idx_of(p);
    assert(0 <= j < reconciled.entries().len() && reconciled.entries()[j].0 == p);
    assert(discovered[j] == p);
    assert(j == k);
}

/// Deletion purge: a path the walk no longer finds is absent from the
/// reconciled cache, even when the previous cache still had it (as
/// `Tracking` or anything else).
pub proof fn lemma_reconcile_purges_missing(
    discovered: Seq<Seq<char>>,
    previous: FileCache,
    reconciled: FileCache,
    patterns: Seq<Seq<char>>,
    p: Seq<char>,
)
    requires
        reconciled.entries() == reconciled_entries(discovered, previous, patterns),
        !discovered.contains(p),
    ensures
        !reconciled.contains_path(p),
{
    if reconciled.contains_path(p) {
        let j = choose|j: int|
            0 <= j < reconciled.entries().len() && (#[trigger] reconciled.entries()[j]).0 == p;
        assert(discovered[j] == p);
    }
}

/// Ignore precedence: a newly discovered path matching an ignore pattern is
/// classified `Ignored`; the same path, had the previous cache known it as
/// `Tracking`, would stay `Tracking`.
pub proof fn lemma_ignore_applies_to_new_paths_only(
    discovered: Seq<Seq<char>>,
    previous: FileCache,
    reconciled: FileCache,
    patterns: Seq<Seq<char>>,
    p: Seq<char>,
)
    requires
        distinct_seq(discovered),
        previous.wf(),
        reconciled.entries() == reconciled_entries(discovered, previous, patterns),
        discovered.contains(p),
        ignored_by(patterns, p),
    ensures
        reconciled.contains_path(p),
        !previous.contains_path(p) ==> reconciled.status_of(p) == FileStatus::Ignored,
        previous.contains_path(p) && previous.status_of(p) == FileStatus::Tracking
            ==> reconciled.status_of(p) == FileStatus::Tracking,
{
    let k = choose|k: int| 0 <= k < discovered.len() && discovered[k] == p;
    assert(reconciled.entries()[k].0 == p);
    assert(reconciled.contains_path(p));
    let j = reconciled.idx_of(p);
    assert(0 <= j < reconciled.entries().len() && reconciled.entries()[j].0 == p);
    assert(discovered[j] == p);
    assert(j == k);
}

} // verus!
