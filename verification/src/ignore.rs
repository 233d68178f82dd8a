//! The ignore matcher: glob patterns read from the repository's local ignore
//! file and from the user's global ignore file, plus the implicit pattern
//! that keeps the metadata directory itself out of tracking.
//!
//! The pattern syntax and the matching itself belong to the `glob` crate;
//! this module only names their outcomes and keeps the bookkeeping honest.

use vstd::prelude::*;

verus! {

/// What `glob::Pattern::matches` returns for a pattern compiled from
/// `pattern` when applied to `path`: a function of the two texts alone.
pub uninterp spec fn glob_match(pattern: Seq<char>, path: Seq<char>) -> bool;

/// Whether `glob::Pattern::new` accepts `pattern`: a function of the text
/// alone.
pub uninterp spec fn glob_ok(pattern: Seq<char>) -> bool;

/// The text a compiled pattern was built from: what `glob::Pattern::as_str`
/// returns.
pub uninterp spec fn pattern_src(p: glob::Pattern) -> Seq<char>;

#[verifier::external_type_specification]
#[verifier::external_body]
pub struct ExPattern(glob::Pattern);

/// The source text of each pattern of `ps`, in order.
pub open spec fn sources_of(ps: Seq<glob::Pattern>) -> Seq<Seq<char>> {
    ps.map_values(|p: glob::Pattern| pattern_src(p))
}

/// `path` matches at least one of `patterns`.
pub open spec fn ignored_by(patterns: Seq<Seq<char>>, path: Seq<char>) -> bool {
    exists|i: int| 0 <= i < patterns.len() && glob_match(patterns[i], path)
}

/// Compiles one pattern line, or nothing when the line is not a valid glob.
///
/// Relies on `glob::Pattern::new`: it accepts or rejects the text alone, and
/// the compiled pattern keeps its source text (`glob::Pattern::as_str`).
#[verifier::external_body]
fn compile_pattern(line: &str) -> (r: Option<glob::Pattern>)
    ensures
        r is Some <==> glob_ok(line@),
        r matches Some(p) ==> pattern_src(p) == line@,
{
    glob::Pattern::new(line).ok()
}

/// Whether the compiled pattern `p` matches `path`.
///
/// Relies on `glob::Pattern::matches`: the outcome depends on the pattern's
/// source text and the path alone.
#[verifier::external_body]
fn pattern_matches(p: &glob::Pattern, path: &str) -> (r: bool)
    ensures
        r == glob_match(pattern_src(*p), path@),
{
    p.matches(path)
}

/// The compiled ignore patterns, in the order their sources were given.
pub struct PatternSet {
    patterns: Vec<glob::Pattern>,
}

impl PatternSet {
    /// The source text of each pattern, in order.
    pub closed spec fn sources(self) -> Seq<Seq<char>> {
        sources_of(self.patterns@)
    }
}

/// The pattern lines of `lines` that compile, in order.
pub open spec fn compiled_sources(lines: Seq<Seq<char>>) -> Seq<Seq<char>> {
    lines.filter(|l: Seq<char>| glob_ok(l))
}

/// Builds the ignore pattern set: the local ignore file's lines, then the
/// global ignore file's lines (either list is empty when the file is
/// absent), each parsed permissively, then the implicit pattern for the
/// metadata directory (when it compiles, which it does).
pub fn get_kignore(local_lines: &Vec<String>, global_lines: &Vec<String>) -> (r: PatternSet)
    ensures
        r.sources() == compiled_sources(local_lines.deep_view()) + compiled_sources(
            global_lines.deep_view(),
        ) + (if glob_ok((".kifi/*")@) {
            seq![(".kifi/*")@]
        } else {
            Seq::<Seq<char>>::empty()
        }),
{
    let mut patterns: Vec<glob::Pattern> = Vec::new();
    append_compiled(&mut patterns, local_lines);
    append_compiled(&mut patterns, global_lines);
    let ghost before = sources_of(patterns@);
    match compile_pattern(".kifi/*") {
        Some(p) => {
            patterns.push(p);
            proof {
                assert(sources_of(patterns@) =~~= before.push((".kifi/*")@));
            }
        },
        None => {},
    }
    let r = PatternSet { patterns };
    proof {
        assert(r.sources() =~~= compiled_sources(local_lines.deep_view()) + compiled_sources(
            global_lines.deep_view(),
        ) + (if glob_ok((".kifi/*")@) {
            seq![(".kifi/*")@]
        } else {
            Seq::<Seq<char>>::empty()
        }));
    }
    r
}

/// Compiles each line of `lines` in order, keeping the ones that parse.
fn append_compiled(patterns: &mut Vec<glob::Pattern>, lines: &Vec<String>)
    ensures
        sources_of(final(patterns)@) == sources_of(old(patterns)@) + compiled_sources(
            lines.deep_view(),
        ),
{
    let ghost base = sources_of(old(patterns)@);
    let ghost pred = |l: Seq<char>| glob_ok(l);
    let mut i: usize = 0;
    proof {
        reveal(Seq::filter);
        assert(sources_of(patterns@) =~~= base + lines.deep_view().take(0).filter(pred));
    }
    while i < lines.len()
        invariant
            0 <= i <= lines.len(),
            pred == (|l: Seq<char>| glob_ok(l)),
            sources_of(patterns@) =~~= base + lines.deep_view().take(i as int).filter(pred),
        decreases lines.len() - i,
    {
        proof {
            reveal(Seq::filter);
            assert(lines.deep_view().take((i + 1) as int).drop_last() =~= lines.deep_view().take(
                i as int,
            ));
            assert(lines.deep_view().take((i + 1) as int).last() == lines.deep_view()[i as int]);
        }
        let ghost prev = sources_of(patterns@);
        match compile_pattern(lines[i].as_str()) {
            Some(p) => {
                patterns.push(p);
                proof {
                    assert(sources_of(patterns@) =~~= prev.push(lines.deep_view()[i as int]));
                }
            },
            None => {},
        }
        proof {
            reveal(Seq::filter);
            assert(sources_of(patterns@) =~~= base + lines.deep_view().take((i + 1) as int).filter(
                pred,
            ));
        }
        i += 1;
    }
    proof {
        assert(lines.deep_view().take(lines.deep_view().len() as int) =~= lines.deep_view());
        assert(sources_of(patterns@) =~~= base + compiled_sources(lines.deep_view()));
    }
}

/// Whether `file` matches any pattern of `kignore`.
pub fn file_is_ignored(file: &String, kignore: &PatternSet) -> (r: bool)
    ensures
        r == ignored_by(kignore.sources(), file@),
{
    let mut i: usize = 0;
    while i < kignore.patterns.len()
        invariant
            0 <= i <= kignore.patterns.len(),
            forall|j: int| 0 <= j < i ==> !glob_match(kignore.sources()[j], file@),
        decreases kignore.patterns.len() - i,
    {
        if pattern_matches(&kignore.patterns[i], file.as_str()) {
            proof {
                assert(glob_match(kignore.sources()[i as int], file@));
            }
            return true;
        }
        i += 1;
    }
    false
}

} // verus!
