//! The persisted shapes of a repository: the canonical paths to its metadata
//! files, the repository metadata itself, the per-file status cache, the
//! snapshot history, and the registered user.

use vstd::prelude::*;

verus! {

use crate::FileStatus;
use crate::clock::now_unix_secs;
use crate::errors::Error;
use crate::text::{base_name, contains_seq, joined, str_contains};
use crate::text::{lemma_base_name_after, lemma_base_name_plain};
use vstd::string::StringExecFns;

/// The canonical root of a repository, and the fixed-name paths to each of
/// its metadata files.
pub struct Paths {
    path: String,
}

impl View for Paths {
    type V = Seq<char>;

    /// A `Paths` value is just its canonical root.
    closed spec fn view(&self) -> Seq<char> {
        self.path@
    }
}

impl Paths {
    /// Wraps an already canonicalized root directory.
    pub fn from_path_buf(root_directory: String) -> (r: Self)
        ensures
            r@ == root_directory@,
    {
        Paths { path: root_directory }
    }

    /// The repository root.
    pub fn root(&self) -> (r: String)
        ensures
            r@ == self@,
    {
        self.path.clone()
    }

    /// The metadata directory under the root.
    pub fn kifi(&self) -> (r: String)
        ensures
            r@ == joined(self@, (".kifi")@),
    {
        crate::text::join_path(self.path.as_str(), ".kifi")
    }

    /// The file holding the repository metadata.
    pub fn meta(&self) -> (r: String)
        ensures
            r@ == joined(joined(self@, (".kifi")@), ("META.kifi")@),
    {
        let kifi = self.kifi();
        crate::text::join_path(kifi.as_str(), "META.kifi")
    }

    /// The legacy file listing tracked paths.
    pub fn tracked_list(&self) -> (r: String)
        ensures
            r@ == joined(joined(self@, (".kifi")@), ("TRACKED.kifi")@),
    {
        let kifi = self.kifi();
        crate::text::join_path(kifi.as_str(), "TRACKED.kifi")
    }

    /// The file holding the snapshot history.
    pub fn snaps(&self) -> (r: String)
        ensures
            r@ == joined(joined(self@, (".kifi")@), ("SNAPSHOTS.kifi")@),
    {
        let kifi = self.kifi();
        crate::text::join_path(kifi.as_str(), "SNAPSHOTS.kifi")
    }

    /// The file holding the file-status cache.
    pub fn filecache(&self) -> (r: String)
        ensures
            r@ == joined(joined(self@, (".kifi")@), ("FILECACHE.kifi")@),
    {
        let kifi = self.kifi();
        crate::text::join_path(kifi.as_str(), "FILECACHE.kifi")
    }
}

/// Information about the repository as a whole.
#[derive(Debug)]
pub struct Metadata {
    repo_name: String,
}

impl View for Metadata {
    type V = Seq<char>;

    /// A `Metadata` value is just the repository's name.
    closed spec fn view(&self) -> Seq<char> {
        self.repo_name@
    }
}

impl Metadata {
    /// Takes the repository name from the base name of its (already
    /// canonicalized) root directory.
    pub fn from_pathbuf(path: String) -> (r: Self)
        requires
            path@.len() > 0,
            path@.last() != '/',
        ensures
            r@ == base_name(path@),
    {
        let len = path.as_str().unicode_len();
        match crate::text::last_separator(path.as_str()) {
            Some(i) => {
                let nm = path.as_str().substring_char(i + 1, len);
                proof {
                    lemma_base_name_after(path@, i as int);
                }
                Metadata { repo_name: nm.to_owned() }
            },
            None => {
                proof {
                    lemma_base_name_plain(path@);
                }
                Metadata { repo_name: path }
            },
        }
    }

    /// The repository's name as recorded at initialization.
    pub fn name(&self) -> (r: &String)
        ensures
            r@ == self@,
    {
        &self.repo_name
    }
}

/// The per-file status cache: a mapping from a path (relative to the
/// repository root) to its status, in discovery order, with unique keys.
pub struct FileCache {
    files: Vec<(String, FileStatus)>,
}

impl FileCache {
    /// The cache's entries: each path with its status, in order.
    pub closed spec fn entries(self) -> Seq<(Seq<char>, FileStatus)> {
        self.files@.map_values(|e: (String, FileStatus)| (e.0@, e.1))
    }

    /// The paths in the cache, in order.
    pub open spec fn paths(self) -> Seq<Seq<char>> {
        self.entries().map_values(|e: (Seq<char>, FileStatus)| e.0)
    }

    /// Well-formed: no path occurs twice.
    pub open spec fn wf(self) -> bool {
        forall|i: int, j: int|
            0 <= i < j < self.entries().len() ==> (#[trigger] self.entries()[i]).0 != (
            #[trigger] self.entries()[j]).0
    }

    /// Whether the cache has an entry for `p`.
    pub open spec fn contains_path(self, p: Seq<char>) -> bool {
        exists|i: int| 0 <= i < self.entries().len() && (#[trigger] self.entries()[i]).0 == p
    }

    /// The index of `p`'s entry (meaningful when `contains_path(p)` and `wf`).
    pub open spec fn idx_of(self, p: Seq<char>) -> int {
        choose|i: int| 0 <= i < self.entries().len() && (#[trigger] self.entries()[i]).0 == p
    }

    /// The status recorded for `p` (meaningful when `contains_path(p)`).
    pub open spec fn status_of(self, p: Seq<char>) -> FileStatus {
        self.entries()[self.idx_of(p)].1
    }

    /// An empty cache.
    pub fn new() -> (r: Self)
        ensures
            r.entries() == Seq::<(Seq<char>, FileStatus)>::empty(),
            r.wf(),
    {
        let r = FileCache { files: Vec::new() };
        proof {
            assert(r.entries() =~= Seq::<(Seq<char>, FileStatus)>::empty());
        }
        r
    }

    /// The index of `key`'s entry, by linear search.
    fn find_index(&self, key: &String) -> (r: Option<usize>)
        ensures
            match r {
                Some(i) => i < self.entries().len() && self.entries()[i as int].0 == key@,
                None => !self.contains_path(key@),
            },
    {
        let mut i: usize = 0;
        while i < self.files.len()
            invariant
                0 <= i <= self.files.len(),
                forall|j: int| 0 <= j < i ==> (#[trigger] self.entries()[j]).0 != key@,
            decreases self.files.len() - i,
        {
            if self.files[i].0 == *key {
                return Some(i);
            }
            i += 1;
        }
        None
    }

    /// Records a newly discovered file; a path already present keeps its
    /// earlier entry.
    pub fn add_file(&mut self, file_path: String, status: FileStatus)
        requires
            old(self).wf(),
        ensures
            final(self).wf(),
            old(self).contains_path(file_path@) ==> *final(self) == *old(self),
            !old(self).contains_path(file_path@) ==> final(self).entries() == old(
                self,
            ).entries().push((file_path@, status)),
    {
        match self.find_index(&file_path) {
            Some(_) => {},
            None => {
                self.files.push((file_path, status));
                proof {
                    assert(self.entries() =~= old(self).entries().push((file_path@, status)));
                }
            },
        }
    }

    /// Carries a file over from an earlier cache with its old status; an
    /// entry already present for the path is overwritten.
    pub fn add_file_from_existing(&mut self, file_path: String, old_file_status: FileStatus)
        requires
            old(self).wf(),
        ensures
            final(self).wf(),
            old(self).contains_path(file_path@) ==> final(self).entries() == old(
                self,
            ).entries().update(old(self).idx_of(file_path@), (file_path@, old_file_status)),
            !old(self).contains_path(file_path@) ==> final(self).entries() == old(
                self,
            ).entries().push((file_path@, old_file_status)),
    {
        match self.find_index(&file_path) {
            Some(i) => {
                self.files.set(i, (file_path, old_file_status));
                proof {
                    let p = file_path@;
                    let ghost oldc = *old(self);
                    assert(oldc.entries()[i as int].0 == p);
                    assert(oldc.idx_of(p) == i as int) by {
                        let k = oldc.idx_of(p);
                        assert(0 <= k < oldc.entries().len() && oldc.entries()[k].0 == p);
                    }
                    assert(self.entries() =~= oldc.entries().update(
                        i as int,
                        (p, old_file_status),
                    ));
                }
            },
            None => {
                self.files.push((file_path, old_file_status));
                proof {
                    assert(self.entries() =~= old(self).entries().push(
                        (file_path@, old_file_status),
                    ));
                }
            },
        }
    }

    /// Every path the cache knows, in order.
    pub fn get_keys(&self) -> (r: Vec<String>)
        ensures
            r.deep_view() == self.paths(),
    {
        let mut r: Vec<String> = Vec::new();
        let mut i: usize = 0;
        while i < self.files.len()
            invariant
                0 <= i <= self.files.len(),
                r.deep_view() =~~= self.paths().take(i as int),
            decreases self.files.len() - i,
        {
            let ghost prev = r.deep_view();
            let item = self.files[i].0.clone();
            r.push(item);
            proof {
                assert(r@.len() == prev.len() + 1);
                assert(r@.last()@ == self.entries()[i as int].0);
                assert(r.deep_view() =~~= prev.push(r@.last()@));
                assert(r.deep_view() =~~= self.paths().take((i + 1) as int));
            }
            i += 1;
        }
        proof {
            assert(r.deep_view() =~~= self.paths());
        }
        r
    }

    /// The status recorded for `key`, if the path is known.
    pub fn get_status(&self, key: &String) -> (r: Option<&FileStatus>)
        requires
            self.wf(),
        ensures
            match r {
                Some(st) => self.contains_path(key@) && *st == self.status_of(key@),
                None => !self.contains_path(key@),
            },
    {
        match self.find_index(key) {
            Some(i) => {
                proof {
                    let k = self.idx_of(key@);
                    assert(0 <= k < self.entries().len() && self.entries()[k].0 == key@);
                    assert(k == i as int);
                }
                Some(&self.files[i].1)
            },
            None => None,
        }
    }

    /// Re-assigns `status` to a path already in the cache. Fails when the
    /// path is unknown, and when the path is currently `Ignored` and the
    /// override is not given.
    pub fn change_status(&mut self, file_path: &String, status: FileStatus, forced: bool) -> (r:
        Result<(), Error>)
        requires
            old(self).wf(),
        ensures
            final(self).wf(),
            r is Ok <==> old(self).contains_path(file_path@) && !(old(self).status_of(file_path@)
                == FileStatus::Ignored && !forced),
            r is Ok ==> final(self).entries() == old(self).entries().update(
                old(self).idx_of(file_path@),
                (file_path@, status),
            ),
            !old(self).contains_path(file_path@) ==> r == Err::<(), Error>(
                Error::FileNotFoundInCache(*file_path),
            ) && *final(self) == *old(self),
            old(self).contains_path(file_path@) && old(self).status_of(file_path@)
                == FileStatus::Ignored && !forced ==> r == Err::<(), Error>(
                Error::TrackIgnoredFile(*file_path),
            ) && *final(self) == *old(self),
    {
        match self.find_index(file_path) {
            Some(i) => {
                proof {
                    let k = self.idx_of(file_path@);
                    assert(0 <= k < self.entries().len() && self.entries()[k].0 == file_path@);
                    assert(k == i as int);
                }
                let current = self.files[i].1;
                if matches!(current, FileStatus::Ignored) && !forced {
                    Err(Error::TrackIgnoredFile(file_path.clone()))
                } else {
                    self.files.set(i, (file_path.clone(), status));
                    proof {
                        assert(self.entries() =~= old(self).entries().update(
                            i as int,
                            (file_path@, status),
                        ));
                    }
                    Ok(())
                }
            },
            None => Err(Error::FileNotFoundInCache(file_path.clone())),
        }
    }

    /// The paths currently marked for inclusion in snapshots, in order.
    pub fn get_tracked_files(&self) -> (r: Vec<String>)
        ensures
            r.deep_view() == self.entries().filter(
                |e: (Seq<char>, FileStatus)| e.1 == FileStatus::Tracking,
            ).map_values(|e: (Seq<char>, FileStatus)| e.0),
    {
        let ghost pred = |e: (Seq<char>, FileStatus)| e.1 == FileStatus::Tracking;
        let mut r: Vec<String> = Vec::new();
        let mut i: usize = 0;
        proof {
            reveal(Seq::filter);
        }
        while i < self.files.len()
            invariant
                0 <= i <= self.files.len(),
                pred == (|e: (Seq<char>, FileStatus)| e.1 == FileStatus::Tracking),
                r.deep_view() =~~= self.entries().take(i as int).filter(pred).map_values(
                    |e: (Seq<char>, FileStatus)| e.0,
                ),
            decreases self.files.len() - i,
        {
            proof {
                reveal(Seq::filter);
                assert(self.entries().take(i + 1 as int).drop_last() =~= self.entries().take(
                    i as int,
                ));
                assert(self.entries().take(i + 1 as int).last() == self.entries()[i as int]);
            }
            let ghost prev = r.deep_view();
            if matches!(self.files[i].1, FileStatus::Tracking) {
                let item = self.files[i].0.clone();
                r.push(item);
                proof {
                    assert(r@.last()@ == self.entries()[i as int].0);
                    assert(r.deep_view() =~~= prev.push(r@.last()@));
                }
            }
            proof {
                reveal(Seq::filter);
                assert(r.deep_view() =~~= self.entries().take((i + 1) as int).filter(
                    pred,
                ).map_values(|e: (Seq<char>, FileStatus)| e.0));
            }
            i += 1;
        }
        proof {
            assert(self.entries().take(self.entries().len() as int) =~= self.entries());
            assert(r.deep_view() =~~= self.entries().filter(pred).map_values(
                |e: (Seq<char>, FileStatus)| e.0,
            ));
        }
        r
    }

    /// Whether `file_path` is known and currently marked `Tracking`.
    pub fn has_tracked_file(&self, file_path: &String) -> (r: bool)
        requires
            self.wf(),
        ensures
            r == (self.contains_path(file_path@) && self.status_of(file_path@)
                == FileStatus::Tracking),
    {
        match self.get_status(file_path) {
            Some(st) => matches!(*st, FileStatus::Tracking),
            None => false,
        }
    }
}

/// Data about one snapshot: its generated name, who took it, and when
/// (whole seconds since the Unix epoch).
#[derive(Debug)]
pub struct Snapshot {
    pub name: String,
    pub author: String,
    pub author_email: String,
    pub created: u64,
}

/// The outcome of looking a snapshot up by name.
pub enum SearchResults {
    /// A snapshot with exactly the requested name.
    FoundExact(Snapshot),
    /// No exact match; these snapshots' names contain the query.
    FoundSimilar(Vec<Snapshot>),
    NotFound,
}

/// The ordered snapshot history, newest first.
pub struct Snapshots {
    list: Vec<Snapshot>,
}

impl View for Snapshots {
    type V = Seq<Snapshot>;

    closed spec fn view(&self) -> Seq<Snapshot> {
        self.list@
    }
}

impl Snapshots {
    /// An empty history.
    pub fn new() -> (r: Snapshots)
        ensures
            r@ == Seq::<Snapshot>::empty(),
    {
        let r = Snapshots { list: Vec::new() };
        proof {
            assert(r@ =~= Seq::<Snapshot>::empty());
        }
        r
    }

    /// Rebuilds a history from its stored snapshots, newest first.
    pub fn from_list(list: Vec<Snapshot>) -> (r: Snapshots)
        ensures
            r@ == list@,
    {
        Snapshots { list }
    }

    /// Every snapshot, newest first.
    pub fn all(&self) -> (r: &Vec<Snapshot>)
        ensures
            r@ == self@,
    {
        &self.list
    }

    /// Appends a snapshot stamped with the current time and the user's
    /// identity at the front of the history.
    pub fn new_snap(&mut self, name: &String, user: &User)
        ensures
            final(self)@.len() == old(self)@.len() + 1,
            final(self)@.skip(1) == old(self)@,
            final(self)@[0].name@ == name@,
            final(self)@[0].author@ == user.spec_name(),
            final(self)@[0].author_email@ == user.spec_email(),
    {
        let snap = Snapshot::new(name, user);
        self.list.insert(0, snap);
        proof {
            assert(final(self)@.skip(1) =~= old(self)@);
        }
    }

    /// The most recent snapshot, or the distinguished error when none
    /// exists yet.
    pub fn get_last(&self) -> (r: Result<&Snapshot, Error>)
        ensures
            match r {
                Ok(s) => self@.len() > 0 && *s == self@[0],
                Err(e) => self@.len() == 0 && e == Error::PreviewWithoutSnapshots,
            },
    {
        if self.list.len() > 0 {
            Ok(&self.list[0])
        } else {
            Err(Error::PreviewWithoutSnapshots)
        }
    }

    /// Looks a snapshot up by name: an exact match wins; otherwise every
    /// snapshot whose name contains the query is offered; otherwise nothing.
    pub fn find(&self, name: String) -> (r: SearchResults)
        ensures
            match r {
                SearchResults::FoundExact(s) => exists|i: int|
                    0 <= i < self@.len() && (#[trigger] self@[i]).name@ == name@ && s == self@[i]
                        && (forall|j: int| 0 <= j < i ==> (#[trigger] self@[j]).name@ != name@),
                SearchResults::FoundSimilar(v) => (forall|i: int|
                    0 <= i < self@.len() ==> (#[trigger] self@[i]).name@ != name@) && v@
                    == self@.filter(|s: Snapshot| contains_seq(s.name@, name@)) && v@.len() > 0,
                SearchResults::NotFound => (forall|i: int|
                    0 <= i < self@.len() ==> (#[trigger] self@[i]).name@ != name@) && (forall|
                    i: int,
                |
                    0 <= i < self@.len() ==> !contains_seq((#[trigger] self@[i]).name@, name@)),
            },
    {
        let mut i: usize = 0;
        while i < self.list.len()
            invariant
                0 <= i <= self.list.len(),
                forall|j: int| 0 <= j < i ==> (#[trigger] self@[j]).name@ != name@,
            decreases self.list.len() - i,
        {
            if self.list[i].name == name {
                let found = self.list[i].duplicate();
                proof {
                    let wi = i as int;
                    assert(0 <= wi < self@.len() && self@[wi].name@ == name@ && found == self@[wi]
                        && (forall|j: int| 0 <= j < wi ==> (#[trigger] self@[j]).name@ != name@));
                }
                return SearchResults::FoundExact(found);
            }
            i += 1;
        }
        let ghost pred = |s: Snapshot| contains_seq(s.name@, name@);
        let mut similar: Vec<Snapshot> = Vec::new();
        let mut k: usize = 0;
        proof {
            reveal(Seq::filter);
        }
        while k < self.list.len()
            invariant
                0 <= k <= self.list.len(),
                forall|j: int| 0 <= j < self@.len() ==> (#[trigger] self@[j]).name@ != name@,
                similar@ =~= self@.take(k as int).filter(pred),
                pred == (|s: Snapshot| contains_seq(s.name@, name@)),
            decreases self.list.len() - k,
        {
            proof {
                reveal(Seq::filter);
                assert(self@.take(k + 1 as int).drop_last() =~= self@.take(k as int));
                assert(self@.take(k + 1 as int).last() == self@[k as int]);
            }
            if str_contains(self.list[k].name.as_str(), name.as_str()) {
                similar.push(self.list[k].duplicate());
            }
            proof {
                reveal(Seq::filter);
                assert(similar@ =~= self@.take((k + 1) as int).filter(pred));
            }
            k += 1;
        }
        proof {
            assert(self@.take(self@.len() as int) =~= self@);
        }
        if similar.len() > 0 {
            SearchResults::FoundSimilar(similar)
        } else {
            proof {
                assert forall|j: int| 0 <= j < self@.len() implies !contains_seq(
                    (#[trigger] self@[j]).name@,
                    name@,
                ) by {
                    if contains_seq(self@[j].name@, name@) {
                        assert(self@.filter(pred).contains(self@[j])) by {
                            self@.lemma_filter_contains(pred, j);
                        }
                    }
                }
            }
            SearchResults::NotFound
        }
    }
}

impl Snapshot {
    /// Builds a snapshot for `name`, stamped with the user's identity and
    /// the clock's current reading.
    fn new(name: &String, user: &User) -> (r: Snapshot)
        ensures
            r.name@ == name@,
            r.author@ == user.spec_name(),
            r.author_email@ == user.spec_email(),
    {
        Snapshot {
            name: name.clone(),
            author: user.name().clone(),
            author_email: user.email().clone(),
            created: now_unix_secs(),
        }
    }

    /// A field-for-field copy.
    pub(crate) fn duplicate(&self) -> (r: Snapshot)
        ensures
            r == *self,
    {
        Snapshot {
            name: self.name.clone(),
            author: self.author.clone(),
            author_email: self.author_email.clone(),
            created: self.created,
        }
    }
}

/// History ordering: after appending a snapshot named `a` and then one
/// named `b` (the shapes `new_snap` leaves behind), the most recent
/// snapshot bears `b`, and a lookup of `a` still finds an exact match —
/// which is why `find` then answers `FoundExact`.
pub proof fn lemma_history_ordering(
    before: Seq<Snapshot>,
    with_a: Seq<Snapshot>,
    with_b: Seq<Snapshot>,
    a: Seq<char>,
    b: Seq<char>,
)
    requires
        with_a.len() == before.len() + 1,
        with_a.skip(1) == before,
        with_a[0].name@ == a,
        with_b.len() == with_a.len() + 1,
        with_b.skip(1) == with_a,
        with_b[0].name@ == b,
    ensures
        with_b.len() > 0,
        with_b[0].name@ == b,
        exists|i: int| 0 <= i < with_b.len() && (#[trigger] with_b[i]).name@ == a,
{
    assert(with_b[1] == with_b.skip(1)[0]);
    assert(with_b[1].name@ == a);
}

/// The registered user: the author stamped on snapshots, and the holder of
/// an optional global ignore file.
pub struct User {
    name: String,
    email: String,
    kignore: Option<String>,
}

/// An upper- or lower-case letter.
pub open spec fn is_alpha_char(c: char) -> bool {
    ('A' <= c && c <= 'Z') || ('a' <= c && c <= 'z')
}

/// A character the local part of an address may hold.
pub open spec fn is_local_char(c: char) -> bool {
    is_alpha_char(c) || ('0' <= c && c <= '9') || c == '.' || c == '_' || c == '%' || c == '+'
        || c == '-'
}

/// A character the domain part of an address may hold.
pub open spec fn is_domain_char(c: char) -> bool {
    is_alpha_char(c) || ('0' <= c && c <= '9') || c == '.' || c == '-'
}

/// A well-formed email address: a nonempty local part, `@`, a nonempty
/// domain, a dot, and a final part of at least two letters.
pub open spec fn valid_email(s: Seq<char>) -> bool {
    exists|at: int, dot: int|
        {
            &&& 1 <= at
            &&& at + 2 <= dot
            &&& dot + 3 <= s.len()
            &&& s[at] == '@'
            &&& s[dot] == '.'
            &&& (forall|j: int| 0 <= j < at ==> is_local_char(#[trigger] s[j]))
            &&& (forall|j: int| at < j < dot ==> is_domain_char(#[trigger] s[j]))
            &&& (forall|j: int| dot < j < s.len() ==> is_alpha_char(#[trigger] s[j]))
        }
}

/// Whether `email` is a well-formed address.
///
/// Relies on `regex::Regex::is_match` with the anchored pattern
/// `^[A-Za-z0-9._%+-]+@[A-Za-z0-9.-]+\.[A-Za-z]{2,}$`, whose language is
/// exactly `valid_email` (the existential split names the `@` and the last
/// dot of a successful match).
#[verifier::external_body]
fn email_matches(email: &str) -> (r: bool)
    ensures
        r == valid_email(email@),
{
    match regex::Regex::new(r"^[A-Za-z0-9._%+-]+@[A-Za-z0-9.-]+\.[A-Za-z]{2,}$") {
        Ok(re) => re.is_match(email),
        Err(_) => false,
    }
}

impl User {
    /// Registers a user, validating the email address.
    pub fn new(name: &String, email: &String) -> (r: Result<Self, Error>)
        ensures
            r is Ok <==> valid_email(email@),
            r matches Ok(u) ==> u.spec_name() == name@ && u.spec_email() == email@
                && u.spec_kignore() is None,
            r is Err ==> r == Err::<User, Error>(Error::InvalidEmail),
    {
        if !email_matches(email.as_str()) {
            return Err(Error::InvalidEmail);
        }
        Ok(User { name: name.clone(), email: email.clone(), kignore: None })
    }

    /// The user's name.
    pub closed spec fn spec_name(&self) -> Seq<char> {
        self.name@
    }

    /// The user's email address.
    pub closed spec fn spec_email(&self) -> Seq<char> {
        self.email@
    }

    /// The user's global ignore file, if any.
    pub closed spec fn spec_kignore(&self) -> Option<Seq<char>> {
        match self.kignore {
            Some(p) => Some(p@),
            None => None,
        }
    }

    pub fn name(&self) -> (r: &String)
        ensures
            r@ == self.spec_name(),
    {
        &self.name
    }

    pub fn email(&self) -> (r: &String)
        ensures
            r@ == self.spec_email(),
    {
        &self.email
    }

    pub fn kignore(&self) -> (r: &Option<String>)
        ensures
            match r {
                Some(p) => self.spec_kignore() == Some(p@),
                None => self.spec_kignore() is None,
            },
    {
        &self.kignore
    }
}

} // verus!
