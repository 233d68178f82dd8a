//! Snapshot naming and the path arithmetic of materializing a snapshot:
//! where a tracked file lands inside a snapshot directory, and which parent
//! directory has to exist first. The copying itself is filesystem work that
//! stays outside this library.

use vstd::prelude::*;

verus! {

use crate::clock::now_unix_secs;
use crate::text::{dec_chars, joined, u64_to_dec_string};
use vstd::string::StringExecFns;

/// The name a snapshot taken at second `t` gets: the acting user's name and
/// the second-resolution timestamp.
///
/// Two snapshots by the same user within the same clock second collide in
/// name and therefore in storage directory: a known limitation of this
/// second-resolution naming scheme.
pub open spec fn snap_name_chars(t: nat) -> Seq<char> {
    ("testuser_")@ + dec_chars(t)
}

/// The snapshot name for the given clock reading.
pub fn gen_name_at(secs: u64) -> (r: String)
    ensures
        r@ == snap_name_chars(secs as nat),
{
    let mut r = String::from_str("testuser_");
    let rendered = u64_to_dec_string(secs);
    r.append(rendered.as_str());
    r
}

/// The name for a snapshot taken now.
pub fn gen_name() -> (r: String)
    ensures
        exists|t: nat| r@ == snap_name_chars(t),
{
    let secs = now_unix_secs();
    let r = gen_name_at(secs);
    proof {
        assert(r@ == snap_name_chars(secs as nat));
    }
    r
}

/// Where `file_name` lands inside `snap_dir`: the same relative path,
/// mirrored under the snapshot directory.
pub fn snapshot_destination(file_name: &str, snap_dir: &str) -> (r: String)
    ensures
        r@ == joined(snap_dir@, file_name@),
{
    crate::text::join_path(snap_dir, file_name)
}

/// The parent directory of `file_name`: the text before its last
/// separator, or nothing when the name has none.
pub fn parent_of(file_name: &str) -> (r: Option<String>)
    ensures
        match r {
            Some(p) => exists|i: int|
                0 <= i < file_name@.len() && file_name@[i] == '/' && p@ == file_name@.subrange(
                    0,
                    i,
                ) && (forall|j: int| i < j < file_name@.len() ==> file_name@[j] != '/'),
            None => forall|j: int| 0 <= j < file_name@.len() ==> file_name@[j] != '/',
        },
{
    match crate::text::last_separator(file_name) {
        Some(i) => {
            let p = file_name.substring_char(0, i);
            proof {
                let wi = i as int;
                assert(0 <= wi < file_name@.len() && file_name@[wi] == '/' && p@
                    == file_name@.subrange(0, wi) && (forall|j: int|
                    wi < j < file_name@.len() ==> file_name@[j] != '/'));
            }
            Some(p.to_owned())
        },
        None => None,
    }
}

} // verus!
