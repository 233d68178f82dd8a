//! A minimal local version-control core: a file-status cache kept in sync
//! with the working tree, an append-only snapshot history, and a line-level
//! diff renderer.

mod clock;
pub mod errors;
pub mod ignore;
pub mod locate;
pub mod metafiles;
pub mod output;
pub mod preview;
pub mod reconcile;
pub mod snapshot;
pub mod text;

use vstd::prelude::*;

verus! {

/// The three mutually exclusive states a file in the repository can be in.
#[derive(Debug, Clone, Copy, PartialEq, Eq, Structural)]
pub enum FileStatus {
    /// Not included in snapshots or previews.
    Ignored,
    /// Not included in snapshots, but shown in previews and eligible for tracking.
    Untracked,
    /// Included in snapshots; changes are tracked and shown during previews.
    Tracking,
}

} // verus!
