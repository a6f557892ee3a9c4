use vstd::prelude::*;

verus! {

/// What can go wrong while turning one change event into filesystem work.
#[derive(Clone, Copy, Debug, PartialEq, Eq, Structural)]
pub enum MirrorError {
    /// The changed path does not lie under the watch's source root.
    PathOutsideRoot,
    /// The destination path has no parent directory.
    PathResolution,
    /// The destination path to delete is neither a file, a directory nor a link.
    NotFound,
}

/// Why a watch could not be started or stopped.
#[derive(Clone, Copy, Debug, PartialEq, Eq, Structural)]
pub enum WatchError {
    /// A watch with this id is already running.
    AlreadyWatching,
    /// No watch with this id is running.
    NotWatching,
    /// The source root does not exist.
    SourceNotFound,
    /// The destination root does not exist.
    DestinationNotFound,
}

} // verus!
