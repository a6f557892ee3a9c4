use vstd::prelude::*;

use crate::path::FsPath;

verus! {

/// What kind of entry a creation event reports.
#[derive(Clone, Copy, Debug, PartialEq, Eq, Structural)]
pub enum CreateKind {
    Any,
    File,
    Folder,
    Other,
}

/// Which side of a rename an event reports.
#[derive(Clone, Copy, Debug, PartialEq, Eq, Structural)]
pub enum RenameMode {
    Any,
    /// The path is the new name.
    To,
    /// The path is the old name.
    From,
    /// The event carries both names.
    Both,
    Other,
}

/// What a modification event changed.
#[derive(Clone, Copy, Debug, PartialEq, Eq, Structural)]
pub enum ModifyKind {
    Any,
    /// The contents changed.
    Data,
    /// Only the metadata changed.
    Metadata,
    /// The name changed.
    Name(RenameMode),
    Other,
}

/// What kind of entry a removal event reports.
#[derive(Clone, Copy, Debug, PartialEq, Eq, Structural)]
pub enum RemoveKind {
    Any,
    File,
    Folder,
    Other,
}

/// The kind of one change notification.
#[derive(Clone, Copy, Debug, PartialEq, Eq, Structural)]
pub enum EventKind {
    Any,
    Access,
    Create(CreateKind),
    Modify(ModifyKind),
    Remove(RemoveKind),
    Other,
}

/// One change notification: its kind and the paths it concerns, of which
/// only the first is acted on.
#[derive(Clone, Debug)]
pub struct RawEvent {
    pub kind: EventKind,
    pub paths: Vec<FsPath>,
}

/// What a strategy decides to do about one event.
#[derive(Clone, Copy, Debug, PartialEq, Eq, Structural)]
pub enum Step {
    /// Nothing.
    Ignore,
    /// Copy the changed file to its destination counterpart.
    Copy,
    /// Link the destination counterpart to the changed file.
    Link,
    /// Delete the destination counterpart.
    Delete,
}

} // verus!
