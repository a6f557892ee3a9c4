use vstd::prelude::*;

pub mod error;
pub mod event;
pub mod file_processor;
pub mod file_processor_copy;
pub mod file_processor_link;
pub mod path;
pub mod registry;

verus! {

/// How a watch mirrors its source tree into its destination tree.
#[derive(Clone, Copy, Debug, PartialEq, Eq, Structural)]
pub enum CopyType {
    /// Copy the bytes of each changed file.
    Copy,
    /// Create a symbolic link to each changed file.
    Link,
}

/// How many events may wait for a watch's consumer before new ones are
/// dropped.
pub const EVENT_QUEUE_CAPACITY: usize = 200;

} // verus!
