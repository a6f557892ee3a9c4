use vstd::prelude::*;

use crate::event::{CreateKind, ModifyKind, RemoveKind, RenameMode, Step};
use crate::error::MirrorError;
use crate::file_processor::{ops_view, plan_view, prepare, prepare_spec, FileProcessor, FsOp, Op};
use crate::path::{destination_of, destination_spec, has_parent, is_under, FsPath};

verus! {

/// The strategy that copies file contents.
pub struct CopyProcessor;

impl FileProcessor for CopyProcessor {
    open spec fn create_step(kind: CreateKind, source_is_file: bool) -> Step {
        match kind {
            CreateKind::File => Step::Copy,
            CreateKind::Any => if source_is_file { Step::Copy } else { Step::Ignore },
            _ => Step::Ignore,
        }
    }

    open spec fn modify_step(kind: ModifyKind) -> Step {
        match kind {
            ModifyKind::Data | ModifyKind::Any | ModifyKind::Name(RenameMode::To) => Step::Copy,
            ModifyKind::Name(RenameMode::From) => Step::Delete,
            _ => Step::Ignore,
        }
    }

    open spec fn remove_step(kind: RemoveKind) -> Step {
        Step::Delete
    }

    fn deal_create(kind: CreateKind, source_is_file: bool) -> (r: Step) {
        match kind {
            CreateKind::File => Step::Copy,
            CreateKind::Folder => Step::Ignore,
            CreateKind::Other => Step::Ignore,
            CreateKind::Any => {
                if source_is_file {
                    Step::Copy
                } else {
                    Step::Ignore
                }
            },
        }
    }

    fn deal_modify(kind: ModifyKind) -> (r: Step) {
        match kind {
            ModifyKind::Data => Step::Copy,
            ModifyKind::Metadata => Step::Ignore,
            ModifyKind::Name(rename) => match rename {
                RenameMode::To => Step::Copy,
                RenameMode::From => Step::Delete,
                _ => Step::Ignore,
            },
            ModifyKind::Other => Step::Ignore,
            ModifyKind::Any => Step::Copy,
        }
    }

    fn deal_remove(kind: RemoveKind) -> (r: Step) {
        Step::Delete
    }
}

} // verus!

verus! {

/// The plan that copies `path` to its destination counterpart.
pub open spec fn copy_plan(
    path: Seq<Seq<char>>,
    from: Seq<Seq<char>>,
    to: Seq<Seq<char>>,
    parent_exists: bool,
) -> Result<Seq<Op>, MirrorError> {
    if !is_under(path, from) {
        Err(MirrorError::PathOutsideRoot)
    } else {
        let target = destination_spec(path, from, to);
        if !has_parent(target) {
            Err(MirrorError::PathResolution)
        } else {
            Ok(prepare_spec(target, parent_exists).push(Op::CopyFile(path, target)))
        }
    }
}

/// The operations that copy `path` to its destination counterpart, creating
/// the parent directory where `parent_exists` says it is missing.
pub fn copy(path: &FsPath, from: &FsPath, to: &FsPath, parent_exists: bool) -> (r: Result<
    Vec<FsOp>,
    MirrorError,
>)
    ensures
        plan_view(r) == copy_plan(path@, from@, to@, parent_exists),
{
    let target = destination_of(path, from, to)?;
    let mut ops = prepare(&target, parent_exists)?;
    let ghost before = ops@;
    ops.push(FsOp::CopyFile(path.duplicate(), target));
    assert(ops_view(ops@) =~= ops_view(before).push(ops@.last()@));
    Ok(ops)
}

} // verus!
