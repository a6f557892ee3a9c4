use vstd::prelude::*;

use crate::event::{CreateKind, ModifyKind, RemoveKind, RenameMode, Step};
use crate::error::MirrorError;
use crate::file_processor::{
    ops_view, plan_view, prepare, prepare_spec, FileProcessor, FsOp, Observation, Op, TargetState,
};
use crate::path::{destination_of, destination_spec, has_parent, is_under, FsPath};

verus! {

/// The strategy that links destination entries to the source files; it
/// routes events as the copy strategy does, with a link in place of a copy.
pub struct LinkProcessor;

impl FileProcessor for LinkProcessor {
    open spec fn create_step(kind: CreateKind, source_is_file: bool) -> Step {
        match kind {
            CreateKind::File | CreateKind::Any => Step::Link,
            _ => Step::Ignore,
        }
    }

    open spec fn modify_step(kind: ModifyKind) -> Step {
        match kind {
            ModifyKind::Data | ModifyKind::Any | ModifyKind::Name(RenameMode::To) => Step::Link,
            ModifyKind::Name(RenameMode::From) => Step::Delete,
            _ => Step::Ignore,
        }
    }

    open spec fn remove_step(kind: RemoveKind) -> Step {
        Step::Delete
    }

    fn deal_create(kind: CreateKind, source_is_file: bool) -> (r: Step) {
        match kind {
            CreateKind::Any | CreateKind::File => Step::Link,
            CreateKind::Folder | CreateKind::Other => Step::Ignore,
        }
    }

    fn deal_modify(kind: ModifyKind) -> (r: Step) {
        match kind {
            ModifyKind::Data => Step::Link,
            ModifyKind::Metadata => Step::Ignore,
            ModifyKind::Name(rename_mode) => match rename_mode {
                RenameMode::To => Step::Link,
                RenameMode::From => Step::Delete,
                _ => Step::Ignore,
            },
            ModifyKind::Other => Step::Ignore,
            ModifyKind::Any => Step::Link,
        }
    }

    fn deal_remove(kind: RemoveKind) -> (r: Step) {
        Step::Delete
    }
}

} // verus!

verus! {

/// What to do at the destination counterpart before the link is made.
pub open spec fn link_tail(
    path: Seq<Seq<char>>,
    target: Seq<Seq<char>>,
    state: TargetState,
) -> Seq<Op> {
    match state {
        TargetState::Symlink(Some(old)) => if old@ == path {
            Seq::empty()
        } else {
            seq![Op::RemoveFile(target), Op::Symlink(path, target)]
        },
        TargetState::Symlink(None) | TargetState::File => seq![
            Op::RemoveFile(target),
            Op::Symlink(path, target),
        ],
        _ => seq![Op::Symlink(path, target)],
    }
}

/// The plan that links the destination counterpart of `path` to `path`:
/// nothing for a directory, nothing more than the parent for a link that
/// already points at `path`, and a stale link or a file is removed first.
pub open spec fn link_plan(
    path: Seq<Seq<char>>,
    from: Seq<Seq<char>>,
    to: Seq<Seq<char>>,
    obs: Observation,
) -> Result<Seq<Op>, MirrorError> {
    if obs.source_is_dir {
        Ok(Seq::empty())
    } else if !is_under(path, from) {
        Err(MirrorError::PathOutsideRoot)
    } else {
        let target = destination_spec(path, from, to);
        if !has_parent(target) {
            Err(MirrorError::PathResolution)
        } else {
            Ok(prepare_spec(target, obs.parent_exists) + link_tail(path, target, obs.target))
        }
    }
}

/// The operations that link the destination counterpart of `path` to it.
pub fn create_link(path: &FsPath, from: &FsPath, to: &FsPath, obs: &Observation) -> (r: Result<
    Vec<FsOp>,
    MirrorError,
>)
    ensures
        plan_view(r) == link_plan(path@, from@, to@, *obs),
{
    if obs.source_is_dir {
        let none: Vec<FsOp> = Vec::new();
        assert(ops_view(none@) =~= Seq::empty());
        return Ok(none);
    }
    let target = destination_of(path, from, to)?;
    let mut ops = prepare(&target, obs.parent_exists)?;
    let ghost before = ops_view(ops@);
    let replace = match &obs.target {
        TargetState::Symlink(Some(old)) => {
            if old.same_as(path) {
                assert(link_tail(path@, target@, obs.target) =~= Seq::<Op>::empty());
                assert(ops_view(ops@) =~= before + Seq::<Op>::empty());
                return Ok(ops);
            }
            true
        },
        TargetState::Symlink(None) => true,
        TargetState::File => true,
        _ => false,
    };
    if replace {
        ops.push(FsOp::RemoveFile(target.duplicate()));
    }
    ops.push(FsOp::Symlink(path.duplicate(), target));
    assert(ops_view(ops@) =~= before + link_tail(path@, target@, obs.target));
    Ok(ops)
}

} // verus!
