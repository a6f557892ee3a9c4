use vstd::prelude::*;

use crate::error::MirrorError;
use crate::event::{CreateKind, EventKind, ModifyKind, RawEvent, RemoveKind, RenameMode, Step};
use crate::file_processor_copy::{copy, CopyProcessor};
use crate::file_processor_link::{create_link, LinkProcessor};
use crate::path::{destination_of, destination_spec, has_parent, is_under, parent_spec, FsPath};
use crate::CopyType;

verus! {

/// A mirroring strategy: which step each kind of event calls for.
pub trait FileProcessor {
    spec fn create_step(kind: CreateKind, source_is_file: bool) -> Step;

    spec fn modify_step(kind: ModifyKind) -> Step;

    spec fn remove_step(kind: RemoveKind) -> Step;

    /// The step for a creation; `source_is_file` tells whether the created
    /// path is now a file.
    fn deal_create(kind: CreateKind, source_is_file: bool) -> (r: Step)
        ensures
            r == Self::create_step(kind, source_is_file),
    ;

    fn deal_modify(kind: ModifyKind) -> (r: Step)
        ensures
            r == Self::modify_step(kind),
    ;

    fn deal_remove(kind: RemoveKind) -> (r: Step)
        ensures
            r == Self::remove_step(kind),
    ;
}

/// What stands at a destination path, tested in this order: a symbolic link
/// (with its target, where it could be read), a file, a directory, nothing.
#[derive(Clone, Debug, PartialEq, Eq)]
pub enum TargetState {
    Symlink(Option<FsPath>),
    File,
    Directory,
    Absent,
}

/// What the filesystem showed when an event was taken up: the changed
/// source path, and the destination counterpart with its parent directory.
#[derive(Clone, Debug)]
pub struct Observation {
    pub source_is_file: bool,
    pub source_is_dir: bool,
    pub parent_exists: bool,
    pub target: TargetState,
}

/// One filesystem operation, to be performed in order with the others of
/// its plan; the first that fails ends the plan.
#[derive(Clone, Debug, PartialEq, Eq)]
pub enum FsOp {
    /// Create a directory and any missing parents.
    CreateDirAll(FsPath),
    /// Copy a file's bytes (from, to), overwriting the destination.
    CopyFile(FsPath, FsPath),
    /// Remove a file or a symbolic link.
    RemoveFile(FsPath),
    /// Remove a directory with everything in it.
    RemoveDirAll(FsPath),
    /// Create a symbolic link (what it points at, where it stands).
    Symlink(FsPath, FsPath),
}

/// The mathematical value of an `FsOp`.
pub enum Op {
    CreateDirAll(Seq<Seq<char>>),
    CopyFile(Seq<Seq<char>>, Seq<Seq<char>>),
    RemoveFile(Seq<Seq<char>>),
    RemoveDirAll(Seq<Seq<char>>),
    Symlink(Seq<Seq<char>>, Seq<Seq<char>>),
}

impl View for FsOp {
    type V = Op;

    open spec fn view(&self) -> Op {
        match self {
            FsOp::CreateDirAll(p) => Op::CreateDirAll(p@),
            FsOp::CopyFile(a, b) => Op::CopyFile(a@, b@),
            FsOp::RemoveFile(p) => Op::RemoveFile(p@),
            FsOp::RemoveDirAll(p) => Op::RemoveDirAll(p@),
            FsOp::Symlink(a, b) => Op::Symlink(a@, b@),
        }
    }
}

pub open spec fn ops_view(v: Seq<FsOp>) -> Seq<Op> {
    v.map_values(|o: FsOp| o@)
}

pub open spec fn plan_view(r: Result<Vec<FsOp>, MirrorError>) -> Result<Seq<Op>, MirrorError> {
    match r {
        Ok(v) => Ok(ops_view(v@)),
        Err(e) => Err(e),
    }
}

/// What must happen before anything is written at `target`: its parent
/// directory is created where it is missing.
pub open spec fn prepare_spec(target: Seq<Seq<char>>, parent_exists: bool) -> Seq<Op> {
    if parent_exists {
        Seq::empty()
    } else {
        seq![Op::CreateDirAll(parent_spec(target))]
    }
}

/// The operation that deletes what stands at `target`.
pub open spec fn delete_spec(target: Seq<Seq<char>>, state: TargetState) -> Result<Op, MirrorError> {
    match state {
        TargetState::Symlink(_) | TargetState::File => Ok(Op::RemoveFile(target)),
        TargetState::Directory => Ok(Op::RemoveDirAll(target)),
        TargetState::Absent => Err(MirrorError::NotFound),
    }
}

/// The plan that deletes the destination counterpart of `path`.
pub open spec fn remove_plan(
    path: Seq<Seq<char>>,
    from: Seq<Seq<char>>,
    to: Seq<Seq<char>>,
    state: TargetState,
) -> Result<Seq<Op>, MirrorError> {
    if !is_under(path, from) {
        Err(MirrorError::PathOutsideRoot)
    } else {
        match delete_spec(destination_spec(path, from, to), state) {
            Ok(op) => Ok(seq![op]),
            Err(e) => Err(e),
        }
    }
}

/// The step that `copy_type` takes for an event of kind `kind`.
pub open spec fn step_of(copy_type: CopyType, kind: EventKind, source_is_file: bool) -> Step {
    match kind {
        EventKind::Create(k) => match copy_type {
            CopyType::Copy => CopyProcessor::create_step(k, source_is_file),
            CopyType::Link => LinkProcessor::create_step(k, source_is_file),
        },
        EventKind::Modify(k) => match copy_type {
            CopyType::Copy => CopyProcessor::modify_step(k),
            CopyType::Link => LinkProcessor::modify_step(k),
        },
        EventKind::Remove(k) => match copy_type {
            CopyType::Copy => CopyProcessor::remove_step(k),
            CopyType::Link => LinkProcessor::remove_step(k),
        },
        _ => Step::Ignore,
    }
}

/// The operations that mirror one event whose first path is `path`.
pub open spec fn plan_spec(
    copy_type: CopyType,
    kind: EventKind,
    path: Seq<Seq<char>>,
    from: Seq<Seq<char>>,
    to: Seq<Seq<char>>,
    obs: Observation,
) -> Result<Seq<Op>, MirrorError> {
    match step_of(copy_type, kind, obs.source_is_file) {
        Step::Ignore => Ok(Seq::empty()),
        Step::Copy => crate::file_processor_copy::copy_plan(path, from, to, obs.parent_exists),
        Step::Link => crate::file_processor_link::link_plan(path, from, to, obs),
        Step::Delete => remove_plan(path, from, to, obs.target),
    }
}

/// The operations that mirror `event`: none for an event without a path.
pub open spec fn event_plan(
    copy_type: CopyType,
    event: RawEvent,
    from: Seq<Seq<char>>,
    to: Seq<Seq<char>>,
    obs: Observation,
) -> Result<Seq<Op>, MirrorError> {
    if event.paths@.len() == 0 {
        Ok(Seq::empty())
    } else {
        plan_spec(copy_type, event.kind, event.paths@[0]@, from, to, obs)
    }
}

/// The operation that deletes what stands at `target`: `NotFound` where
/// nothing does.
pub fn delete(target: &FsPath, state: &TargetState) -> (r: Result<FsOp, MirrorError>)
    ensures
        match r {
            Ok(op) => delete_spec(target@, *state) == Ok::<Op, MirrorError>(op@),
            Err(e) => delete_spec(target@, *state) == Err::<Op, MirrorError>(e),
        },
{
    match state {
        TargetState::Symlink(_) => Ok(FsOp::RemoveFile(target.duplicate())),
        TargetState::File => Ok(FsOp::RemoveFile(target.duplicate())),
        TargetState::Directory => Ok(FsOp::RemoveDirAll(target.duplicate())),
        TargetState::Absent => Err(MirrorError::NotFound),
    }
}

/// The operations that make sure the parent of `target` exists:
/// `PathResolution` where it has none.
pub fn prepare(target: &FsPath, parent_exists: bool) -> (r: Result<Vec<FsOp>, MirrorError>)
    ensures
        r is Ok <==> has_parent(target@),
        r is Ok ==> ops_view(r->Ok_0@) == prepare_spec(target@, parent_exists),
        r is Err ==> r->Err_0 == MirrorError::PathResolution,
{
    let parent = target.parent()?;
    let mut ops: Vec<FsOp> = Vec::new();
    if !parent_exists {
        ops.push(FsOp::CreateDirAll(parent));
    }
    assert(ops_view(ops@) =~= prepare_spec(target@, parent_exists));
    Ok(ops)
}

/// The plan that deletes the destination counterpart of `path`.
pub fn remove_counterpart(path: &FsPath, from: &FsPath, to: &FsPath, state: &TargetState) -> (r:
    Result<Vec<FsOp>, MirrorError>)
    ensures
        plan_view(r) == remove_plan(path@, from@, to@, *state),
{
    let target = destination_of(path, from, to)?;
    let op = delete(&target, state)?;
    let ops = vec![op];
    assert(ops_view(ops@) =~= seq![op@]);
    Ok(ops)
}

/// The operations that mirror `event` under `copy_type`, for a watch from
/// `from` to `to`, given what the filesystem showed.
pub fn process(
    copy_type: CopyType,
    event: &RawEvent,
    from: &FsPath,
    to: &FsPath,
    obs: &Observation,
) -> (r: Result<Vec<FsOp>, MirrorError>)
    ensures
        plan_view(r) == event_plan(copy_type, *event, from@, to@, *obs),
{
    if event.paths.len() == 0 {
        let none: Vec<FsOp> = Vec::new();
        assert(ops_view(none@) =~= Seq::empty());
        return Ok(none);
    }
    let path = &event.paths[0];
    let step = match event.kind {
        EventKind::Create(k) => match copy_type {
            CopyType::Copy => CopyProcessor::deal_create(k, obs.source_is_file),
            CopyType::Link => LinkProcessor::deal_create(k, obs.source_is_file),
        },
        EventKind::Modify(k) => match copy_type {
            CopyType::Copy => CopyProcessor::deal_modify(k),
            CopyType::Link => LinkProcessor::deal_modify(k),
        },
        EventKind::Remove(k) => match copy_type {
            CopyType::Copy => CopyProcessor::deal_remove(k),
            CopyType::Link => LinkProcessor::deal_remove(k),
        },
        _ => Step::Ignore,
    };
    match step {
        Step::Ignore => {
            let none: Vec<FsOp> = Vec::new();
            assert(ops_view(none@) =~= Seq::empty());
            Ok(none)
        },
        Step::Copy => copy(path, from, to, obs.parent_exists),
        Step::Link => create_link(path, from, to, obs),
        Step::Delete => remove_counterpart(path, from, to, &obs.target),
    }
}

} // verus!

verus! {

/// Whether `obs` shows a link at the destination that already points at `path`.
pub open spec fn link_in_place(obs: Observation, path: Seq<Seq<char>>) -> bool {
    match obs.target {
        TargetState::Symlink(Some(old)) => old@ == path,
        _ => false,
    }
}

/// Under the link strategy, a file-creation event delivered twice creates one
/// link: the first delivery plans exactly one link creation, as its last
/// operation, and a delivery that finds the link in place plans nothing.
pub proof fn lemma_link_idempotent(
    path: Seq<Seq<char>>,
    from: Seq<Seq<char>>,
    to: Seq<Seq<char>>,
    first: Observation,
    again: Observation,
)
    requires
        is_under(path, from),
        has_parent(destination_spec(path, from, to)),
        !first.source_is_dir,
        !again.source_is_dir,
        again.parent_exists,
        link_in_place(again, path),
    ensures
        ({
            let kind = EventKind::Create(CreateKind::File);
            let target = destination_spec(path, from, to);
            &&& plan_spec(CopyType::Link, kind, path, from, to, first) matches Ok(ops) && (
            link_in_place(first, path) || (ops.len() > 0 && ops.last() == Op::Symlink(path, target)
                && forall|i: int| 0 <= i < ops.len() - 1 ==> !(ops[i] is Symlink)))
            &&& plan_spec(CopyType::Link, kind, path, from, to, again) == Ok::<Seq<Op>, MirrorError>(
                Seq::empty(),
            )
        }),
{
    let target = destination_spec(path, from, to);
    assert(prepare_spec(target, true) + Seq::<Op>::empty() =~= Seq::<Op>::empty());
}

/// Under the copy strategy, an event that calls for a copy of a file below
/// the source root, whose destination counterpart has a parent, plans, as its last operation, a copy of that file to the
/// destination root joined with the file's path below the source root.
pub proof fn lemma_copy_round_trip(
    kind: EventKind,
    path: Seq<Seq<char>>,
    from: Seq<Seq<char>>,
    to: Seq<Seq<char>>,
    obs: Observation,
)
    requires
        step_of(CopyType::Copy, kind, obs.source_is_file) == Step::Copy,
        is_under(path, from),
        has_parent(destination_spec(path, from, to)),
    ensures
        plan_spec(CopyType::Copy, kind, path, from, to, obs) matches Ok(ops) && ops.len() > 0
            && ops.last() == Op::CopyFile(path, to + path.subrange(from.len() as int, path.len() as int))
            && forall|i: int| 0 <= i < ops.len() - 1 ==> ops[i] is CreateDirAll,
{
}

/// A rename seen as its two halves, the old name leaving and the new name
/// arriving, first deletes the old destination counterpart and then mirrors
/// the new one: a copy, or a link unless the right link is already there,
/// wherever the new destination counterpart has a parent.
pub proof fn lemma_rename(
    copy_type: CopyType,
    old_path: Seq<Seq<char>>,
    new_path: Seq<Seq<char>>,
    from: Seq<Seq<char>>,
    to: Seq<Seq<char>>,
    leaving: Observation,
    arriving: Observation,
)
    requires
        is_under(old_path, from),
        is_under(new_path, from),
        has_parent(destination_spec(new_path, from, to)),
        !(leaving.target is Absent),
        !arriving.source_is_dir,
    ensures
        ({
            let old_target = destination_spec(old_path, from, to);
            let new_target = destination_spec(new_path, from, to);
            &&& plan_spec(
                copy_type,
                EventKind::Modify(ModifyKind::Name(RenameMode::From)),
                old_path,
                from,
                to,
                leaving,
            ) matches Ok(ops) && ops.len() == 1 && (ops[0] == Op::RemoveFile(old_target) || ops[0]
                == Op::RemoveDirAll(old_target))
            &&& plan_spec(
                copy_type,
                EventKind::Modify(ModifyKind::Name(RenameMode::To)),
                new_path,
                from,
                to,
                arriving,
            ) matches Ok(ops) && match copy_type {
                CopyType::Copy => ops.len() > 0 && ops.last() == Op::CopyFile(new_path, new_target),
                CopyType::Link => link_in_place(arriving, new_path) || (ops.len() > 0 && ops.last()
                    == Op::Symlink(new_path, new_target)),
            }
        }),
{
}

/// Deleting a destination counterpart where nothing stands fails with
/// `NotFound`.
pub proof fn lemma_delete_absent(path: Seq<Seq<char>>, from: Seq<Seq<char>>, to: Seq<Seq<char>>)
    requires
        is_under(path, from),
    ensures
        delete_spec(destination_spec(path, from, to), TargetState::Absent) == Err::<Op, MirrorError>(
            MirrorError::NotFound,
        ),
        remove_plan(path, from, to, TargetState::Absent) == Err::<Seq<Op>, MirrorError>(
            MirrorError::NotFound,
        ),
{
}

} // verus!
