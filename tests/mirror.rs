use file_mirror::error::{MirrorError, WatchError};
use file_mirror::event::{CreateKind, EventKind, ModifyKind, RawEvent, RemoveKind, RenameMode, Step};
use file_mirror::file_processor::{
    delete, process, remove_counterpart, FileProcessor, FsOp, Observation, TargetState,
};
use file_mirror::file_processor_copy::{copy, CopyProcessor};
use file_mirror::file_processor_link::{create_link, LinkProcessor};
use file_mirror::path::{destination_of, FsPath};
use file_mirror::registry::WatchRegistry;
use file_mirror::{CopyType, EVENT_QUEUE_CAPACITY};

fn p(s: &str) -> FsPath {
    let mut parts: Vec<String> = Vec::new();
    if s.starts_with('/') {
        parts.push("/".to_string());
    }
    for c in s.split('/').filter(|c| !c.is_empty()) {
        parts.push(c.to_string());
    }
    FsPath::new(parts)
}

fn obs(parent_exists: bool, target: TargetState) -> Observation {
    Observation { source_is_file: true, source_is_dir: false, parent_exists, target }
}

fn event(kind: EventKind, path: &str) -> RawEvent {
    RawEvent { kind, paths: vec![p(path)] }
}

#[test]
fn relative_strips_the_root() {
    assert_eq!(p("/src/a/b.txt").relative(&p("/src")), Ok(p("a/b.txt")));
    assert_eq!(p("/src").relative(&p("/src")), Ok(FsPath::new(Vec::new())));
}

#[test]
fn relative_outside_root_fails() {
    assert_eq!(p("/other/b.txt").relative(&p("/src")), Err(MirrorError::PathOutsideRoot));
    assert_eq!(p("/sr").relative(&p("/src")), Err(MirrorError::PathOutsideRoot));
    assert_eq!(p("/srcx/a").relative(&p("/src")), Err(MirrorError::PathOutsideRoot));
}

#[test]
fn join_and_destination() {
    assert_eq!(p("/dst").join(&p("a/b.txt")), p("/dst/a/b.txt"));
    assert_eq!(destination_of(&p("/src/a/b.txt"), &p("/src"), &p("/dst")), Ok(p("/dst/a/b.txt")));
    assert_eq!(
        destination_of(&p("/elsewhere/b.txt"), &p("/src"), &p("/dst")),
        Err(MirrorError::PathOutsideRoot)
    );
}

#[test]
fn parent_of_paths() {
    assert_eq!(p("/dst/a/b.txt").parent(), Ok(p("/dst/a")));
    assert_eq!(p("/dst").parent(), Ok(p("/")));
    assert_eq!(p("/").parent(), Err(MirrorError::PathResolution));
    assert_eq!(FsPath::new(Vec::new()).parent(), Err(MirrorError::PathResolution));
}

#[test]
fn same_as_compares_components() {
    assert!(p("/a/b").same_as(&p("/a/b")));
    assert!(!p("/a/b").same_as(&p("/a/c")));
    assert!(!p("/a/b").same_as(&p("/a")));
    assert_eq!(p("/a/b").duplicate(), p("/a/b"));
}

#[test]
fn copy_strategy_routes_events() {
    assert_eq!(CopyProcessor::deal_create(CreateKind::File, false), Step::Copy);
    assert_eq!(CopyProcessor::deal_create(CreateKind::Any, true), Step::Copy);
    assert_eq!(CopyProcessor::deal_create(CreateKind::Any, false), Step::Ignore);
    assert_eq!(CopyProcessor::deal_create(CreateKind::Folder, false), Step::Ignore);
    assert_eq!(CopyProcessor::deal_create(CreateKind::Other, true), Step::Ignore);
    assert_eq!(CopyProcessor::deal_modify(ModifyKind::Data), Step::Copy);
    assert_eq!(CopyProcessor::deal_modify(ModifyKind::Any), Step::Copy);
    assert_eq!(CopyProcessor::deal_modify(ModifyKind::Metadata), Step::Ignore);
    assert_eq!(CopyProcessor::deal_modify(ModifyKind::Other), Step::Ignore);
    assert_eq!(CopyProcessor::deal_modify(ModifyKind::Name(RenameMode::To)), Step::Copy);
    assert_eq!(CopyProcessor::deal_modify(ModifyKind::Name(RenameMode::From)), Step::Delete);
    assert_eq!(CopyProcessor::deal_modify(ModifyKind::Name(RenameMode::Both)), Step::Ignore);
    assert_eq!(CopyProcessor::deal_remove(RemoveKind::Any), Step::Delete);
    assert_eq!(CopyProcessor::deal_remove(RemoveKind::Folder), Step::Delete);
}

#[test]
fn link_strategy_routes_events() {
    assert_eq!(LinkProcessor::deal_create(CreateKind::File, true), Step::Link);
    assert_eq!(LinkProcessor::deal_create(CreateKind::Any, false), Step::Link);
    assert_eq!(LinkProcessor::deal_create(CreateKind::Folder, false), Step::Ignore);
    assert_eq!(LinkProcessor::deal_create(CreateKind::Other, true), Step::Ignore);
    assert_eq!(LinkProcessor::deal_modify(ModifyKind::Data), Step::Link);
    assert_eq!(LinkProcessor::deal_modify(ModifyKind::Any), Step::Link);
    assert_eq!(LinkProcessor::deal_modify(ModifyKind::Metadata), Step::Ignore);
    assert_eq!(LinkProcessor::deal_modify(ModifyKind::Other), Step::Ignore);
    assert_eq!(LinkProcessor::deal_modify(ModifyKind::Name(RenameMode::To)), Step::Link);
    assert_eq!(LinkProcessor::deal_modify(ModifyKind::Name(RenameMode::From)), Step::Delete);
    assert_eq!(LinkProcessor::deal_modify(ModifyKind::Name(RenameMode::Any)), Step::Ignore);
    assert_eq!(LinkProcessor::deal_remove(RemoveKind::File), Step::Delete);
}

#[test]
fn delete_by_what_stands_there() {
    let t = p("/dst/x");
    assert_eq!(delete(&t, &TargetState::File), Ok(FsOp::RemoveFile(p("/dst/x"))));
    assert_eq!(delete(&t, &TargetState::Symlink(None)), Ok(FsOp::RemoveFile(p("/dst/x"))));
    assert_eq!(delete(&t, &TargetState::Directory), Ok(FsOp::RemoveDirAll(p("/dst/x"))));
}

#[test]
fn delete_of_nothing_is_not_found() {
    assert_eq!(delete(&p("/dst/missing"), &TargetState::Absent), Err(MirrorError::NotFound));
    assert_eq!(
        remove_counterpart(&p("/src/missing"), &p("/src"), &p("/dst"), &TargetState::Absent),
        Err(MirrorError::NotFound)
    );
}

#[test]
fn copy_creates_missing_parent() {
    assert_eq!(
        copy(&p("/src/a/b.txt"), &p("/src"), &p("/dst"), false),
        Ok(vec![FsOp::CreateDirAll(p("/dst/a")), FsOp::CopyFile(p("/src/a/b.txt"), p("/dst/a/b.txt"))])
    );
    assert_eq!(
        copy(&p("/src/a/b.txt"), &p("/src"), &p("/dst"), true),
        Ok(vec![FsOp::CopyFile(p("/src/a/b.txt"), p("/dst/a/b.txt"))])
    );
}

#[test]
fn copy_without_parent_fails() {
    assert_eq!(copy(&p("/"), &p("/"), &p("/"), true), Err(MirrorError::PathResolution));
    assert_eq!(copy(&p("/x/y"), &p("/src"), &p("/dst"), true), Err(MirrorError::PathOutsideRoot));
}

#[test]
fn link_replaces_stale_entries() {
    let (src, from, to) = (p("/src/y.bin"), p("/src"), p("/dst"));
    let fresh = vec![FsOp::Symlink(p("/src/y.bin"), p("/dst/y.bin"))];
    let replaced = vec![
        FsOp::RemoveFile(p("/dst/y.bin")),
        FsOp::Symlink(p("/src/y.bin"), p("/dst/y.bin")),
    ];
    assert_eq!(create_link(&src, &from, &to, &obs(true, TargetState::Absent)), Ok(fresh));
    assert_eq!(create_link(&src, &from, &to, &obs(true, TargetState::File)), Ok(replaced.clone()));
    assert_eq!(
        create_link(&src, &from, &to, &obs(true, TargetState::Symlink(Some(p("/src/old.bin"))))),
        Ok(replaced.clone())
    );
    assert_eq!(create_link(&src, &from, &to, &obs(true, TargetState::Symlink(None))), Ok(replaced));
}

#[test]
fn link_in_place_is_kept() {
    let (src, from, to) = (p("/src/y.bin"), p("/src"), p("/dst"));
    let here = obs(true, TargetState::Symlink(Some(p("/src/y.bin"))));
    assert_eq!(create_link(&src, &from, &to, &here), Ok(vec![]));
    let no_parent = obs(false, TargetState::Symlink(Some(p("/src/y.bin"))));
    assert_eq!(create_link(&src, &from, &to, &no_parent), Ok(vec![FsOp::CreateDirAll(p("/dst"))]));
}

#[test]
fn link_ignores_directories() {
    let dir = Observation {
        source_is_file: false,
        source_is_dir: true,
        parent_exists: false,
        target: TargetState::Absent,
    };
    assert_eq!(create_link(&p("/elsewhere/d"), &p("/src"), &p("/dst"), &dir), Ok(vec![]));
}

#[test]
fn process_without_path_or_kind_does_nothing() {
    let from = p("/src");
    let to = p("/dst");
    let none = RawEvent { kind: EventKind::Create(CreateKind::File), paths: vec![] };
    assert_eq!(process(CopyType::Copy, &none, &from, &to, &obs(true, TargetState::Absent)), Ok(vec![]));
    let access = event(EventKind::Access, "/src/x.txt");
    assert_eq!(process(CopyType::Copy, &access, &from, &to, &obs(true, TargetState::File)), Ok(vec![]));
    let meta = event(EventKind::Modify(ModifyKind::Metadata), "/src/x.txt");
    assert_eq!(process(CopyType::Copy, &meta, &from, &to, &obs(true, TargetState::File)), Ok(vec![]));
}

#[test]
fn link_strategy_links_modified_file() {
    let e = event(EventKind::Modify(ModifyKind::Data), "/src/m.txt");
    assert_eq!(
        process(CopyType::Link, &e, &p("/src"), &p("/dst"), &obs(true, TargetState::Absent)),
        Ok(vec![FsOp::Symlink(p("/src/m.txt"), p("/dst/m.txt"))])
    );
    let folder = event(EventKind::Create(CreateKind::Folder), "/src/m.txt");
    assert_eq!(
        process(CopyType::Link, &folder, &p("/src"), &p("/dst"), &obs(true, TargetState::Absent)),
        Ok(vec![])
    );
}

#[test]
fn process_outside_root_fails() {
    let e = event(EventKind::Create(CreateKind::File), "/other/x.txt");
    let o = obs(true, TargetState::Absent);
    assert_eq!(process(CopyType::Copy, &e, &p("/src"), &p("/dst"), &o), Err(MirrorError::PathOutsideRoot));
    assert_eq!(process(CopyType::Link, &e, &p("/src"), &p("/dst"), &o), Err(MirrorError::PathOutsideRoot));
}

#[test]
fn process_uses_first_path_only() {
    let e = RawEvent {
        kind: EventKind::Modify(ModifyKind::Data),
        paths: vec![p("/src/a.txt"), p("/src/b.txt")],
    };
    assert_eq!(
        process(CopyType::Copy, &e, &p("/src"), &p("/dst"), &obs(true, TargetState::File)),
        Ok(vec![FsOp::CopyFile(p("/src/a.txt"), p("/dst/a.txt"))])
    );
}

#[test]
fn copy_round_trip_targets_joined_path() {
    let e = event(EventKind::Modify(ModifyKind::Data), "/src/deep/dir/f.txt");
    assert_eq!(
        process(CopyType::Copy, &e, &p("/src"), &p("/dst"), &obs(false, TargetState::Absent)),
        Ok(vec![
            FsOp::CreateDirAll(p("/dst/deep/dir")),
            FsOp::CopyFile(p("/src/deep/dir/f.txt"), p("/dst/deep/dir/f.txt")),
        ])
    );
}

#[test]
fn rename_deletes_then_mirrors() {
    let (from, to) = (p("/src"), p("/dst"));
    let leave = event(EventKind::Modify(ModifyKind::Name(RenameMode::From)), "/src/old.txt");
    let arrive = event(EventKind::Modify(ModifyKind::Name(RenameMode::To)), "/src/new.txt");
    assert_eq!(
        process(CopyType::Copy, &leave, &from, &to, &obs(true, TargetState::File)),
        Ok(vec![FsOp::RemoveFile(p("/dst/old.txt"))])
    );
    assert_eq!(
        process(CopyType::Copy, &arrive, &from, &to, &obs(true, TargetState::Absent)),
        Ok(vec![FsOp::CopyFile(p("/src/new.txt"), p("/dst/new.txt"))])
    );
    assert_eq!(
        process(CopyType::Link, &leave, &from, &to, &obs(true, TargetState::Symlink(None))),
        Ok(vec![FsOp::RemoveFile(p("/dst/old.txt"))])
    );
    assert_eq!(
        process(CopyType::Link, &arrive, &from, &to, &obs(true, TargetState::Absent)),
        Ok(vec![FsOp::Symlink(p("/src/new.txt"), p("/dst/new.txt"))])
    );
}

#[test]
fn removed_directory_is_removed_recursively() {
    let e = event(EventKind::Remove(RemoveKind::Folder), "/src/dir");
    assert_eq!(
        process(CopyType::Link, &e, &p("/src"), &p("/dst"), &obs(true, TargetState::Directory)),
        Ok(vec![FsOp::RemoveDirAll(p("/dst/dir"))])
    );
    let gone = event(EventKind::Remove(RemoveKind::File), "/src/none");
    assert_eq!(
        process(CopyType::Copy, &gone, &p("/src"), &p("/dst"), &obs(true, TargetState::Absent)),
        Err(MirrorError::NotFound)
    );
}

#[test]
fn process_at_root_without_parent_fails() {
    let e = event(EventKind::Create(CreateKind::File), "/");
    assert_eq!(
        process(CopyType::Copy, &e, &p("/"), &p("/"), &obs(true, TargetState::Absent)),
        Err(MirrorError::PathResolution)
    );
}

#[test]
fn copy_scenario_create_then_remove() {
    let mut reg: WatchRegistry<u32> = WatchRegistry::new();
    let id = "a".to_string();
    assert_eq!(reg.check_watch(&id, true, true), Ok(()));
    reg.register(id.clone(), 1);
    let (from, to) = (p("/src"), p("/dst"));
    let created = event(EventKind::Create(CreateKind::File), "/src/x.txt");
    assert_eq!(
        process(CopyType::Copy, &created, &from, &to, &obs(true, TargetState::Absent)),
        Ok(vec![FsOp::CopyFile(p("/src/x.txt"), p("/dst/x.txt"))])
    );
    let removed = event(EventKind::Remove(RemoveKind::File), "/src/x.txt");
    let after = Observation {
        source_is_file: false,
        source_is_dir: false,
        parent_exists: true,
        target: TargetState::File,
    };
    assert_eq!(
        process(CopyType::Copy, &removed, &from, &to, &after),
        Ok(vec![FsOp::RemoveFile(p("/dst/x.txt"))])
    );
}

#[test]
fn link_scenario_create_twice() {
    let mut reg: WatchRegistry<u32> = WatchRegistry::new();
    let id = "b".to_string();
    assert_eq!(reg.check_watch(&id, true, true), Ok(()));
    reg.register(id.clone(), 2);
    let (from, to) = (p("/src"), p("/dst"));
    let created = event(EventKind::Create(CreateKind::File), "/src/y.bin");
    assert_eq!(
        process(CopyType::Link, &created, &from, &to, &obs(true, TargetState::Absent)),
        Ok(vec![FsOp::Symlink(p("/src/y.bin"), p("/dst/y.bin"))])
    );
    let linked = obs(true, TargetState::Symlink(Some(p("/src/y.bin"))));
    assert_eq!(process(CopyType::Link, &created, &from, &to, &linked), Ok(vec![]));
}

#[test]
fn watch_once_per_id() {
    let mut reg: WatchRegistry<u32> = WatchRegistry::new();
    let id = "a".to_string();
    assert_eq!(reg.check_watch(&id, true, true), Ok(()));
    reg.register(id.clone(), 7);
    assert!(reg.is_watching(&id));
    assert_eq!(reg.check_watch(&id, true, true), Err(WatchError::AlreadyWatching));
    assert_eq!(reg.check_watch(&id, false, false), Err(WatchError::AlreadyWatching));
    assert_eq!(reg.len(), 1);
}

#[test]
fn watch_needs_both_roots() {
    let reg: WatchRegistry<u32> = WatchRegistry::new();
    let id = "c".to_string();
    assert_eq!(reg.check_watch(&id, false, true), Err(WatchError::SourceNotFound));
    assert_eq!(reg.check_watch(&id, false, false), Err(WatchError::SourceNotFound));
    assert_eq!(reg.check_watch(&id, true, false), Err(WatchError::DestinationNotFound));
}

#[test]
fn stop_watching_lifecycle() {
    let mut reg: WatchRegistry<u32> = WatchRegistry::new();
    assert_eq!(reg.stop_watching(&"nobody".to_string()), Err(WatchError::NotWatching));
    reg.register("a".to_string(), 1);
    reg.register("b".to_string(), 2);
    reg.register("c".to_string(), 3);
    assert_eq!(reg.stop_watching(&"b".to_string()), Ok(2));
    assert!(!reg.is_watching(&"b".to_string()));
    assert!(reg.is_watching(&"a".to_string()));
    assert!(reg.is_watching(&"c".to_string()));
    assert_eq!(reg.len(), 2);
    assert_eq!(reg.stop_watching(&"b".to_string()), Err(WatchError::NotWatching));
    assert_eq!(reg.check_watch(&"b".to_string(), true, true), Ok(()));
}

#[test]
fn queue_capacity() {
    assert_eq!(EVENT_QUEUE_CAPACITY, 200);
}
