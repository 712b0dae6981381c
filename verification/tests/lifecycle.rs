use nalai_core::chunk_wrapper::ChunkWrapper;
use nalai_core::global_wrappers::GlobalWrappers;
use nalai_core::lifecycle::{
    cancel_all_downloads, cancel_download, cancel_or_start_download, delete_download,
    register_task, start_download, start_task, CancelAction, DeleteOutcome, EngineStart,
    StartAction, ToggleAction,
};
use nalai_core::nalai_download_info::{CreateTime, HeaderEntry, NalaiDownloadInfo};
use nalai_core::nalai_wrapper::{DownloaderHandle, NalaiWrapper};
use nalai_core::status_wrapper::{StatusWrapper, StatusWrapperKind};

fn task(kind: StatusWrapperKind, slot: Option<u64>) -> NalaiWrapper {
    let mut info = NalaiDownloadInfo::new(CreateTime { secs_since_epoch: 11, nanos_since_epoch: 0 });
    info.url = "https://example.test/file.bin".to_string();
    info.save_dir = "/tmp/dl".to_string();
    info.file_name = "file.bin".to_string();
    info.headers.push(HeaderEntry { name: "authorization".to_string(), value: "token".to_string() });
    info.status = StatusWrapper::new(kind);
    NalaiWrapper { downloader: slot.map(|slot| DownloaderHandle { slot }), info }
}

fn registry_with(id: &str, kind: StatusWrapperKind, slot: Option<u64>) -> GlobalWrappers {
    let mut registry = GlobalWrappers::new();
    registry.insert_to_global_wrappers(id.to_string(), task(kind, slot));
    registry
}

fn at(secs: u64) -> CreateTime {
    CreateTime { secs_since_epoch: secs, nanos_since_epoch: 0 }
}

fn engine(slot: u64) -> EngineStart {
    EngineStart {
        handle: DownloaderHandle { slot },
        url: "https://example.test/new.bin".to_string(),
        save_dir: "/srv/new".to_string(),
        file_name: "new.bin".to_string(),
        headers: vec![HeaderEntry { name: "range".to_string(), value: "bytes=0-".to_string() }],
    }
}

#[test]
fn start_of_a_new_destination_registers_the_task() {
    let mut registry = GlobalWrappers::new();
    let plan = start_download(&mut registry, None, "/tmp/dl/file.bin", engine(8), at(50));
    assert_eq!(plan.id, "L3RtcC9kbC9maWxlLmJpbg==");
    assert_eq!(plan.action, StartAction::Spawn);
    assert_eq!(registry.len(), 1);
    let task = registry.get_wrapper_by_id("L3RtcC9kbC9maWxlLmJpbg==").unwrap();
    assert_eq!(task.downloader, Some(DownloaderHandle { slot: 8 }));
    assert_eq!(task.info.status.kind, StatusWrapperKind::Running);
    assert_eq!(task.info.status.message, None);
    assert_eq!(task.info.url, "https://example.test/new.bin");
    assert_eq!(task.info.save_dir, "/srv/new");
    assert_eq!(task.info.file_name, "new.bin");
    assert_eq!(task.info.headers.len(), 1);
    assert_eq!(task.info.headers[0].name, "range");
    assert_eq!(task.info.create_time, at(50));
    assert_eq!(task.info.total_size, 1);
    assert_eq!(task.info.downloaded_bytes, 0);
    assert!(task.info.chunks.is_empty());
}

#[test]
fn start_of_a_running_task_is_a_no_op() {
    let mut registry = registry_with("L3RtcC9kbC9maWxlLmJpbg==", StatusWrapperKind::Running, Some(3));
    let plan = start_download(&mut registry, None, "/tmp/dl/file.bin", engine(8), at(50));
    assert_eq!(plan.id, "L3RtcC9kbC9maWxlLmJpbg==");
    assert_eq!(plan.action, StartAction::AlreadyRunning);
    assert_eq!(registry.len(), 1);
    let named = start_download(
        &mut registry,
        Some("L3RtcC9kbC9maWxlLmJpbg==".to_string()),
        "/elsewhere",
        engine(9),
        at(51),
    );
    assert_eq!(named.id, "L3RtcC9kbC9maWxlLmJpbg==");
    assert_eq!(named.action, StartAction::AlreadyRunning);
    assert_eq!(registry.len(), 1);
    let task = registry.get_wrapper_by_id("L3RtcC9kbC9maWxlLmJpbg==").unwrap();
    assert_eq!(task.downloader, Some(DownloaderHandle { slot: 3 }));
    assert_eq!(task.info.url, "https://example.test/file.bin");
    assert_eq!(task.info.create_time, at(11));
}

#[test]
fn second_start_of_the_same_destination_is_ignored() {
    let mut registry = GlobalWrappers::new();
    let first = start_download(&mut registry, None, "/tmp/dl/file.bin", engine(1), at(50));
    let second = start_download(&mut registry, None, "/tmp/dl/file.bin", engine(2), at(60));
    assert_eq!(first.action, StartAction::Spawn);
    assert_eq!(second.action, StartAction::AlreadyRunning);
    assert_eq!(first.id, second.id);
    assert_eq!(registry.len(), 1);
    let task = registry.get_wrapper_by_id(&first.id).unwrap();
    assert_eq!(task.downloader, Some(DownloaderHandle { slot: 1 }));
    assert_eq!(task.info.create_time, at(50));
}

#[test]
fn restart_keeps_creation_time_and_chunks() {
    let mut registry = GlobalWrappers::new();
    let mut failed = task(StatusWrapperKind::Error, None);
    failed.info.status.message = Some("reset".to_string());
    failed.info.chunks = vec![ChunkWrapper::new(0, 10, 4)];
    failed.info.downloaded_bytes = 4;
    failed.info.total_size = 10;
    registry.insert_to_global_wrappers("t".to_string(), failed);
    register_task(&mut registry, "t", engine(5), at(99));
    let task = registry.get_wrapper_by_id("t").unwrap();
    assert_eq!(task.downloader, Some(DownloaderHandle { slot: 5 }));
    assert_eq!(task.info.status.kind, StatusWrapperKind::Running);
    assert_eq!(task.info.status.message, None);
    assert_eq!(task.info.create_time, at(11));
    assert_eq!(task.info.chunks, vec![ChunkWrapper::new(0, 10, 4)]);
    assert_eq!(task.info.downloaded_bytes, 4);
    assert_eq!(task.info.total_size, 10);
    assert_eq!(task.info.url, "https://example.test/new.bin");
    assert_eq!(task.info.headers[0].name, "range");
}

#[test]
fn start_of_a_finished_task_changes_nothing() {
    let mut registry = registry_with("t", StatusWrapperKind::Finished, None);
    let plan = start_download(&mut registry, Some("t".to_string()), "/tmp/dl/file.bin", engine(8), at(50));
    assert_eq!(plan.action, StartAction::Refused);
    let task = registry.get_wrapper_by_id("t").unwrap();
    assert_eq!(task.downloader, None);
    assert_eq!(task.info.status.kind, StatusWrapperKind::Finished);
    assert_eq!(task.info.url, "https://example.test/file.bin");
}

#[test]
fn start_of_a_task_shown_as_running_without_engine_spawns() {
    let registry = registry_with("t", StatusWrapperKind::Running, None);
    assert_eq!(start_task(&registry, "t"), StartAction::Spawn);
}

#[test]
fn start_of_a_resting_task_spawns() {
    assert_eq!(start_task(&registry_with("t", StatusWrapperKind::NoStart, None), "t"), StartAction::Spawn);
    assert_eq!(start_task(&registry_with("t", StatusWrapperKind::Error, Some(1)), "t"), StartAction::Spawn);
    assert_eq!(start_task(&registry_with("t", StatusWrapperKind::Pending, Some(1)), "t"), StartAction::Spawn);
}

#[test]
fn finished_task_refuses_start_and_cancel() {
    let registry = registry_with("t", StatusWrapperKind::Finished, Some(1));
    assert_eq!(start_task(&registry, "t"), StartAction::Refused);
    assert_eq!(cancel_download(&registry, "t"), Ok(CancelAction::Refused));
    let toggled = cancel_or_start_download(&registry, "t").unwrap();
    assert!(matches!(toggled, ToggleAction::Refused));
    assert_eq!(toggled.reply(), (false, false));
    assert_eq!(registry.get_info("t").unwrap().status.kind, StatusWrapperKind::Finished);
    let stored = registry_with("t", StatusWrapperKind::Finished, None);
    assert_eq!(start_task(&stored, "t"), StartAction::Refused);
    assert_eq!(cancel_download(&stored, "t"), Ok(CancelAction::Refused));
}

#[test]
fn failed_task_restarts_with_what_its_snapshot_records() {
    let registry = registry_with("t", StatusWrapperKind::Error, None);
    let toggled = cancel_or_start_download(&registry, "t").unwrap();
    assert_eq!(toggled.reply(), (true, true));
    match toggled {
        ToggleAction::Start(request) => {
            assert_eq!(request.id, "t");
            assert_eq!(request.url, "https://example.test/file.bin");
            assert_eq!(request.save_dir, "/tmp/dl");
            assert_eq!(request.file_name, Some("file.bin".to_string()));
            assert_eq!(request.headers.len(), 1);
            assert_eq!(request.headers[0].name, "authorization");
            assert_eq!(request.headers[0].value, "token");
        }
        other => panic!("expected a start, got {:?}", other),
    }
    assert_eq!(start_task(&registry, "t"), StartAction::Spawn);
}

#[test]
fn task_that_has_not_started_is_started_by_a_toggle() {
    let registry = registry_with("t", StatusWrapperKind::NoStart, None);
    let toggled = cancel_or_start_download(&registry, "t").unwrap();
    assert!(matches!(toggled, ToggleAction::Start(_)));
    assert_eq!(toggled.reply(), (true, true));
}

#[test]
fn task_under_way_is_cancelled_by_a_toggle() {
    let running = registry_with("t", StatusWrapperKind::Running, Some(4));
    let toggled = cancel_or_start_download(&running, "t").unwrap();
    assert!(matches!(toggled, ToggleAction::Cancel(Some(DownloaderHandle { slot: 4 }))));
    assert_eq!(toggled.reply(), (true, false));
    let pending = registry_with("t", StatusWrapperKind::Pending, None);
    let toggled = cancel_or_start_download(&pending, "t").unwrap();
    assert!(matches!(toggled, ToggleAction::Cancel(None)));
    assert_eq!(toggled.reply(), (true, false));
}

#[test]
fn toggle_of_an_unknown_task_is_an_error() {
    let registry = registry_with("t", StatusWrapperKind::Running, Some(4));
    let err = cancel_or_start_download(&registry, "nope").unwrap_err();
    assert_eq!(err, "No such download id: nope");
}

#[test]
fn cancel_signals_the_attached_engine() {
    let registry = registry_with("t", StatusWrapperKind::Running, Some(4));
    assert_eq!(cancel_download(&registry, "t"), Ok(CancelAction::Signal(DownloaderHandle { slot: 4 })));
    assert_eq!(registry.get_info("t").unwrap().status.kind, StatusWrapperKind::Running);
    let idle = registry_with("t", StatusWrapperKind::NoStart, Some(9));
    assert_eq!(cancel_download(&idle, "t"), Ok(CancelAction::Signal(DownloaderHandle { slot: 9 })));
}

#[test]
fn cancel_without_engine_does_nothing() {
    let registry = registry_with("t", StatusWrapperKind::Pending, None);
    assert_eq!(cancel_download(&registry, "t"), Ok(CancelAction::Nothing));
}

#[test]
fn cancel_of_an_unknown_task_is_an_error() {
    let registry = GlobalWrappers::new();
    assert_eq!(cancel_download(&registry, "x"), Err("No such download id: x".to_string()));
}

#[test]
fn cancel_all_names_the_engines_at_work() {
    let mut registry = GlobalWrappers::new();
    registry.insert_to_global_wrappers("a".to_string(), task(StatusWrapperKind::Running, Some(1)));
    registry.insert_to_global_wrappers("b".to_string(), task(StatusWrapperKind::Finished, Some(2)));
    registry.insert_to_global_wrappers("c".to_string(), task(StatusWrapperKind::Pending, Some(3)));
    registry.insert_to_global_wrappers("d".to_string(), task(StatusWrapperKind::Running, None));
    registry.insert_to_global_wrappers("e".to_string(), task(StatusWrapperKind::Error, Some(5)));
    registry.insert_to_global_wrappers("f".to_string(), task(StatusWrapperKind::NoStart, Some(6)));
    let handles = cancel_all_downloads(&registry);
    assert_eq!(handles, vec![DownloaderHandle { slot: 1 }, DownloaderHandle { slot: 3 }]);
    assert_eq!(registry.len(), 6);
}

#[test]
fn cancel_all_of_an_empty_registry_names_nothing() {
    assert!(cancel_all_downloads(&GlobalWrappers::new()).is_empty());
}

#[test]
fn delete_of_an_unknown_task_changes_nothing() {
    let mut registry = registry_with("t", StatusWrapperKind::Running, Some(4));
    let outcome = delete_download(&mut registry, "nope");
    assert_eq!(outcome, DeleteOutcome::NotFound);
    assert!(!outcome.found());
    assert_eq!(registry.len(), 1);
    assert!(registry.get_wrapper_by_id("t").is_some());
}

#[test]
fn delete_removes_the_task_and_names_its_engine() {
    let mut registry = registry_with("t", StatusWrapperKind::Running, Some(4));
    let outcome = delete_download(&mut registry, "t");
    assert_eq!(outcome, DeleteOutcome::Deleted(Some(DownloaderHandle { slot: 4 })));
    assert!(outcome.found());
    assert_eq!(registry.len(), 0);
    assert!(registry.get_wrapper_by_id("t").is_none());
    assert_eq!(delete_download(&mut registry, "t"), DeleteOutcome::NotFound);
}

#[test]
fn delete_works_on_a_finished_task() {
    let mut registry = registry_with("t", StatusWrapperKind::Finished, None);
    assert_eq!(delete_download(&mut registry, "t"), DeleteOutcome::Deleted(None));
    assert_eq!(registry.len(), 0);
}
