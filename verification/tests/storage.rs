use nalai_core::chunk_wrapper::ChunkWrapper;
use nalai_core::global_wrappers::GlobalWrappers;
use nalai_core::lifecycle::{
    cancel_or_start_download, start_download, EngineStart, StartAction, ToggleAction,
};
use nalai_core::nalai_download_info::{CreateTime, HeaderEntry, NalaiDownloadInfo};
use nalai_core::nalai_wrapper::{DownloaderHandle, NalaiWrapper};
use nalai_core::status_wrapper::{StatusWrapper, StatusWrapperKind};
use nalai_core::storage::{load_global_wrappers, read_row, StoredRow};

fn info(secs: u64, url: &str) -> NalaiDownloadInfo {
    let mut info = NalaiDownloadInfo::new(CreateTime { secs_since_epoch: secs, nanos_since_epoch: 0 });
    info.url = url.to_string();
    info
}

#[test]
fn every_persisted_task_comes_back_without_engine() {
    let mut before = GlobalWrappers::new();
    let mut failed = info(1, "https://example.test/a");
    failed.save_dir = "/tmp/dl".to_string();
    failed.file_name = "a".to_string();
    failed.status = StatusWrapper::new(StatusWrapperKind::Error).with_message("reset".to_string());
    failed.chunks = vec![ChunkWrapper::new(0, 10, 3)];
    failed.headers.push(HeaderEntry { name: "cookie".to_string(), value: "k=v".to_string() });
    before.insert_to_global_wrappers(
        "first".to_string(),
        NalaiWrapper { downloader: Some(DownloaderHandle { slot: 1 }), info: failed },
    );
    before.insert_to_global_wrappers(
        "second".to_string(),
        NalaiWrapper { downloader: None, info: info(2, "https://example.test/b") },
    );
    let rows: Vec<StoredRow> = before
        .get_all_info()
        .into_iter()
        .map(|row| StoredRow { key: row.id.into_bytes(), info: Some(row.info) })
        .collect();

    let mut after = GlobalWrappers::new();
    load_global_wrappers(&mut after, &rows);
    assert_eq!(after.len(), 2);
    let first = after.get_wrapper_by_id("first").unwrap();
    assert_eq!(first.downloader, None);
    assert_eq!(first.info.url, "https://example.test/a");
    assert_eq!(first.info.status.kind, StatusWrapperKind::Error);
    assert_eq!(first.info.status.message, Some("reset".to_string()));
    assert_eq!(first.info.chunks, vec![ChunkWrapper::new(0, 10, 3)]);
    assert_eq!(first.info.create_time, CreateTime { secs_since_epoch: 1, nanos_since_epoch: 0 });
    let second = after.get_wrapper_by_id("second").unwrap();
    assert_eq!(second.downloader, None);
    assert_eq!(second.info.url, "https://example.test/b");

    let request = match cancel_or_start_download(&after, "first").unwrap() {
        ToggleAction::Start(request) => request,
        other => panic!("expected a start, got {:?}", other),
    };
    assert_eq!(request.id, "first");
    assert_eq!(request.url, "https://example.test/a");
    assert_eq!(request.save_dir, "/tmp/dl");
    assert_eq!(request.file_name, Some("a".to_string()));
    assert_eq!(request.headers.len(), 1);
    assert_eq!(request.headers[0].name, "cookie");
    assert_eq!(request.headers[0].value, "k=v");

    let engine = EngineStart {
        handle: DownloaderHandle { slot: 9 },
        url: request.url,
        save_dir: request.save_dir,
        file_name: request.file_name.unwrap(),
        headers: request.headers,
    };
    let now = CreateTime { secs_since_epoch: 500, nanos_since_epoch: 0 };
    let plan = start_download(&mut after, Some(request.id), "/tmp/dl/a", engine, now);
    assert_eq!(plan.id, "first");
    assert_eq!(plan.action, StartAction::Spawn);
    let resumed = after.get_wrapper_by_id("first").unwrap();
    assert_eq!(resumed.downloader, Some(DownloaderHandle { slot: 9 }));
    assert_eq!(resumed.info.status.kind, StatusWrapperKind::Running);
    assert_eq!(resumed.info.create_time, CreateTime { secs_since_epoch: 1, nanos_since_epoch: 0 });
    assert_eq!(resumed.info.chunks, vec![ChunkWrapper::new(0, 10, 3)]);
    assert_eq!(resumed.info.headers[0].name, "cookie");
    assert_eq!(after.len(), 2);
}

#[test]
fn row_with_a_key_that_is_no_text_is_skipped() {
    let rows = vec![
        StoredRow { key: vec![0xff, 0xfe], info: Some(info(1, "https://example.test/a")) },
        StoredRow { key: b"good".to_vec(), info: Some(info(2, "https://example.test/b")) },
    ];
    assert!(read_row(&rows[0]).is_none());
    let mut registry = GlobalWrappers::new();
    load_global_wrappers(&mut registry, &rows);
    assert_eq!(registry.len(), 1);
    assert_eq!(registry.get_info("good").unwrap().url, "https://example.test/b");
}

#[test]
fn row_with_an_unreadable_value_is_skipped() {
    let rows = vec![
        StoredRow { key: b"broken".to_vec(), info: None },
        StoredRow { key: b"good".to_vec(), info: Some(info(2, "https://example.test/b")) },
    ];
    let mut registry = GlobalWrappers::new();
    load_global_wrappers(&mut registry, &rows);
    assert_eq!(registry.len(), 1);
    assert!(registry.get_wrapper_by_id("broken").is_none());
    assert!(registry.get_wrapper_by_id("good").is_some());
}

#[test]
fn row_with_an_ill_formed_snapshot_is_skipped() {
    let mut sizeless = info(1, "https://example.test/a");
    sizeless.total_size = 0;
    let rows = vec![StoredRow { key: b"sizeless".to_vec(), info: Some(sizeless) }];
    let mut registry = GlobalWrappers::new();
    load_global_wrappers(&mut registry, &rows);
    assert_eq!(registry.len(), 0);
}

#[test]
fn key_is_read_as_utf8_text() {
    let row = StoredRow { key: "任务".as_bytes().to_vec(), info: Some(info(1, "https://example.test/a")) };
    let (id, wrapper) = read_row(&row).unwrap();
    assert_eq!(id, "任务");
    assert_eq!(wrapper.downloader, None);
    assert_eq!(wrapper.info.url, "https://example.test/a");
}

#[test]
fn later_row_wins_over_an_earlier_one_and_over_the_registry() {
    let mut registry = GlobalWrappers::new();
    registry.insert_to_global_wrappers(
        "t".to_string(),
        NalaiWrapper { downloader: Some(DownloaderHandle { slot: 1 }), info: info(0, "https://example.test/old") },
    );
    let rows = vec![
        StoredRow { key: b"t".to_vec(), info: Some(info(1, "https://example.test/one")) },
        StoredRow { key: b"t".to_vec(), info: Some(info(2, "https://example.test/two")) },
    ];
    load_global_wrappers(&mut registry, &rows);
    assert_eq!(registry.len(), 1);
    let task = registry.get_wrapper_by_id("t").unwrap();
    assert_eq!(task.info.url, "https://example.test/two");
    assert_eq!(task.downloader, None);
}

#[test]
fn loading_nothing_changes_nothing() {
    let mut registry = GlobalWrappers::new();
    load_global_wrappers(&mut registry, &vec![]);
    assert_eq!(registry.len(), 0);
}
