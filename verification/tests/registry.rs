use nalai_core::chunk_wrapper::ChunkWrapper;
use nalai_core::global_wrappers::GlobalWrappers;
use nalai_core::nalai_download_info::{CreateTime, HeaderEntry, NalaiDownloadInfo};
use nalai_core::nalai_wrapper::{DownloaderHandle, NalaiWrapper};
use nalai_core::status_wrapper::StatusWrapperKind;

fn at(secs: u64) -> CreateTime {
    CreateTime { secs_since_epoch: secs, nanos_since_epoch: 0 }
}

fn task(secs: u64, url: &str, slot: Option<u64>) -> NalaiWrapper {
    let mut info = NalaiDownloadInfo::new(at(secs));
    info.url = url.to_string();
    NalaiWrapper { downloader: slot.map(|slot| DownloaderHandle { slot }), info }
}

#[test]
fn blank_snapshot_has_the_defaults() {
    let info = NalaiDownloadInfo::new(CreateTime { secs_since_epoch: 9, nanos_since_epoch: 4 });
    assert_eq!(info.downloaded_bytes, 0);
    assert_eq!(info.total_size, 1);
    assert_eq!(info.file_name, "");
    assert_eq!(info.url, "");
    assert_eq!(info.status.kind, StatusWrapperKind::NoStart);
    assert_eq!(info.status.message, None);
    assert_eq!(info.speed, 0);
    assert_eq!(info.save_dir, "");
    assert_eq!(info.create_time, CreateTime { secs_since_epoch: 9, nanos_since_epoch: 4 });
    assert!(info.chunks.is_empty());
    assert!(info.headers.is_empty());
    assert!(info.is_well_formed());
}

#[test]
fn snapshot_with_no_size_is_not_well_formed() {
    let mut info = NalaiDownloadInfo::new(at(1));
    info.total_size = 0;
    assert!(!info.is_well_formed());
}

#[test]
fn snapshot_with_a_repeated_header_is_not_well_formed() {
    let mut info = NalaiDownloadInfo::new(at(1));
    info.headers.push(HeaderEntry { name: "a".to_string(), value: "1".to_string() });
    info.headers.push(HeaderEntry { name: "b".to_string(), value: "1".to_string() });
    assert!(info.is_well_formed());
    info.headers.push(HeaderEntry { name: "a".to_string(), value: "2".to_string() });
    assert!(!info.is_well_formed());
}

#[test]
fn snapshot_with_unordered_chunks_is_not_well_formed() {
    let mut info = NalaiDownloadInfo::new(at(1));
    info.chunks = vec![ChunkWrapper::new(0, 1, 1), ChunkWrapper::new(2, 1, 1)];
    assert!(info.is_well_formed());
    info.chunks = vec![ChunkWrapper::new(2, 1, 1), ChunkWrapper::new(0, 1, 1)];
    assert!(!info.is_well_formed());
    info.chunks = vec![ChunkWrapper::new(2, 1, 1), ChunkWrapper::new(2, 1, 1)];
    assert!(!info.is_well_formed());
}

#[test]
fn empty_registry_knows_no_task() {
    let registry = GlobalWrappers::new();
    assert_eq!(registry.len(), 0);
    assert!(registry.get_wrapper_by_id("a").is_none());
    assert!(registry.get_info("a").is_none());
    assert!(registry.get_all_info().is_empty());
    assert!(registry.id_at(0).is_none());
    assert!(registry.wrapper_at(0).is_none());
}

#[test]
fn inserted_task_is_found_under_its_identifier() {
    let mut registry = GlobalWrappers::new();
    registry.insert_to_global_wrappers("a".to_string(), task(1, "https://example.test/a", Some(7)));
    registry.insert_to_global_wrappers("b".to_string(), task(2, "https://example.test/b", None));
    assert_eq!(registry.len(), 2);
    let a = registry.get_wrapper_by_id("a").unwrap();
    assert_eq!(a.info.url, "https://example.test/a");
    assert_eq!(a.downloader, Some(DownloaderHandle { slot: 7 }));
    let b = registry.get_info("b").unwrap();
    assert_eq!(b.url, "https://example.test/b");
    assert_eq!(b.create_time, at(2));
    assert!(registry.get_wrapper_by_id("c").is_none());
    assert_eq!(registry.id_at(0).unwrap(), "a");
    assert_eq!(registry.id_at(1).unwrap(), "b");
    assert_eq!(registry.wrapper_at(1).unwrap().info.url, "https://example.test/b");
}

#[test]
fn insert_replaces_the_whole_task() {
    let mut registry = GlobalWrappers::new();
    registry.insert_to_global_wrappers("a".to_string(), task(1, "https://example.test/old", Some(7)));
    registry.insert_to_global_wrappers("a".to_string(), task(5, "https://example.test/new", None));
    assert_eq!(registry.len(), 1);
    let a = registry.get_wrapper_by_id("a").unwrap();
    assert_eq!(a.info.url, "https://example.test/new");
    assert_eq!(a.info.create_time, at(5));
    assert_eq!(a.downloader, None);
}

#[test]
fn remove_returns_the_task_and_forgets_it() {
    let mut registry = GlobalWrappers::new();
    registry.insert_to_global_wrappers("a".to_string(), task(1, "https://example.test/a", None));
    registry.insert_to_global_wrappers("b".to_string(), task(2, "https://example.test/b", None));
    registry.insert_to_global_wrappers("c".to_string(), task(3, "https://example.test/c", None));
    let removed = registry.remove("b").unwrap();
    assert_eq!(removed.info.url, "https://example.test/b");
    assert_eq!(registry.len(), 2);
    assert!(registry.get_wrapper_by_id("b").is_none());
    assert_eq!(registry.id_at(0).unwrap(), "a");
    assert_eq!(registry.id_at(1).unwrap(), "c");
    assert!(registry.remove("b").is_none());
    assert_eq!(registry.len(), 2);
}

#[test]
fn all_info_lists_every_task_in_order() {
    let mut registry = GlobalWrappers::new();
    registry.insert_to_global_wrappers("x".to_string(), task(1, "https://example.test/x", Some(1)));
    registry.insert_to_global_wrappers("y".to_string(), task(2, "https://example.test/y", None));
    let rows = registry.get_all_info();
    assert_eq!(rows.len(), 2);
    assert_eq!(rows[0].id, "x");
    assert_eq!(rows[0].info.url, "https://example.test/x");
    assert_eq!(rows[1].id, "y");
    assert_eq!(rows[1].info.create_time, at(2));
}

#[test]
fn cloned_task_is_the_same_task() {
    let mut original = task(3, "https://example.test/a", Some(2));
    original.info.headers.push(HeaderEntry { name: "k".to_string(), value: "v".to_string() });
    original.info.status.message = Some("m".to_string());
    let copy = original.clone();
    assert_eq!(copy.downloader, original.downloader);
    assert_eq!(copy.info.url, original.info.url);
    assert_eq!(copy.info.create_time, original.info.create_time);
    assert_eq!(copy.info.headers.len(), 1);
    assert_eq!(copy.info.headers[0].name, "k");
    assert_eq!(copy.info.headers[0].value, "v");
    assert!(copy.info.status == original.info.status);
}

#[test]
fn default_snapshot_is_blank_and_created_now() {
    let before = std::time::SystemTime::now()
        .duration_since(std::time::UNIX_EPOCH)
        .unwrap()
        .as_secs();
    let info = NalaiDownloadInfo::default();
    assert!(info.create_time.secs_since_epoch >= before);
    assert!(info.create_time.secs_since_epoch <= before + 60);
    assert!(info.create_time.nanos_since_epoch < 1_000_000_000);
    assert_eq!(info.total_size, 1);
    assert_eq!(info.downloaded_bytes, 0);
    assert_eq!(info.status.kind, StatusWrapperKind::NoStart);
    assert!(info.chunks.is_empty());
    assert!(info.is_well_formed());
}

#[test]
fn snapshot_with_an_overfull_chunk_is_not_well_formed() {
    let mut info = NalaiDownloadInfo::new(at(1));
    info.chunks = vec![ChunkWrapper::new(0, 10, 10)];
    assert!(info.is_well_formed());
    info.chunks = vec![ChunkWrapper::new(0, 10, 11)];
    assert!(!info.is_well_formed());
}

#[test]
fn chunk_is_well_formed_up_to_its_size() {
    assert!(ChunkWrapper::new(0, 0, 0).is_well_formed());
    assert!(ChunkWrapper::new(0, 5, 5).is_well_formed());
    assert!(!ChunkWrapper::new(0, 5, 6).is_well_formed());
}
