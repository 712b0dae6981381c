//! Folding the engine's notifications into the registry.
//!
//! For each running task three streams report: the bytes received so far,
//! the engine's state, and the transfer speed. Every notification becomes
//! one step on the registry, and the end of the transfer a last one.

use crate::chunk_wrapper::{
    all_well_formed,
    merge_chunks,
    merge_keeps_well_formed,
    merged_chunks,
    ChunkWrapper,
};
use crate::global_wrappers::GlobalWrappers;
use crate::nalai_download_info::{
    chunks_are_well_formed,
    copy_chunks,
    copy_headers,
    CreateTime,
    DownloadInfoView,
    NalaiDownloadInfo,
};
use crate::nalai_wrapper::{DownloaderHandle, NalaiWrapper, WrapperView};
use crate::status_conversion::{
    convert_status,
    DownloadError,
    DownloaderStatusWrapper,
    DownloadingEndCause,
    IntoStatusWrapper,
};
use crate::status_wrapper::{StatusView, StatusWrapper, StatusWrapperKind};
use vstd::prelude::*;

verus! {

/// What is read from the engine when one of its notifications arrives.
#[derive(Debug)]
pub struct EngineReport {
    /// The bytes received so far.
    pub downloaded_bytes: u64,
    /// The size of the file, once the engine knows it.
    pub total_size: Option<u64>,
    pub file_name: String,
    pub url: String,
    pub save_dir: String,
    pub status: DownloaderStatusWrapper,
    pub speed: u64,
    /// The chunks as the engine lists them at this instant.
    pub chunks: Vec<ChunkWrapper>,
}

/// What an [`EngineReport`] says, the engine's state already translated.
pub ghost struct ReportView {
    pub downloaded_bytes: u64,
    pub total_size: Option<u64>,
    pub file_name: Seq<char>,
    pub url: Seq<char>,
    pub save_dir: Seq<char>,
    pub status: StatusView,
    pub speed: u64,
    pub chunks: Seq<ChunkWrapper>,
}

impl View for EngineReport {
    type V = ReportView;

    open spec fn view(&self) -> ReportView {
        ReportView {
            downloaded_bytes: self.downloaded_bytes,
            total_size: self.total_size,
            file_name: self.file_name@,
            url: self.url@,
            save_dir: self.save_dir@,
            status: self.status.translated(),
            speed: self.speed,
            chunks: self.chunks@,
        }
    }
}

impl ReportView {
    /// A size that is known is positive, and no chunk holds more bytes than
    /// its size.
    pub open spec fn well_formed(self) -> bool {
        self.total_size != Some(0u64) && all_well_formed(self.chunks)
    }
}

impl EngineReport {
    /// Whether the report is one that the registry can take.
    pub fn is_well_formed(&self) -> (valid: bool)
        ensures
            valid == self@.well_formed(),
    {
        let sized = match self.total_size {
            Some(total_size) => total_size > 0,
            None => true,
        };
        sized && chunks_are_well_formed(&self.chunks)
    }
}

/// The snapshot as it stands when aggregation begins: what the registry
/// holds for the task, or a blank snapshot created now, shown as running.
pub open spec fn baseline_of(
    tasks: Map<Seq<char>, WrapperView>,
    id: Seq<char>,
    now: CreateTime,
) -> DownloadInfoView {
    let known = if tasks.dom().contains(id) {
        tasks[id].info
    } else {
        DownloadInfoView::blank(now)
    };
    DownloadInfoView {
        status: StatusView { kind: StatusWrapperKind::Running, message: known.status.message },
        ..known
    }
}

/// The snapshot that a report gives rise to. The report supplies progress,
/// names, state and speed; the chunks are the report's merged into the
/// baseline's; the time of creation and the request headers are the
/// baseline's.
pub open spec fn snapshot_of(
    baseline: DownloadInfoView,
    report: ReportView,
    total_size: u64,
) -> DownloadInfoView {
    DownloadInfoView {
        downloaded_bytes: report.downloaded_bytes,
        total_size,
        file_name: report.file_name,
        url: report.url,
        status: report.status,
        speed: report.speed,
        save_dir: report.save_dir,
        create_time: baseline.create_time,
        chunks: merged_chunks(baseline.chunks, report.chunks),
        headers: baseline.headers,
    }
}

/// The registry after a progress notification: the task's snapshot is
/// replaced where the size of the file is known, and nothing changes where
/// it is not.
pub open spec fn after_progress(
    tasks: Map<Seq<char>, WrapperView>,
    id: Seq<char>,
    baseline: DownloadInfoView,
    handle: DownloaderHandle,
    report: ReportView,
) -> Map<Seq<char>, WrapperView> {
    match report.total_size {
        Some(total_size) => tasks.insert(
            id,
            WrapperView {
                downloader: Some(handle),
                info: snapshot_of(baseline, report, total_size),
            },
        ),
        None => tasks,
    }
}

/// The size that a snapshot after a change of state shows: the known size,
/// else the baseline's.
pub open spec fn size_after_state(baseline: DownloadInfoView, report: ReportView) -> u64 {
    match report.total_size {
        Some(total_size) => total_size,
        None => baseline.total_size,
    }
}

/// The registry after a change of state: the task's snapshot is replaced.
pub open spec fn after_state(
    tasks: Map<Seq<char>, WrapperView>,
    id: Seq<char>,
    baseline: DownloadInfoView,
    handle: DownloaderHandle,
    report: ReportView,
) -> Map<Seq<char>, WrapperView> {
    tasks.insert(
        id,
        WrapperView {
            downloader: Some(handle),
            info: snapshot_of(baseline, report, size_after_state(baseline, report)),
        },
    )
}

/// The registry after a speed notification: the speed of the task changes
/// and nothing else; a task that the registry lacks is not created.
pub open spec fn after_speed(
    tasks: Map<Seq<char>, WrapperView>,
    id: Seq<char>,
    speed: u64,
) -> Map<Seq<char>, WrapperView> {
    if tasks.dom().contains(id) {
        tasks.insert(
            id,
            WrapperView { info: DownloadInfoView { speed, ..tasks[id].info }, ..tasks[id] },
        )
    } else {
        tasks
    }
}

/// The registry after the transfer has ended with `status`: the task shows
/// that status and is otherwise as before; where the registry lacks the
/// task, a blank one without engine is created to show it.
pub open spec fn after_outcome(
    tasks: Map<Seq<char>, WrapperView>,
    id: Seq<char>,
    status: StatusView,
    now: CreateTime,
) -> Map<Seq<char>, WrapperView> {
    if tasks.dom().contains(id) {
        tasks.insert(
            id,
            WrapperView { info: DownloadInfoView { status, ..tasks[id].info }, ..tasks[id] },
        )
    } else {
        tasks.insert(
            id,
            WrapperView {
                downloader: None,
                info: DownloadInfoView { status, ..DownloadInfoView::blank(now) },
            },
        )
    }
}

/// The status that the end of a transfer stands for.
pub open spec fn outcome_status(outcome: Result<DownloadingEndCause, DownloadError>) -> StatusView {
    match outcome {
        Ok(cause) => cause.translated(),
        Err(failure) => failure.translated(),
    }
}

/// One step of the aggregation of a task.
pub ghost enum Notification {
    /// The bytes received so far have changed.
    Progress(ReportView),
    /// The engine's state has changed.
    State(ReportView),
    /// The transfer speed has changed.
    Speed(u64),
    /// The transfer has ended with this status, at this time.
    Outcome(StatusView, CreateTime),
}

/// The registry after one notification for the task `id`.
pub open spec fn after_notification(
    tasks: Map<Seq<char>, WrapperView>,
    id: Seq<char>,
    baseline: DownloadInfoView,
    handle: DownloaderHandle,
    notification: Notification,
) -> Map<Seq<char>, WrapperView> {
    match notification {
        Notification::Progress(report) => after_progress(tasks, id, baseline, handle, report),
        Notification::State(report) => after_state(tasks, id, baseline, handle, report),
        Notification::Speed(speed) => after_speed(tasks, id, speed),
        Notification::Outcome(status, now) => after_outcome(tasks, id, status, now),
    }
}

/// The registry after a run of notifications for the task `id`, in their
/// order.
pub open spec fn after_notifications(
    tasks: Map<Seq<char>, WrapperView>,
    id: Seq<char>,
    baseline: DownloadInfoView,
    handle: DownloaderHandle,
    notifications: Seq<Notification>,
) -> Map<Seq<char>, WrapperView>
    decreases notifications.len(),
{
    if notifications.len() == 0 {
        tasks
    } else {
        after_notification(
            after_notifications(tasks, id, baseline, handle, notifications.drop_last()),
            id,
            baseline,
            handle,
            notifications.last(),
        )
    }
}

/// Once a task stands in the registry, no run of notifications changes the
/// time of its creation or its request headers, and none takes the task
/// out: every later snapshot carries forward what the first one recorded.
pub proof fn creation_is_carried_forward(
    tasks: Map<Seq<char>, WrapperView>,
    id: Seq<char>,
    now: CreateTime,
    handle: DownloaderHandle,
    notifications: Seq<Notification>,
)
    requires
        tasks.dom().contains(id),
    ensures
        after_notifications(
            tasks,
            id,
            baseline_of(tasks, id, now),
            handle,
            notifications,
        ).dom().contains(id),
        after_notifications(
            tasks,
            id,
            baseline_of(tasks, id, now),
            handle,
            notifications,
        )[id].info.create_time == tasks[id].info.create_time,
        after_notifications(
            tasks,
            id,
            baseline_of(tasks, id, now),
            handle,
            notifications,
        )[id].info.headers == tasks[id].info.headers,
    decreases notifications.len(),
{
    if notifications.len() > 0 {
        creation_is_carried_forward(tasks, id, now, handle, notifications.drop_last());
    }
}

/// The notifications for one task leave every other task as it is.
pub proof fn other_tasks_are_untouched(
    tasks: Map<Seq<char>, WrapperView>,
    id: Seq<char>,
    baseline: DownloadInfoView,
    handle: DownloaderHandle,
    notifications: Seq<Notification>,
    other: Seq<char>,
)
    requires
        other != id,
    ensures
        after_notifications(tasks, id, baseline, handle, notifications).dom().contains(other)
            == tasks.dom().contains(other),
        tasks.dom().contains(other) ==> after_notifications(
            tasks,
            id,
            baseline,
            handle,
            notifications,
        )[other] == tasks[other],
    decreases notifications.len(),
{
    if notifications.len() > 0 {
        other_tasks_are_untouched(tasks, id, baseline, handle, notifications.drop_last(), other);
    }
}

/// The status with which a transfer ends stands, whatever was recorded
/// before; the rest of a task that the registry holds is kept, its chunks
/// among it.
pub proof fn outcome_is_authoritative(
    tasks: Map<Seq<char>, WrapperView>,
    id: Seq<char>,
    status: StatusView,
    now: CreateTime,
)
    ensures
        after_outcome(tasks, id, status, now).dom().contains(id),
        after_outcome(tasks, id, status, now)[id].info.status == status,
        tasks.dom().contains(id) ==> after_outcome(tasks, id, status, now)[id].info.chunks
            == tasks[id].info.chunks && after_outcome(tasks, id, status, now)[id].downloader
            == tasks[id].downloader,
        !tasks.dom().contains(id) ==> after_outcome(tasks, id, status, now)[id].downloader.is_none(),
{
}

/// Takes the baseline for a task whose aggregation begins.
pub fn begin_aggregation(registry: &GlobalWrappers, id: &str, now: CreateTime) -> (baseline:
    NalaiDownloadInfo)
    requires
        registry.well_formed(),
    ensures
        baseline@ == baseline_of(registry@, id@, now),
        baseline@.well_formed(),
{
    let mut baseline = match registry.get_info(id) {
        Some(info) => info,
        None => NalaiDownloadInfo::new(now),
    };
    baseline.status.kind = StatusWrapperKind::Running;
    baseline
}

/// Builds the snapshot that `report` gives rise to on top of `baseline`.
pub fn build_snapshot(baseline: &NalaiDownloadInfo, report: EngineReport, total_size: u64) -> (info:
    NalaiDownloadInfo)
    ensures
        info@ == snapshot_of(baseline@, report@, total_size),
        baseline@.well_formed() && report@.well_formed() && total_size > 0
            ==> info@.well_formed(),
{
    let chunks = merge_chunks(copy_chunks(&baseline.chunks), report.chunks);
    proof {
        if baseline@.well_formed() && report@.well_formed() {
            merge_keeps_well_formed(baseline@.chunks, report@.chunks, chunks@);
        }
    }
    NalaiDownloadInfo {
        downloaded_bytes: report.downloaded_bytes,
        total_size,
        file_name: report.file_name,
        url: report.url,
        status: convert_status(report.status),
        speed: report.speed,
        save_dir: report.save_dir,
        create_time: baseline.create_time,
        chunks,
        headers: copy_headers(&baseline.headers),
    }
}

/// Records a progress notification of the task `id`, run by `handle`.
///
/// Returns whether a snapshot was written: none is while the size of the
/// file is unknown.
pub fn on_progress(
    registry: &mut GlobalWrappers,
    id: &str,
    baseline: &NalaiDownloadInfo,
    handle: DownloaderHandle,
    report: EngineReport,
) -> (written: bool)
    requires
        old(registry).well_formed(),
        baseline@.well_formed(),
        report@.well_formed(),
    ensures
        final(registry).well_formed(),
        final(registry)@ == after_progress(old(registry)@, id@, baseline@, handle, report@),
        written == report@.total_size.is_some(),
{
    match report.total_size {
        Some(total_size) => {
            let info = build_snapshot(baseline, report, total_size);
            registry.insert_to_global_wrappers(
                id.to_owned(),
                NalaiWrapper { downloader: Some(handle), info },
            );
            true
        },
        None => false,
    }
}

/// Records a change of the engine's state for the task `id`, run by
/// `handle`.
///
/// Returns whether the stream of states ends here: it does once the task
/// has finished or failed.
pub fn on_state_change(
    registry: &mut GlobalWrappers,
    id: &str,
    baseline: &NalaiDownloadInfo,
    handle: DownloaderHandle,
    report: EngineReport,
) -> (ended: bool)
    requires
        old(registry).well_formed(),
        baseline@.well_formed(),
        report@.well_formed(),
    ensures
        final(registry).well_formed(),
        final(registry)@ == after_state(old(registry)@, id@, baseline@, handle, report@),
        ended == report@.status.kind.is_terminal(),
{
    let total_size = match report.total_size {
        Some(total_size) => total_size,
        None => baseline.total_size,
    };
    let info = build_snapshot(baseline, report, total_size);
    let ended = match info.status.kind {
        StatusWrapperKind::Finished => true,
        StatusWrapperKind::Error => true,
        _ => false,
    };
    registry.insert_to_global_wrappers(
        id.to_owned(),
        NalaiWrapper { downloader: Some(handle), info },
    );
    ended
}

/// Records a speed notification for the task `id`.
///
/// Returns whether the registry holds the task.
pub fn on_speed(registry: &mut GlobalWrappers, id: &str, speed: u64) -> (known: bool)
    requires
        old(registry).well_formed(),
    ensures
        final(registry).well_formed(),
        final(registry)@ == after_speed(old(registry)@, id@, speed),
        known == old(registry)@.dom().contains(id@),
{
    match registry.get_wrapper_by_id(id) {
        Some(wrapper) => {
            let mut wrapper = wrapper;
            wrapper.info.speed = speed;
            registry.insert_to_global_wrappers(id.to_owned(), wrapper);
            true
        },
        None => false,
    }
}

/// Records `status` as the status with which the transfer of the task `id`
/// has ended. It stands whatever the stream of states reported last.
pub fn record_outcome(registry: &mut GlobalWrappers, id: &str, status: StatusWrapper, now: CreateTime)
    requires
        old(registry).well_formed(),
    ensures
        final(registry).well_formed(),
        final(registry)@ == after_outcome(old(registry)@, id@, status@, now),
{
    let mut wrapper = match registry.get_wrapper_by_id(id) {
        Some(wrapper) => wrapper,
        None => NalaiWrapper { downloader: None, info: NalaiDownloadInfo::new(now) },
    };
    wrapper.info.status = status;
    registry.insert_to_global_wrappers(id.to_owned(), wrapper);
}

/// Records the end of the transfer of the task `id`: finished, cancelled,
/// or failed.
pub fn on_download_end(
    registry: &mut GlobalWrappers,
    id: &str,
    outcome: Result<DownloadingEndCause, DownloadError>,
    now: CreateTime,
) -> (status: StatusWrapper)
    requires
        old(registry).well_formed(),
    ensures
        final(registry).well_formed(),
        status@ == outcome_status(outcome),
        final(registry)@ == after_outcome(old(registry)@, id@, outcome_status(outcome), now),
{
    let status = match outcome {
        Ok(cause) => convert_status(cause),
        Err(failure) => convert_status(failure),
    };
    record_outcome(registry, id, status.clone(), now);
    status
}

} // verus!
