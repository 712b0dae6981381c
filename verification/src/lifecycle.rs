//! Which lifecycle operation is admissible in which state, and what it asks
//! of the engine.
//!
//! The functions here decide, and register or remove the task where the
//! operation calls for it; whoever runs the engines carries the decision
//! out and reports what the engines answer.

use crate::global_wrappers::GlobalWrappers;
use crate::nalai_download_info::{
    distinct_names,
    header_views,
    CreateTime,
    DownloadInfoView,
    HeaderEntry,
    NalaiDownloadInfo,
};
use crate::nalai_wrapper::{DownloaderHandle, NalaiWrapper, WrapperView};
use crate::status_wrapper::{StatusView, StatusWrapper, StatusWrapperKind};
use crate::task_id::{base64_padded_len, base64_standard_encoding, resolve_id};
use vstd::prelude::*;
use vstd::string::StringExecFns;
use vstd::string::StringSliceAdditionalSpecFns;

verus! {

/// What a start request leads to.
#[derive(Debug, Clone, Copy, PartialEq, Eq, Structural)]
pub enum StartAction {
    /// An engine is to be set to work on the task.
    Spawn,
    /// The task is running already: nothing is to be done.
    AlreadyRunning,
    /// The task has finished: it cannot be started.
    Refused,
}

/// The answer to a start request: the task's identifier, and what is to be
/// done.
#[derive(Debug)]
pub struct StartPlan {
    pub id: String,
    pub action: StartAction,
}

/// What a start request for `id` leads to: a finished task refuses it, a
/// task that an engine is running ignores it, and any other task, known or
/// new, is set to work.
pub open spec fn start_action_for(tasks: Map<Seq<char>, WrapperView>, id: Seq<char>) -> StartAction {
    if !tasks.dom().contains(id) {
        StartAction::Spawn
    } else if tasks[id].info.status.kind == StatusWrapperKind::Finished {
        StartAction::Refused
    } else if tasks[id].downloader.is_some() && tasks[id].info.status.kind
        == StatusWrapperKind::Running {
        StartAction::AlreadyRunning
    } else {
        StartAction::Spawn
    }
}

/// The identifier under which a start request runs.
pub open spec fn resolved_id(id: Option<String>, file_path: &str) -> Seq<char> {
    match id {
        Some(named) => named@,
        None => base64_standard_encoding(file_path.spec_bytes()),
    }
}

/// Decides what a start request leads to for the task `id`.
pub fn start_task(registry: &GlobalWrappers, id: &str) -> (action: StartAction)
    requires
        registry.well_formed(),
    ensures
        action == start_action_for(registry@, id@),
{
    match registry.get_wrapper_by_id(id) {
        None => StartAction::Spawn,
        Some(wrapper) => {
            match wrapper.info.status.kind {
                StatusWrapperKind::Finished => StartAction::Refused,
                StatusWrapperKind::Running => {
                    if wrapper.downloader.is_some() {
                        StartAction::AlreadyRunning
                    } else {
                        StartAction::Spawn
                    }
                },
                _ => StartAction::Spawn,
            }
        },
    }
}

/// The engine that was built for a start request: its handle, and what it
/// was built with.
#[derive(Debug)]
pub struct EngineStart {
    pub handle: DownloaderHandle,
    pub url: String,
    pub save_dir: String,
    pub file_name: String,
    /// The request headers that the engine sends.
    pub headers: Vec<HeaderEntry>,
}

/// What an [`EngineStart`] says.
pub ghost struct EngineStartView {
    pub handle: DownloaderHandle,
    pub url: Seq<char>,
    pub save_dir: Seq<char>,
    pub file_name: Seq<char>,
    pub headers: Seq<(Seq<char>, Seq<char>)>,
}

impl View for EngineStart {
    type V = EngineStartView;

    open spec fn view(&self) -> EngineStartView {
        EngineStartView {
            handle: self.handle,
            url: self.url@,
            save_dir: self.save_dir@,
            file_name: self.file_name@,
            headers: header_views(self.headers@),
        }
    }
}

/// The task as it is registered when an engine is set to work on it. The
/// engine is attached and the task is shown as running; address,
/// destination, file name and headers are those of the engine. Everything
/// else is kept from the task that the registry holds under the
/// identifier, the time of creation and the chunks among it; a task that
/// the registry lacks starts blank, created now.
pub open spec fn registered_task(
    tasks: Map<Seq<char>, WrapperView>,
    id: Seq<char>,
    engine: EngineStartView,
    now: CreateTime,
) -> WrapperView {
    let known = if tasks.dom().contains(id) {
        tasks[id].info
    } else {
        DownloadInfoView::blank(now)
    };
    WrapperView {
        downloader: Some(engine.handle),
        info: DownloadInfoView {
            url: engine.url,
            save_dir: engine.save_dir,
            file_name: engine.file_name,
            headers: engine.headers,
            status: StatusView { kind: StatusWrapperKind::Running, message: None },
            ..known
        },
    }
}

/// The registry after a start request: where an engine is set to work the
/// task is registered, and otherwise nothing changes.
pub open spec fn after_start(
    tasks: Map<Seq<char>, WrapperView>,
    id: Seq<char>,
    engine: EngineStartView,
    now: CreateTime,
) -> Map<Seq<char>, WrapperView> {
    if start_action_for(tasks, id) == StartAction::Spawn {
        tasks.insert(id, registered_task(tasks, id, engine, now))
    } else {
        tasks
    }
}

/// Registers the task `id` as run by `engine`.
pub fn register_task(registry: &mut GlobalWrappers, id: &str, engine: EngineStart, now: CreateTime)
    requires
        old(registry).well_formed(),
        distinct_names(engine@.headers),
    ensures
        final(registry).well_formed(),
        final(registry)@ == old(registry)@.insert(
            id@,
            registered_task(old(registry)@, id@, engine@, now),
        ),
{
    let mut info = match registry.get_info(id) {
        Some(info) => info,
        None => NalaiDownloadInfo::new(now),
    };
    info.url = engine.url;
    info.save_dir = engine.save_dir;
    info.file_name = engine.file_name;
    info.headers = engine.headers;
    info.status = StatusWrapper::new(StatusWrapperKind::Running);
    registry.insert_to_global_wrappers(
        id.to_owned(),
        NalaiWrapper { downloader: Some(engine.handle), info },
    );
}

/// Answers a request to start the download that writes to `file_path`, for
/// which `engine` was built.
///
/// The task is the one that `id` names, or, where the caller names none,
/// the one that belongs to the destination. Where the answer is to set the
/// engine to work, the task is registered as run by it; a task that is
/// running already, or has finished, stays as it is, and the engine is not
/// to be used.
pub fn start_download(
    registry: &mut GlobalWrappers,
    id: Option<String>,
    file_path: &str,
    engine: EngineStart,
    now: CreateTime,
) -> (plan: StartPlan)
    requires
        old(registry).well_formed(),
        distinct_names(engine@.headers),
        id.is_none() ==> base64_padded_len(file_path.spec_bytes().len()) <= usize::MAX,
    ensures
        final(registry).well_formed(),
        plan.id@ == resolved_id(id, file_path),
        plan.action == start_action_for(old(registry)@, plan.id@),
        final(registry)@ == after_start(old(registry)@, plan.id@, engine@, now),
{
    let id = resolve_id(id, file_path);
    let action = start_task(registry, id.as_str());
    match action {
        StartAction::Spawn => {
            register_task(registry, id.as_str(), engine, now);
        },
        _ => {},
    }
    StartPlan { id, action }
}

/// What an engine needs to know to take a task up again.
#[derive(Debug)]
pub struct StartRequest {
    pub url: String,
    pub save_dir: String,
    pub file_name: Option<String>,
    pub id: String,
    pub headers: Vec<HeaderEntry>,
}

/// What a [`StartRequest`] says.
pub ghost struct StartRequestView {
    pub url: Seq<char>,
    pub save_dir: Seq<char>,
    pub file_name: Option<Seq<char>>,
    pub id: Seq<char>,
    pub headers: Seq<(Seq<char>, Seq<char>)>,
}

impl View for StartRequest {
    type V = StartRequestView;

    open spec fn view(&self) -> StartRequestView {
        StartRequestView {
            url: self.url@,
            save_dir: self.save_dir@,
            file_name: match self.file_name {
                Some(name) => Some(name@),
                None => None,
            },
            id: self.id@,
            headers: header_views(self.headers@),
        }
    }
}

/// The request that takes the task up again with everything as its
/// snapshot records it.
pub open spec fn restart_request(task: WrapperView, id: Seq<char>) -> StartRequestView {
    StartRequestView {
        url: task.info.url,
        save_dir: task.info.save_dir,
        file_name: Some(task.info.file_name),
        id,
        headers: task.info.headers,
    }
}

/// What a toggle asks for.
#[derive(Debug)]
pub enum ToggleAction {
    /// The task rests: it is to be started again.
    Start(StartRequest),
    /// The task is under way: its engine, where one is attached, is to be
    /// told to stop.
    Cancel(Option<DownloaderHandle>),
    /// The task has finished: nothing is to be done.
    Refused,
}

/// What a [`ToggleAction`] says.
pub ghost enum ToggleView {
    Start(StartRequestView),
    Cancel(Option<DownloaderHandle>),
    Refused,
}

impl View for ToggleAction {
    type V = ToggleView;

    open spec fn view(&self) -> ToggleView {
        match self {
            ToggleAction::Start(request) => ToggleView::Start(request@),
            ToggleAction::Cancel(handle) => ToggleView::Cancel(*handle),
            ToggleAction::Refused => ToggleView::Refused,
        }
    }
}

/// What a toggle on `task` asks for.
pub open spec fn toggle_for(task: WrapperView, id: Seq<char>) -> ToggleView {
    match task.info.status.kind {
        StatusWrapperKind::NoStart => ToggleView::Start(restart_request(task, id)),
        StatusWrapperKind::Error => ToggleView::Start(restart_request(task, id)),
        StatusWrapperKind::Running => ToggleView::Cancel(task.downloader),
        StatusWrapperKind::Pending => ToggleView::Cancel(task.downloader),
        StatusWrapperKind::Finished => ToggleView::Refused,
    }
}

impl ToggleAction {
    /// Whether the toggle was accepted, and whether the task runs after it.
    pub open spec fn reply_of(action: ToggleView) -> (bool, bool) {
        match action {
            ToggleView::Start(_) => (true, true),
            ToggleView::Cancel(_) => (true, false),
            ToggleView::Refused => (false, false),
        }
    }

    /// Whether the toggle was accepted, and whether the task runs after it.
    pub fn reply(&self) -> (answer: (bool, bool))
        ensures
            answer == Self::reply_of(self@),
    {
        match self {
            ToggleAction::Start(_) => (true, true),
            ToggleAction::Cancel(_) => (true, false),
            ToggleAction::Refused => (false, false),
        }
    }
}

/// The message for an identifier that names no task.
pub open spec fn no_such_id_message(id: Seq<char>) -> Seq<char> {
    "No such download id: "@ + id
}

fn no_such_id(id: &str) -> (message: String)
    ensures
        message@ == no_such_id_message(id@),
{
    String::from_str("No such download id: ").concat(id)
}

fn restart_of(wrapper: NalaiWrapper, id: &str) -> (request: StartRequest)
    ensures
        request@ == restart_request(wrapper@, id@),
{
    let NalaiWrapper { downloader: _, info } = wrapper;
    let NalaiDownloadInfo {
        downloaded_bytes: _,
        total_size: _,
        file_name,
        url,
        status: _,
        speed: _,
        save_dir,
        create_time: _,
        chunks: _,
        headers,
    } = info;
    StartRequest { url, save_dir, file_name: Some(file_name), id: id.to_owned(), headers }
}

/// Starts the task `id` where it rests and stops it where it is under way.
///
/// A task that has not started, was cancelled or has failed is started
/// again under the same identifier, with the address, the destination, the
/// file name and the headers of its snapshot. A running or pending task is
/// cancelled. A finished task refuses. An identifier that names no task is
/// an error. The registry stays as it is.
pub fn cancel_or_start_download(registry: &GlobalWrappers, id: &str) -> (decision: Result<
    ToggleAction,
    String,
>)
    requires
        registry.well_formed(),
    ensures
        match decision {
            Ok(action) => registry@.dom().contains(id@) && action@ == toggle_for(
                registry@[id@],
                id@,
            ),
            Err(message) => !registry@.dom().contains(id@) && message@ == no_such_id_message(id@),
        },
{
    match registry.get_wrapper_by_id(id) {
        None => Err(no_such_id(id)),
        Some(wrapper) => {
            match wrapper.info.status.kind {
                StatusWrapperKind::NoStart => Ok(ToggleAction::Start(restart_of(wrapper, id))),
                StatusWrapperKind::Error => Ok(ToggleAction::Start(restart_of(wrapper, id))),
                StatusWrapperKind::Running => Ok(ToggleAction::Cancel(wrapper.downloader)),
                StatusWrapperKind::Pending => Ok(ToggleAction::Cancel(wrapper.downloader)),
                StatusWrapperKind::Finished => Ok(ToggleAction::Refused),
            }
        },
    }
}

/// What a request to cancel leads to.
#[derive(Debug, Clone, Copy, PartialEq, Eq, Structural)]
pub enum CancelAction {
    /// The engine with this handle is to be told to stop.
    Signal(DownloaderHandle),
    /// No engine is attached: nothing is to be done.
    Nothing,
    /// The task has finished: it cannot be cancelled.
    Refused,
}

/// What a request to cancel `task` leads to.
pub open spec fn cancel_action_for(task: WrapperView) -> CancelAction {
    if task.info.status.kind == StatusWrapperKind::Finished {
        CancelAction::Refused
    } else {
        match task.downloader {
            Some(handle) => CancelAction::Signal(handle),
            None => CancelAction::Nothing,
        }
    }
}

/// Decides what a request to cancel the task `id` leads to. The registry
/// stays as it is: the task's status changes when its engine reports that
/// the transfer has ended.
pub fn cancel_download(registry: &GlobalWrappers, id: &str) -> (decision: Result<
    CancelAction,
    String,
>)
    requires
        registry.well_formed(),
    ensures
        match decision {
            Ok(action) => registry@.dom().contains(id@) && action == cancel_action_for(
                registry@[id@],
            ),
            Err(message) => !registry@.dom().contains(id@) && message@ == no_such_id_message(id@),
        },
{
    match registry.get_wrapper_by_id(id) {
        None => Err(no_such_id(id)),
        Some(wrapper) => {
            match wrapper.info.status.kind {
                StatusWrapperKind::Finished => Ok(CancelAction::Refused),
                _ => match wrapper.downloader {
                    Some(handle) => Ok(CancelAction::Signal(handle)),
                    None => Ok(CancelAction::Nothing),
                },
            }
        },
    }
}

/// Whether a task is under way: running, or waiting to.
pub open spec fn is_under_way(kind: StatusWrapperKind) -> bool {
    kind == StatusWrapperKind::Running || kind == StatusWrapperKind::Pending
}

/// The engines that are at work on the listed tasks, in the order of the
/// list.
pub open spec fn engines_at_work(entries: Seq<(Seq<char>, WrapperView)>) -> Seq<DownloaderHandle>
    decreases entries.len(),
{
    if entries.len() == 0 {
        Seq::empty()
    } else {
        let earlier = engines_at_work(entries.drop_last());
        let task = entries.last().1;
        if task.downloader.is_some() && is_under_way(task.info.status.kind) {
            earlier.push(task.downloader.unwrap())
        } else {
            earlier
        }
    }
}

/// Lists the engines that are to be told to stop when all downloads are
/// cancelled: those of the tasks that are running or pending.
pub fn cancel_all_downloads(registry: &GlobalWrappers) -> (handles: Vec<DownloaderHandle>)
    ensures
        handles@ == engines_at_work(registry.entries()),
{
    let mut handles: Vec<DownloaderHandle> = Vec::new();
    let count = registry.len();
    let mut i: usize = 0;
    while i < count
        invariant
            i <= count,
            count == registry.entries().len(),
            handles@ == engines_at_work(registry.entries().take(i as int)),
        decreases count - i,
    {
        proof {
            assert(registry.entries().take(i + 1).drop_last() == registry.entries().take(i as int));
        }
        match registry.wrapper_at(i) {
            Some(wrapper) => {
                let under_way = match wrapper.info.status.kind {
                    StatusWrapperKind::Running => true,
                    StatusWrapperKind::Pending => true,
                    _ => false,
                };
                match wrapper.downloader {
                    Some(handle) => {
                        if under_way {
                            handles.push(handle);
                        }
                    },
                    None => {},
                }
            },
            None => {},
        }
        i += 1;
    }
    assert(registry.entries().take(i as int) == registry.entries());
    handles
}

/// What a request to delete has done.
#[derive(Debug, Clone, Copy, PartialEq, Eq, Structural)]
pub enum DeleteOutcome {
    /// The identifier names no task: nothing has changed and nothing is to
    /// be done.
    NotFound,
    /// The task has left the registry. Its engine, where one was attached,
    /// is to be told to stop, and its row is to leave the store.
    Deleted(Option<DownloaderHandle>),
}

impl DeleteOutcome {
    /// Whether a task was deleted.
    pub fn found(&self) -> (found: bool)
        ensures
            found == (*self != DeleteOutcome::NotFound),
    {
        match self {
            DeleteOutcome::NotFound => false,
            DeleteOutcome::Deleted(_) => true,
        }
    }
}

/// Deletes the task `id`, whatever its state.
pub fn delete_download(registry: &mut GlobalWrappers, id: &str) -> (outcome: DeleteOutcome)
    requires
        old(registry).well_formed(),
    ensures
        final(registry).well_formed(),
        match outcome {
            DeleteOutcome::NotFound => !old(registry)@.dom().contains(id@) && final(registry)@
                == old(registry)@ && final(registry).entries() == old(registry).entries(),
            DeleteOutcome::Deleted(handle) => old(registry)@.dom().contains(id@) && handle == old(
                registry,
            )@[id@].downloader && final(registry)@ == old(registry)@.remove(id@),
        },
{
    match registry.remove(id) {
        Some(wrapper) => DeleteOutcome::Deleted(wrapper.downloader),
        None => {
            proof {
                assert(registry@ =~= old(registry)@);
            }
            DeleteOutcome::NotFound
        },
    }
}

/// A toggle does what a start or a cancel would do: it starts exactly the
/// tasks that a start request sets to work, and where it cancels it names
/// the engine that a cancel request names.
pub proof fn toggle_agrees_with_start_and_cancel(tasks: Map<Seq<char>, WrapperView>, id: Seq<char>)
    requires
        tasks.dom().contains(id),
    ensures
        toggle_for(tasks[id], id) is Start ==> start_action_for(tasks, id) == StartAction::Spawn,
        toggle_for(tasks[id], id) is Refused <==> start_action_for(tasks, id)
            == StartAction::Refused,
        toggle_for(tasks[id], id) is Refused <==> cancel_action_for(tasks[id])
            == CancelAction::Refused,
        forall|handle: DownloaderHandle|
            toggle_for(tasks[id], id) == ToggleView::Cancel(Some(handle)) ==> cancel_action_for(
                tasks[id],
            ) == CancelAction::Signal(handle),
        toggle_for(tasks[id], id) == ToggleView::Cancel(None) ==> cancel_action_for(tasks[id])
            == CancelAction::Nothing,
{
}

/// A task that an engine is running ignores a start request: nothing is
/// set to work and the registry stays as it is, with the one task under the
/// identifier.
pub proof fn running_task_ignores_start(
    tasks: Map<Seq<char>, WrapperView>,
    id: Seq<char>,
    engine: EngineStartView,
    now: CreateTime,
)
    requires
        tasks.dom().contains(id),
        tasks[id].downloader.is_some(),
        tasks[id].info.status.kind == StatusWrapperKind::Running,
    ensures
        start_action_for(tasks, id) == StartAction::AlreadyRunning,
        after_start(tasks, id, engine, now) == tasks,
{
}

/// A start that sets an engine to work leaves the task running under that
/// engine, so that a second start for the same task is ignored; and it
/// keeps the time of creation of a task that the registry held.
pub proof fn started_task_is_running(
    tasks: Map<Seq<char>, WrapperView>,
    id: Seq<char>,
    engine: EngineStartView,
    now: CreateTime,
)
    requires
        start_action_for(tasks, id) == StartAction::Spawn,
    ensures
        after_start(tasks, id, engine, now).dom().contains(id),
        start_action_for(after_start(tasks, id, engine, now), id) == StartAction::AlreadyRunning,
        after_start(tasks, id, engine, now)[id].info.headers == engine.headers,
        tasks.dom().contains(id) ==> after_start(tasks, id, engine, now)[id].info.create_time
            == tasks[id].info.create_time,
        forall|other: Seq<char>|
            other != id ==> (after_start(tasks, id, engine, now).dom().contains(other)
                <==> tasks.dom().contains(other)),
{
}

/// A finished task refuses to be started, to be cancelled and to be
/// toggled.
pub proof fn finished_task_refuses(tasks: Map<Seq<char>, WrapperView>, id: Seq<char>)
    requires
        tasks.dom().contains(id),
        tasks[id].info.status.kind == StatusWrapperKind::Finished,
    ensures
        start_action_for(tasks, id) == StartAction::Refused,
        cancel_action_for(tasks[id]) == CancelAction::Refused,
        toggle_for(tasks[id], id) == ToggleView::Refused,
        ToggleAction::reply_of(toggle_for(tasks[id], id)) == (false, false),
        forall|engine: EngineStartView, now: CreateTime|
            #[trigger] after_start(tasks, id, engine, now) == tasks,
{
}

/// A task that has failed is taken up again under its own identifier, with
/// the address, the destination and the headers that its snapshot records.
pub proof fn failed_task_restarts_as_recorded(task: WrapperView, id: Seq<char>)
    requires
        task.info.status.kind == StatusWrapperKind::Error,
    ensures
        toggle_for(task, id) == ToggleView::Start(
            StartRequestView {
                url: task.info.url,
                save_dir: task.info.save_dir,
                file_name: Some(task.info.file_name),
                id,
                headers: task.info.headers,
            },
        ),
        start_action_for(Map::empty().insert(id, task), id) == StartAction::Spawn,
{
}

} // verus!
