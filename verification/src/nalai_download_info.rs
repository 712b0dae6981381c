//! The snapshot of a task that the service shows and stores.

use crate::chunk_wrapper::{all_well_formed, strictly_ascending, ChunkWrapper};
use crate::status_wrapper::{StatusView, StatusWrapper, StatusWrapperKind};
use vstd::prelude::*;

verus! {

/// A point in time, counted from the Unix epoch.
#[derive(Debug, Clone, Copy, PartialEq, Eq, Structural)]
pub struct CreateTime {
    pub secs_since_epoch: u64,
    pub nanos_since_epoch: u32,
}

/// Reads the clock: calls `std::time::SystemTime::now` and counts from
/// `UNIX_EPOCH`; a clock that stands before the epoch reads as the epoch.
///
/// Trusted, and nothing is claimed of the time that comes back.
#[verifier::external_body]
fn current_time() -> CreateTime {
    let elapsed = std::time::SystemTime::now().duration_since(
        std::time::UNIX_EPOCH,
    ).unwrap_or_default();
    CreateTime { secs_since_epoch: elapsed.as_secs(), nanos_since_epoch: elapsed.subsec_nanos() }
}

/// One request header: its name and its value.
#[derive(Debug)]
pub struct HeaderEntry {
    pub name: String,
    pub value: String,
}

impl View for HeaderEntry {
    type V = (Seq<char>, Seq<char>);

    open spec fn view(&self) -> (Seq<char>, Seq<char>) {
        (self.name@, self.value@)
    }
}

impl Clone for HeaderEntry {
    fn clone(&self) -> (copy: Self)
        ensures
            copy == *self,
    {
        Self { name: self.name.clone(), value: self.value.clone() }
    }
}

/// The headers of a list as pairs of name and value.
pub open spec fn header_views(headers: Seq<HeaderEntry>) -> Seq<(Seq<char>, Seq<char>)> {
    headers.map_values(|header: HeaderEntry| header@)
}

/// No header name stands twice in the list.
pub open spec fn distinct_names(headers: Seq<(Seq<char>, Seq<char>)>) -> bool {
    forall|i: int, j: int| 0 <= i < j < headers.len() ==> headers[i].0 != headers[j].0
}

/// Everything the service knows of one task at one instant.
#[derive(Debug)]
pub struct NalaiDownloadInfo {
    pub downloaded_bytes: u64,
    pub total_size: u64,
    pub file_name: String,
    pub url: String,
    pub status: StatusWrapper,
    pub speed: u64,
    pub save_dir: String,
    pub create_time: CreateTime,
    pub chunks: Vec<ChunkWrapper>,
    pub headers: Vec<HeaderEntry>,
}

/// What a [`NalaiDownloadInfo`] says.
pub ghost struct DownloadInfoView {
    pub downloaded_bytes: u64,
    pub total_size: u64,
    pub file_name: Seq<char>,
    pub url: Seq<char>,
    pub status: StatusView,
    pub speed: u64,
    pub save_dir: Seq<char>,
    pub create_time: CreateTime,
    pub chunks: Seq<ChunkWrapper>,
    pub headers: Seq<(Seq<char>, Seq<char>)>,
}

impl DownloadInfoView {
    /// The snapshot of a task of which nothing is known but when it was
    /// created.
    pub open spec fn blank(create_time: CreateTime) -> DownloadInfoView {
        DownloadInfoView {
            downloaded_bytes: 0,
            total_size: 1,
            file_name: Seq::empty(),
            url: Seq::empty(),
            status: StatusView { kind: StatusWrapperKind::NoStart, message: None },
            speed: 0,
            save_dir: Seq::empty(),
            create_time,
            chunks: Seq::empty(),
            headers: Seq::empty(),
        }
    }

    /// The total size is positive; the chunks stand in ascending order of
    /// index with no index twice, and none holds more bytes than its size;
    /// no header name stands twice.
    pub open spec fn well_formed(self) -> bool {
        &&& self.total_size > 0
        &&& strictly_ascending(self.chunks)
        &&& all_well_formed(self.chunks)
        &&& distinct_names(self.headers)
    }
}

impl View for NalaiDownloadInfo {
    type V = DownloadInfoView;

    open spec fn view(&self) -> DownloadInfoView {
        DownloadInfoView {
            downloaded_bytes: self.downloaded_bytes,
            total_size: self.total_size,
            file_name: self.file_name@,
            url: self.url@,
            status: self.status@,
            speed: self.speed,
            save_dir: self.save_dir@,
            create_time: self.create_time,
            chunks: self.chunks@,
            headers: header_views(self.headers@),
        }
    }
}

/// A copy of a chunk list.
pub fn copy_chunks(chunks: &Vec<ChunkWrapper>) -> (copy: Vec<ChunkWrapper>)
    ensures
        copy@ == chunks@,
{
    let mut copy: Vec<ChunkWrapper> = Vec::new();
    let mut i: usize = 0;
    while i < chunks.len()
        invariant
            i <= chunks.len(),
            copy@ == chunks@.take(i as int),
        decreases chunks.len() - i,
    {
        copy.push(chunks[i]);
        proof {
            assert(chunks@.take(i + 1) == chunks@.take(i as int).push(chunks@[i as int]));
        }
        i += 1;
    }
    assert(chunks@.take(i as int) == chunks@);
    copy
}

/// A copy of a header list.
pub fn copy_headers(headers: &Vec<HeaderEntry>) -> (copy: Vec<HeaderEntry>)
    ensures
        copy@ == headers@,
        header_views(copy@) == header_views(headers@),
{
    let mut copy: Vec<HeaderEntry> = Vec::new();
    let mut i: usize = 0;
    while i < headers.len()
        invariant
            i <= headers.len(),
            copy@ == headers@.take(i as int),
        decreases headers.len() - i,
    {
        copy.push(headers[i].clone());
        proof {
            assert(headers@.take(i + 1) == headers@.take(i as int).push(headers@[i as int]));
        }
        i += 1;
    }
    assert(headers@.take(i as int) == headers@);
    copy
}

/// Whether the chunks stand in ascending order of index with no index twice.
pub fn chunks_ascend(chunks: &Vec<ChunkWrapper>) -> (ascending: bool)
    ensures
        ascending == strictly_ascending(chunks@),
{
    if chunks.len() < 2 {
        return true;
    }
    let mut i: usize = 1;
    while i < chunks.len()
        invariant
            1 <= i <= chunks.len(),
            forall|a: int, b: int| 0 <= a < b < i ==> chunks[a].index < chunks[b].index,
        decreases chunks.len() - i,
    {
        if chunks[i - 1].index >= chunks[i].index {
            return false;
        }
        proof {
            assert forall|a: int, b: int| 0 <= a < b < i + 1 implies chunks[a].index
                < chunks[b].index by {
                if b == i && a < i - 1 {
                    assert(chunks[a].index < chunks[i - 1].index);
                }
            }
        }
        i += 1;
    }
    true
}

/// Whether no chunk of the list holds more bytes than its size.
pub fn chunks_are_well_formed(chunks: &Vec<ChunkWrapper>) -> (valid: bool)
    ensures
        valid == all_well_formed(chunks@),
{
    let mut i: usize = 0;
    while i < chunks.len()
        invariant
            i <= chunks.len(),
            forall|a: int| 0 <= a < i ==> (#[trigger] chunks[a]).well_formed(),
        decreases chunks.len() - i,
    {
        if !chunks[i].is_well_formed() {
            return false;
        }
        i += 1;
    }
    true
}

/// Whether no header name stands twice in the list.
pub fn names_are_distinct(headers: &Vec<HeaderEntry>) -> (distinct: bool)
    ensures
        distinct == distinct_names(header_views(headers@)),
{
    let ghost views = header_views(headers@);
    let mut j: usize = 0;
    while j < headers.len()
        invariant
            j <= headers.len(),
            views == header_views(headers@),
            forall|a: int, b: int| 0 <= a < b < j ==> views[a].0 != views[b].0,
        decreases headers.len() - j,
    {
        let mut i: usize = 0;
        while i < j
            invariant
                i <= j < headers.len(),
                views == header_views(headers@),
                forall|a: int| 0 <= a < i ==> views[a].0 != views[j as int].0,
            decreases j - i,
        {
            if headers[i].name == headers[j].name {
                assert(views[i as int].0 == views[j as int].0);
                return false;
            }
            i += 1;
        }
        j += 1;
    }
    true
}

impl NalaiDownloadInfo {
    /// The snapshot of a task of which nothing is known but when it was
    /// created.
    pub fn new(create_time: CreateTime) -> (info: Self)
        ensures
            info@ == DownloadInfoView::blank(create_time),
            info@.well_formed(),
    {
        let info = Self {
            downloaded_bytes: 0,
            total_size: 1,
            file_name: String::new(),
            url: String::new(),
            status: StatusWrapper::default(),
            speed: 0,
            save_dir: String::new(),
            create_time,
            chunks: Vec::new(),
            headers: Vec::new(),
        };
        assert(header_views(info.headers@) =~= Seq::empty());
        info
    }

    /// Whether the snapshot is one that the service may hold.
    pub fn is_well_formed(&self) -> (valid: bool)
        ensures
            valid == self@.well_formed(),
    {
        self.total_size > 0 && chunks_ascend(&self.chunks) && chunks_are_well_formed(
            &self.chunks,
        ) && names_are_distinct(&self.headers)
    }
}

impl Default for NalaiDownloadInfo {
    /// The snapshot of a task of which nothing is known, created now.
    fn default() -> (info: Self)
        ensures
            info@ == DownloadInfoView::blank(info@.create_time),
            info@.well_formed(),
    {
        Self::new(current_time())
    }
}

impl Clone for NalaiDownloadInfo {
    fn clone(&self) -> (copy: Self)
        ensures
            copy@ == self@,
    {
        Self {
            downloaded_bytes: self.downloaded_bytes,
            total_size: self.total_size,
            file_name: self.file_name.clone(),
            url: self.url.clone(),
            status: self.status.clone(),
            speed: self.speed,
            save_dir: self.save_dir.clone(),
            create_time: self.create_time,
            chunks: copy_chunks(&self.chunks),
            headers: copy_headers(&self.headers),
        }
    }
}

} // verus!
