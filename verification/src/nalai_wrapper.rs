//! A task as the registry holds it.

use crate::nalai_download_info::{DownloadInfoView, NalaiDownloadInfo};
use vstd::prelude::*;

verus! {

/// Names the engine instance that runs a task while the instance is in
/// memory. The instances themselves are kept by whoever runs them.
#[derive(Debug, Clone, Copy, PartialEq, Eq, Structural)]
pub struct DownloaderHandle {
    pub slot: u64,
}

/// A task: the engine that runs it, while there is one, and its snapshot.
#[derive(Debug)]
pub struct NalaiWrapper {
    pub downloader: Option<DownloaderHandle>,
    pub info: NalaiDownloadInfo,
}

/// What a [`NalaiWrapper`] says.
pub ghost struct WrapperView {
    pub downloader: Option<DownloaderHandle>,
    pub info: DownloadInfoView,
}

impl View for NalaiWrapper {
    type V = WrapperView;

    open spec fn view(&self) -> WrapperView {
        WrapperView { downloader: self.downloader, info: self.info@ }
    }
}

impl Clone for NalaiWrapper {
    fn clone(&self) -> (copy: Self)
        ensures
            copy@ == self@,
    {
        Self { downloader: self.downloader, info: self.info.clone() }
    }
}

} // verus!
