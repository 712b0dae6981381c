//! Task registry and status aggregation for a multi-task download service.
//!
//! The crate keeps the directory of download tasks, folds the notifications
//! of the transfer engine into one snapshot per task, and decides which
//! lifecycle operation is admissible in which state. Transfers, storage and
//! the HTTP surface live outside of it and talk to it through plain values.

pub mod aggregator;
pub mod chunk_wrapper;
pub mod global_wrappers;
pub mod lifecycle;
pub mod nalai_download_info;
pub mod nalai_result;
pub mod nalai_wrapper;
pub mod request_headers;
pub mod status_conversion;
pub mod status_wrapper;
pub mod storage;
pub mod task_id;
