//! What crosses between the registry and the durable store.
//!
//! The store holds one row per task: the identifier as UTF-8 bytes, and the
//! snapshot in serialised form. Reading and writing the store, and turning
//! snapshots into bytes and back, is the caller's part; which rows enter
//! the registry is decided here. The rows to write are the registry's
//! listing of all snapshots.

use crate::global_wrappers::{
    distinct_keys,
    has_key,
    keyed_map,
    lemma_keyed_push,
    snapshots_well_formed,
    without_handles,
    GlobalWrappers,
};
use crate::nalai_download_info::{DownloadInfoView, NalaiDownloadInfo};
use crate::nalai_wrapper::{NalaiWrapper, WrapperView};
use vstd::prelude::*;
use vstd::utf8::{
    decode_utf8,
    encode_utf8,
    encode_utf8_decode_utf8,
    encode_utf8_valid_utf8,
    valid_utf8,
};

verus! {

/// A row as it comes out of the store: the key, and the snapshot that the
/// value held, where the value could be read as one.
#[derive(Debug)]
pub struct StoredRow {
    pub key: Vec<u8>,
    pub info: Option<NalaiDownloadInfo>,
}

/// What a [`StoredRow`] says.
pub ghost struct StoredRowView {
    pub key: Seq<u8>,
    pub info: Option<DownloadInfoView>,
}

impl View for StoredRow {
    type V = StoredRowView;

    open spec fn view(&self) -> StoredRowView {
        StoredRowView {
            key: self.key@,
            info: match self.info {
                Some(info) => Some(info@),
                None => None,
            },
        }
    }
}

/// The rows of a list by what they say.
pub open spec fn stored_views(rows: Seq<StoredRow>) -> Seq<StoredRowView> {
    rows.map_values(|row: StoredRow| row@)
}

/// The task that a row stands for: none where the key is no UTF-8 text,
/// where the value could not be read, or where what was read is no
/// well-formed snapshot. A task that comes from the store has no engine.
pub open spec fn task_of_row(row: StoredRowView) -> Option<(Seq<char>, WrapperView)> {
    match row.info {
        Some(info) => if valid_utf8(row.key) && info.well_formed() {
            Some((decode_utf8(row.key), WrapperView { downloader: None, info }))
        } else {
            None
        },
        None => None,
    }
}

/// The registry after the rows have been loaded in their order: each row
/// that stands for a task puts it under its identifier, the others are
/// skipped.
pub open spec fn after_load(tasks: Map<Seq<char>, WrapperView>, rows: Seq<StoredRowView>) -> Map<
    Seq<char>,
    WrapperView,
>
    decreases rows.len(),
{
    if rows.len() == 0 {
        tasks
    } else {
        let earlier = after_load(tasks, rows.drop_last());
        match task_of_row(rows.last()) {
            Some((id, task)) => earlier.insert(id, task),
            None => earlier,
        }
    }
}

/// The rows under which a listing of snapshots stands in the store: the
/// identifier as UTF-8 bytes, and the snapshot.
pub open spec fn rows_of(listing: Seq<(Seq<char>, DownloadInfoView)>) -> Seq<StoredRowView> {
    listing.map_values(
        |entry: (Seq<char>, DownloadInfoView)|
            StoredRowView { key: encode_utf8(entry.0), info: Some(entry.1) },
    )
}

/// The listed tasks with no engine attached.
pub open spec fn without_engines(entries: Seq<(Seq<char>, WrapperView)>) -> Seq<
    (Seq<char>, WrapperView),
> {
    entries.map_values(
        |entry: (Seq<char>, WrapperView)|
            (entry.0, WrapperView { downloader: None, info: entry.1.info }),
    )
}

/// What was stored comes back: loading the rows of a registry's listing
/// into an empty registry gives every task of the listing, with the
/// snapshot it had and no engine.
pub proof fn reload_restores(entries: Seq<(Seq<char>, WrapperView)>)
    requires
        distinct_keys(entries),
        snapshots_well_formed(entries),
    ensures
        after_load(Map::empty(), rows_of(without_handles(entries))) == keyed_map(
            without_engines(entries),
        ),
        distinct_keys(without_engines(entries)),
    decreases entries.len(),
{
    let rows = rows_of(without_handles(entries));
    let restored = without_engines(entries);
    assert(distinct_keys(restored)) by {
        assert forall|a: int, b: int| 0 <= a < b < restored.len() implies restored[a].0
            != restored[b].0 by {
            assert(entries[a].0 != entries[b].0);
        }
    }
    if entries.len() == 0 {
        assert(keyed_map(restored) =~= Map::empty());
    } else {
        let front = entries.drop_last();
        let last = entries.last();
        let task = WrapperView { downloader: None, info: last.1.info };
        assert(distinct_keys(front)) by {
            assert forall|a: int, b: int| 0 <= a < b < front.len() implies front[a].0
                != front[b].0 by {
                assert(entries[a].0 != entries[b].0);
            }
        }
        assert(snapshots_well_formed(front)) by {
            assert forall|i: int| 0 <= i < front.len() implies (
            #[trigger] front[i]).1.info.well_formed() by {
                assert(entries[i].1.info.well_formed());
            }
        }
        reload_restores(front);
        assert(rows.drop_last() =~= rows_of(without_handles(front)));
        assert(rows.last() == StoredRowView { key: encode_utf8(last.0), info: Some(last.1.info) });
        encode_utf8_valid_utf8(last.0);
        encode_utf8_decode_utf8(last.0);
        assert(last.1.info.well_formed()) by {
            assert(entries[entries.len() - 1].1.info.well_formed());
        }
        assert(task_of_row(rows.last()) == Some((last.0, task)));
        let earlier = without_engines(front);
        assert(!has_key(earlier, last.0)) by {
            if has_key(earlier, last.0) {
                let i = choose|i: int| 0 <= i < earlier.len() && (#[trigger] earlier[i]).0 == last.0;
                assert(entries[i].0 != entries[entries.len() - 1].0);
            }
        }
        lemma_keyed_push(earlier, last.0, task);
        assert(restored =~= earlier.push((last.0, task)));
    }
}

/// Whatever the rows hold, every task that a load into an empty registry
/// brings has a well-formed snapshot and no engine.
pub proof fn loaded_tasks_have_no_engine(rows: Seq<StoredRowView>, id: Seq<char>)
    requires
        after_load(Map::empty(), rows).dom().contains(id),
    ensures
        after_load(Map::empty(), rows)[id].downloader.is_none(),
        after_load(Map::empty(), rows)[id].info.well_formed(),
    decreases rows.len(),
{
    if rows.len() > 0 {
        let earlier = after_load(Map::empty(), rows.drop_last());
        if earlier.dom().contains(id) {
            loaded_tasks_have_no_engine(rows.drop_last(), id);
        }
    }
}

/// Calls `String::from_utf8`.
///
/// Trusted: the call succeeds exactly on valid UTF-8, and the text is the
/// one that the bytes encode.
#[verifier::external_body]
fn text_of_utf8(bytes: Vec<u8>) -> (text: Option<String>)
    ensures
        text.is_some() == valid_utf8(bytes@),
        match text {
            Some(text) => text@ == decode_utf8(bytes@),
            None => true,
        },
{
    String::from_utf8(bytes).ok()
}

/// Reads one row: the identifier and the task it stands for, if any.
pub fn read_row(row: &StoredRow) -> (task: Option<(String, NalaiWrapper)>)
    ensures
        match task {
            Some((id, wrapper)) => task_of_row(row@) == Some((id@, wrapper@))
                && wrapper@.info.well_formed(),
            None => task_of_row(row@).is_none(),
        },
{
    match &row.info {
        None => None,
        Some(info) => {
            if !info.is_well_formed() {
                return None;
            }
            let key = row.key.clone();
            assert(key@ =~= row.key@);
            match text_of_utf8(key) {
                Some(id) => Some((id, NalaiWrapper { downloader: None, info: info.clone() })),
                None => None,
            }
        },
    }
}

/// Loads the rows of the store into the registry. A row that cannot be read
/// is skipped and does not stop the load.
pub fn load_global_wrappers(registry: &mut GlobalWrappers, rows: &Vec<StoredRow>)
    requires
        old(registry).well_formed(),
    ensures
        final(registry).well_formed(),
        final(registry)@ == after_load(old(registry)@, stored_views(rows@)),
{
    let ghost views = stored_views(rows@);
    let mut i: usize = 0;
    assert(views.take(0) =~= Seq::<StoredRowView>::empty());
    while i < rows.len()
        invariant
            i <= rows.len(),
            views == stored_views(rows@),
            registry.well_formed(),
            registry@ == after_load(old(registry)@, views.take(i as int)),
        decreases rows.len() - i,
    {
        proof {
            assert(views.take(i + 1).drop_last() == views.take(i as int));
            assert(views.take(i + 1).last() == rows@[i as int]@);
        }
        match read_row(&rows[i]) {
            Some((id, wrapper)) => {
                registry.insert_to_global_wrappers(id, wrapper);
            },
            None => {},
        }
        i += 1;
    }
    assert(views.take(i as int) == views);
}

} // verus!
