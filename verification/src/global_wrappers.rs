//! The registry: the directory of all tasks, by identifier.

use crate::nalai_download_info::{DownloadInfoView, NalaiDownloadInfo};
use crate::nalai_wrapper::{NalaiWrapper, WrapperView};
use vstd::prelude::*;

verus! {

/// No key stands twice in the list.
pub open spec fn distinct_keys<V>(entries: Seq<(Seq<char>, V)>) -> bool {
    forall|i: int, j: int| 0 <= i < j < entries.len() ==> entries[i].0 != entries[j].0
}

/// Some entry of the list stands under `key`.
pub open spec fn has_key<V>(entries: Seq<(Seq<char>, V)>, key: Seq<char>) -> bool {
    exists|i: int| 0 <= i < entries.len() && (#[trigger] entries[i]).0 == key
}

/// A place at which `key` stands in the list, where it stands in it at all.
pub open spec fn index_of_key<V>(entries: Seq<(Seq<char>, V)>, key: Seq<char>) -> int {
    choose|i: int| 0 <= i < entries.len() && (#[trigger] entries[i]).0 == key
}

/// The mapping that a list of keyed entries stands for.
pub open spec fn keyed_map<V>(entries: Seq<(Seq<char>, V)>) -> Map<Seq<char>, V> {
    Map::new(
        |key: Seq<char>| has_key(entries, key),
        |key: Seq<char>| entries[index_of_key(entries, key)].1,
    )
}

/// In a list without repeated keys each entry is what the mapping holds
/// under the entry's key, and the key stands at that place only.
pub proof fn lemma_keyed_lookup<V>(entries: Seq<(Seq<char>, V)>, i: int)
    requires
        distinct_keys(entries),
        0 <= i < entries.len(),
    ensures
        has_key(entries, entries[i].0),
        index_of_key(entries, entries[i].0) == i,
        keyed_map(entries).dom().contains(entries[i].0),
        keyed_map(entries)[entries[i].0] == entries[i].1,
{
    let key = entries[i].0;
    assert(entries[i].0 == key);
    let j = index_of_key(entries, key);
    assert(0 <= j < entries.len() && entries[j].0 == key);
    if i < j {
        assert(entries[i].0 != entries[j].0);
    } else if j < i {
        assert(entries[j].0 != entries[i].0);
    }
}

/// Putting a value under a key that the list holds, at the key's place, is
/// an insertion into the mapping.
pub proof fn lemma_keyed_update<V>(entries: Seq<(Seq<char>, V)>, i: int, value: V)
    requires
        distinct_keys(entries),
        0 <= i < entries.len(),
    ensures
        distinct_keys(entries.update(i, (entries[i].0, value))),
        keyed_map(entries.update(i, (entries[i].0, value))) == keyed_map(entries).insert(
            entries[i].0,
            value,
        ),
{
    let key = entries[i].0;
    let after = entries.update(i, (key, value));
    assert(distinct_keys(after)) by {
        assert forall|a: int, b: int| 0 <= a < b < after.len() implies after[a].0
            != after[b].0 by {
            assert(entries[a].0 != entries[b].0);
        }
    }
    assert forall|k: Seq<char>| has_key(after, k) <==> (k == key || has_key(entries, k)) by {
        if has_key(after, k) {
            let j = index_of_key(after, k);
            assert(entries[j].0 == k);
        }
        if has_key(entries, k) {
            let j = index_of_key(entries, k);
            assert(after[j].0 == k);
        }
        if k == key {
            assert(after[i].0 == k);
        }
    }
    assert forall|k: Seq<char>| has_key(after, k) implies #[trigger] keyed_map(after)[k]
        == keyed_map(entries).insert(key, value)[k] by {
        let j = index_of_key(after, k);
        lemma_keyed_lookup(after, j);
        lemma_keyed_lookup(entries, j);
    }
    assert(keyed_map(after) =~= keyed_map(entries).insert(key, value));
}

/// Appending an entry under a key that the list lacks is an insertion into
/// the mapping.
pub proof fn lemma_keyed_push<V>(entries: Seq<(Seq<char>, V)>, key: Seq<char>, value: V)
    requires
        distinct_keys(entries),
        !has_key(entries, key),
    ensures
        distinct_keys(entries.push((key, value))),
        keyed_map(entries.push((key, value))) == keyed_map(entries).insert(key, value),
{
    let after = entries.push((key, value));
    assert(distinct_keys(after)) by {
        assert forall|a: int, b: int| 0 <= a < b < after.len() implies after[a].0
            != after[b].0 by {
            if b < entries.len() {
                assert(entries[a].0 != entries[b].0);
            } else {
                assert(entries[a].0 != key);
            }
        }
    }
    assert forall|k: Seq<char>| has_key(after, k) <==> (k == key || has_key(entries, k)) by {
        if has_key(after, k) {
            let j = index_of_key(after, k);
            if j < entries.len() {
                assert(entries[j].0 == k);
            }
        }
        if has_key(entries, k) {
            let j = index_of_key(entries, k);
            assert(after[j].0 == k);
        }
        if k == key {
            assert(after[entries.len() as int].0 == k);
        }
    }
    assert forall|k: Seq<char>| has_key(after, k) implies #[trigger] keyed_map(after)[k]
        == keyed_map(entries).insert(key, value)[k] by {
        let j = index_of_key(after, k);
        lemma_keyed_lookup(after, j);
        if j < entries.len() {
            assert(entries[j].0 == k);
            lemma_keyed_lookup(entries, j);
        }
    }
    assert(keyed_map(after) =~= keyed_map(entries).insert(key, value));
}

/// Taking an entry out of the list takes its key out of the mapping.
pub proof fn lemma_keyed_remove<V>(entries: Seq<(Seq<char>, V)>, i: int)
    requires
        distinct_keys(entries),
        0 <= i < entries.len(),
    ensures
        distinct_keys(entries.remove(i)),
        keyed_map(entries.remove(i)) == keyed_map(entries).remove(entries[i].0),
{
    let key = entries[i].0;
    let after = entries.remove(i);
    assert(distinct_keys(after)) by {
        assert forall|a: int, b: int| 0 <= a < b < after.len() implies after[a].0
            != after[b].0 by {
            let before_a = if a < i { a } else { a + 1 };
            let before_b = if b < i { b } else { b + 1 };
            assert(entries[before_a].0 != entries[before_b].0);
        }
    }
    assert forall|k: Seq<char>| has_key(after, k) <==> (k != key && has_key(entries, k)) by {
        if has_key(after, k) {
            let j = index_of_key(after, k);
            let before_j = if j < i { j } else { j + 1 };
            assert(entries[before_j].0 == k);
            if before_j < i {
                assert(entries[before_j].0 != entries[i].0);
            } else {
                assert(entries[i].0 != entries[before_j].0);
            }
        }
        if k != key && has_key(entries, k) {
            let j = index_of_key(entries, k);
            let after_j = if j < i { j } else { j - 1 };
            assert(after[after_j].0 == k);
        }
    }
    assert forall|k: Seq<char>| has_key(after, k) implies #[trigger] keyed_map(after)[k]
        == keyed_map(entries).remove(key)[k] by {
        let j = index_of_key(after, k);
        let before_j = if j < i { j } else { j + 1 };
        lemma_keyed_lookup(after, j);
        assert(entries[before_j].0 == k);
        lemma_keyed_lookup(entries, before_j);
    }
    assert(keyed_map(after) =~= keyed_map(entries).remove(key));
}

/// Every listed snapshot is well-formed.
pub open spec fn snapshots_well_formed(entries: Seq<(Seq<char>, WrapperView)>) -> bool {
    forall|i: int| 0 <= i < entries.len() ==> (#[trigger] entries[i]).1.info.well_formed()
}

/// One task of the registry under its identifier.
struct Slot {
    id: String,
    wrapper: NalaiWrapper,
}

/// A task's identifier together with its snapshot.
#[derive(Debug)]
pub struct InfoRow {
    pub id: String,
    pub info: NalaiDownloadInfo,
}

impl View for InfoRow {
    type V = (Seq<char>, DownloadInfoView);

    open spec fn view(&self) -> (Seq<char>, DownloadInfoView) {
        (self.id@, self.info@)
    }
}

/// The rows of a list as pairs of identifier and snapshot.
pub open spec fn row_views(rows: Seq<InfoRow>) -> Seq<(Seq<char>, DownloadInfoView)> {
    rows.map_values(|row: InfoRow| row@)
}

/// The entries of a registry without their engine handles.
pub open spec fn without_handles(entries: Seq<(Seq<char>, WrapperView)>) -> Seq<
    (Seq<char>, DownloadInfoView),
> {
    entries.map_values(|entry: (Seq<char>, WrapperView)| (entry.0, entry.1.info))
}

/// The directory of all tasks. Each identifier names at most one task, and
/// the tasks keep the order in which their identifiers first came in.
pub struct GlobalWrappers {
    slots: Vec<Slot>,
}

impl View for GlobalWrappers {
    type V = Map<Seq<char>, WrapperView>;

    /// The tasks by identifier.
    open spec fn view(&self) -> Map<Seq<char>, WrapperView> {
        keyed_map(self.entries())
    }
}

impl GlobalWrappers {
    /// The tasks in the order in which the registry lists them.
    pub closed spec fn entries(&self) -> Seq<(Seq<char>, WrapperView)> {
        self.slots@.map_values(|slot: Slot| (slot.id@, slot.wrapper@))
    }

    /// No identifier names two tasks, and every snapshot is well-formed.
    pub open spec fn well_formed(&self) -> bool {
        distinct_keys(self.entries()) && snapshots_well_formed(self.entries())
    }

    /// Whatever task a well-formed registry holds has a well-formed
    /// snapshot.
    pub proof fn every_snapshot_is_well_formed(&self, id: Seq<char>)
        requires
            self.well_formed(),
            self@.dom().contains(id),
        ensures
            self@[id].info.well_formed(),
    {
        let i = index_of_key(self.entries(), id);
        assert(self.entries()[i].1.info.well_formed());
    }

    /// The snapshots by identifier.
    pub open spec fn infos(&self) -> Map<Seq<char>, DownloadInfoView> {
        keyed_map(without_handles(self.entries()))
    }

    /// A registry without tasks.
    pub fn new() -> (registry: Self)
        ensures
            registry.well_formed(),
            registry.entries() == Seq::<(Seq<char>, WrapperView)>::empty(),
            registry@ == Map::<Seq<char>, WrapperView>::empty(),
    {
        let registry = Self { slots: Vec::new() };
        assert(registry.entries() =~= Seq::empty());
        assert(registry@ =~= Map::empty());
        registry
    }

    /// The number of tasks.
    pub fn len(&self) -> (count: usize)
        ensures
            count == self.entries().len(),
    {
        self.slots.len()
    }

    /// The identifier that the registry lists at place `i`.
    pub fn id_at(&self, i: usize) -> (id: Option<&String>)
        ensures
            match id {
                Some(id) => i < self.entries().len() && id@ == self.entries()[i as int].0,
                None => i >= self.entries().len(),
            },
    {
        if i < self.slots.len() {
            Some(&self.slots[i].id)
        } else {
            None
        }
    }

    /// The task that the registry lists at place `i`.
    pub fn wrapper_at(&self, i: usize) -> (wrapper: Option<&NalaiWrapper>)
        ensures
            match wrapper {
                Some(wrapper) => i < self.entries().len() && wrapper@ == self.entries()[i as int].1,
                None => i >= self.entries().len(),
            },
    {
        if i < self.slots.len() {
            Some(&self.slots[i].wrapper)
        } else {
            None
        }
    }

    /// The place at which the registry lists `id`.
    fn position(&self, id: &str) -> (place: Option<usize>)
        requires
            self.well_formed(),
        ensures
            match place {
                Some(i) => i < self.entries().len() && self.entries()[i as int].0 == id@
                    && index_of_key(self.entries(), id@) == i,
                None => !has_key(self.entries(), id@),
            },
            place.is_some() == self@.dom().contains(id@),
    {
        let key = id.to_owned();
        let mut i: usize = 0;
        while i < self.slots.len()
            invariant
                i <= self.slots.len(),
                self.well_formed(),
                key@ == id@,
                forall|j: int| 0 <= j < i ==> self.entries()[j].0 != id@,
            decreases self.slots.len() - i,
        {
            if self.slots[i].id == key {
                proof {
                    lemma_keyed_lookup(self.entries(), i as int);
                }
                return Some(i);
            }
            i += 1;
        }
        None
    }

    /// The task that `id` names, where it names one.
    pub fn get_wrapper_by_id(&self, id: &str) -> (found: Option<NalaiWrapper>)
        requires
            self.well_formed(),
        ensures
            match found {
                Some(wrapper) => self@.dom().contains(id@) && wrapper@ == self@[id@]
                    && wrapper@.info.well_formed(),
                None => !self@.dom().contains(id@),
            },
    {
        match self.position(id) {
            Some(i) => {
                proof {
                    lemma_keyed_lookup(self.entries(), i as int);
                    assert(self.entries()[i as int].1.info.well_formed());
                }
                Some(self.slots[i].wrapper.clone())
            },
            None => None,
        }
    }

    /// The snapshot of the task that `id` names, where it names one.
    pub fn get_info(&self, id: &str) -> (found: Option<NalaiDownloadInfo>)
        requires
            self.well_formed(),
        ensures
            match found {
                Some(info) => self@.dom().contains(id@) && info@ == self@[id@].info
                    && info@.well_formed(),
                None => !self@.dom().contains(id@),
            },
    {
        match self.position(id) {
            Some(i) => {
                proof {
                    lemma_keyed_lookup(self.entries(), i as int);
                    assert(self.entries()[i as int].1.info.well_formed());
                }
                Some(self.slots[i].wrapper.info.clone())
            },
            None => None,
        }
    }

    /// Puts `wrapper` under `id`, in place of the task that stood there if
    /// there was one. Nothing of the earlier task is kept.
    pub fn insert_to_global_wrappers(&mut self, id: String, wrapper: NalaiWrapper)
        requires
            old(self).well_formed(),
            wrapper@.info.well_formed(),
        ensures
            final(self).well_formed(),
            final(self)@ == old(self)@.insert(id@, wrapper@),
            final(self).entries() == if has_key(old(self).entries(), id@) {
                old(self).entries().update(
                    index_of_key(old(self).entries(), id@),
                    (id@, wrapper@),
                )
            } else {
                old(self).entries().push((id@, wrapper@))
            },
    {
        let ghost before = self.entries();
        let ghost entry = (id@, wrapper@);
        match self.position(id.as_str()) {
            Some(i) => {
                self.slots.set(i, Slot { id, wrapper });
                proof {
                    assert(self.entries() =~= before.update(i as int, entry));
                    lemma_keyed_update(before, i as int, entry.1);
                    assert forall|j: int| 0 <= j < self.entries().len() implies (
                    #[trigger] self.entries()[j]).1.info.well_formed() by {
                        if j != i {
                            assert(before[j].1.info.well_formed());
                        }
                    }
                }
            },
            None => {
                self.slots.push(Slot { id, wrapper });
                proof {
                    assert(self.entries() =~= before.push(entry));
                    lemma_keyed_push(before, entry.0, entry.1);
                    assert forall|j: int| 0 <= j < self.entries().len() implies (
                    #[trigger] self.entries()[j]).1.info.well_formed() by {
                        if j < before.len() {
                            assert(before[j].1.info.well_formed());
                        }
                    }
                }
            },
        }
    }

    /// Takes the task that `id` names out of the registry and returns it.
    pub fn remove(&mut self, id: &str) -> (removed: Option<NalaiWrapper>)
        requires
            old(self).well_formed(),
        ensures
            final(self).well_formed(),
            final(self)@ == old(self)@.remove(id@),
            match removed {
                Some(wrapper) => old(self)@.dom().contains(id@) && wrapper@ == old(self)@[id@]
                    && wrapper@.info.well_formed(),
                None => !old(self)@.dom().contains(id@),
            },
            final(self).entries() == if has_key(old(self).entries(), id@) {
                old(self).entries().remove(index_of_key(old(self).entries(), id@))
            } else {
                old(self).entries()
            },
    {
        let ghost before = self.entries();
        match self.position(id) {
            Some(i) => {
                let slot = self.slots.remove(i);
                proof {
                    assert(self.entries() =~= before.remove(i as int));
                    lemma_keyed_lookup(before, i as int);
                    lemma_keyed_remove(before, i as int);
                    assert(before[i as int].1.info.well_formed());
                    assert forall|j: int| 0 <= j < self.entries().len() implies (
                    #[trigger] self.entries()[j]).1.info.well_formed() by {
                        let k = if j < i { j } else { j + 1 };
                        assert(before[k].1.info.well_formed());
                    }
                }
                Some(slot.wrapper)
            },
            None => {
                proof {
                    assert(self@ =~= old(self)@.remove(id@));
                }
                None
            },
        }
    }

    /// The snapshots of all tasks, each under its identifier, in the
    /// registry's order. No engine handle leaves the registry this way.
    pub fn get_all_info(&self) -> (rows: Vec<InfoRow>)
        requires
            self.well_formed(),
        ensures
            row_views(rows@) == without_handles(self.entries()),
            distinct_keys(row_views(rows@)),
            keyed_map(row_views(rows@)) == self.infos(),
            forall|i: int| 0 <= i < rows@.len() ==> (#[trigger] rows@[i])@.1.well_formed(),
    {
        let mut rows: Vec<InfoRow> = Vec::new();
        let mut i: usize = 0;
        while i < self.slots.len()
            invariant
                i <= self.slots.len(),
                row_views(rows@) == without_handles(self.entries()).take(i as int),
            decreases self.slots.len() - i,
        {
            let slot = &self.slots[i];
            let row = InfoRow { id: slot.id.clone(), info: slot.wrapper.info.clone() };
            rows.push(row);
            proof {
                let target = without_handles(self.entries());
                assert(row_views(rows@) =~= target.take(i as int).push(target[i as int]));
                assert(target.take(i + 1) =~= target.take(i as int).push(target[i as int]));
            }
            i += 1;
        }
        proof {
            let target = without_handles(self.entries());
            assert(target.take(i as int) =~= target);
            assert forall|a: int, b: int| 0 <= a < b < target.len() implies target[a].0
                != target[b].0 by {
                assert(self.entries()[a].0 != self.entries()[b].0);
            }
            assert forall|i: int| 0 <= i < rows@.len() implies (#[trigger] rows@[i])@.1.well_formed() by {
                assert(row_views(rows@)[i] == rows@[i]@);
                assert(self.entries()[i].1.info.well_formed());
            }
        }
        rows
    }
}

} // verus!
