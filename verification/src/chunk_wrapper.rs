//! Chunk progress records and the merge of two observations of them.

use vstd::prelude::*;

verus! {

/// Progress of one independently fetched sub-range of a file.
///
/// A chunk is identified by its `index`, which stays the same across
/// observations and across restarts of the task it belongs to.
#[derive(Debug, Clone, Copy, PartialEq, Eq, Structural)]
pub struct ChunkWrapper {
    pub index: usize,
    pub size: u64,
    pub downloaded_bytes: u64,
}

impl ChunkWrapper {
    /// A chunk never holds more bytes than its size.
    pub open spec fn well_formed(&self) -> bool {
        self.downloaded_bytes <= self.size
    }

    /// Whether the chunk holds no more bytes than its size.
    pub fn is_well_formed(&self) -> (valid: bool)
        ensures
            valid == self.well_formed(),
    {
        self.downloaded_bytes <= self.size
    }

    /// Creates a new [`ChunkWrapper`].
    pub fn new(index: usize, size: u64, downloaded_bytes: u64) -> (chunk: Self)
        ensures
            chunk.index == index,
            chunk.size == size,
            chunk.downloaded_bytes == downloaded_bytes,
    {
        Self { index, size, downloaded_bytes }
    }
}

/// No chunk of the list holds more bytes than its size.
pub open spec fn all_well_formed(chunks: Seq<ChunkWrapper>) -> bool {
    forall|i: int| 0 <= i < chunks.len() ==> (#[trigger] chunks[i]).well_formed()
}

/// The indices grow strictly from each entry to the next: the list is sorted
/// and names no index twice.
pub open spec fn strictly_ascending(chunks: Seq<ChunkWrapper>) -> bool {
    forall|i: int, j: int| 0 <= i < j < chunks.len() ==> chunks[i].index < chunks[j].index
}

/// Some entry of the list carries `index`.
pub open spec fn has_index(chunks: Seq<ChunkWrapper>, index: usize) -> bool {
    exists|i: int| 0 <= i < chunks.len() && #[trigger] chunks[i].index == index
}

/// The entry that a list reports for `index`: the last one that carries it.
pub open spec fn latest_with_index(chunks: Seq<ChunkWrapper>, index: usize) -> Option<
    ChunkWrapper,
>
    decreases chunks.len(),
{
    if chunks.len() == 0 {
        None
    } else if chunks.last().index == index {
        Some(chunks.last())
    } else {
        latest_with_index(chunks.drop_last(), index)
    }
}

/// What a merge reports for `index`: the fresh observation where there is
/// one, else the original entry.
pub open spec fn merged_entry(
    original: Seq<ChunkWrapper>,
    fresh: Seq<ChunkWrapper>,
    index: usize,
) -> Option<ChunkWrapper> {
    match latest_with_index(fresh, index) {
        Some(chunk) => Some(chunk),
        None => latest_with_index(original, index),
    }
}

/// `merged` is the merge of `original` and `fresh`: sorted by index without
/// repetition, and reporting for every index what [`merged_entry`] reports.
pub open spec fn is_merge_of(
    original: Seq<ChunkWrapper>,
    fresh: Seq<ChunkWrapper>,
    merged: Seq<ChunkWrapper>,
) -> bool {
    &&& strictly_ascending(merged)
    &&& forall|index: usize| #[trigger]
        latest_with_index(merged, index) == merged_entry(original, fresh, index)
}

/// Where a lookup finds an entry, the entry stands in the list and carries
/// the index; where it finds none, no entry carries the index.
pub proof fn lemma_latest_position(chunks: Seq<ChunkWrapper>, index: usize)
    ensures
        match latest_with_index(chunks, index) {
            Some(chunk) => chunk.index == index && exists|i: int|
                0 <= i < chunks.len() && #[trigger] chunks[i] == chunk,
            None => forall|i: int| 0 <= i < chunks.len() ==> #[trigger] chunks[i].index != index,
        },
    decreases chunks.len(),
{
    if chunks.len() > 0 {
        let front = chunks.drop_last();
        lemma_latest_position(front, index);
        if chunks.last().index == index {
            assert(chunks[chunks.len() - 1] == chunks.last());
        } else {
            match latest_with_index(front, index) {
                Some(chunk) => {
                    let i = choose|i: int| 0 <= i < front.len() && #[trigger] front[i] == chunk;
                    assert(chunks[i] == chunk);
                },
                None => {
                    assert forall|i: int| 0 <= i < chunks.len() implies #[trigger] chunks[i].index
                        != index by {
                        if i < front.len() {
                            assert(front[i].index != index);
                        }
                    }
                },
            }
        }
    }
}

/// In a strictly ascending list every entry is the one found under its index.
pub proof fn lemma_ascending_lookup(chunks: Seq<ChunkWrapper>, i: int)
    requires
        strictly_ascending(chunks),
        0 <= i < chunks.len(),
    ensures
        latest_with_index(chunks, chunks[i].index) == Some(chunks[i]),
    decreases chunks.len(),
{
    if i < chunks.len() - 1 {
        assert(chunks[i].index < chunks[chunks.len() - 1].index);
        let front = chunks.drop_last();
        assert(strictly_ascending(front)) by {
            assert forall|a: int, b: int| 0 <= a < b < front.len() implies front[a].index
                < front[b].index by {
                assert(chunks[a].index < chunks[b].index);
            }
        }
        lemma_ascending_lookup(front, i);
    }
}

/// The merge of `original` and `fresh`. There is one for any two lists, and
/// only one.
pub open spec fn merged_chunks(original: Seq<ChunkWrapper>, fresh: Seq<ChunkWrapper>) -> Seq<
    ChunkWrapper,
> {
    choose|merged: Seq<ChunkWrapper>| is_merge_of(original, fresh, merged)
}

/// A lookup finds an entry exactly where some entry carries the index.
pub proof fn lemma_has_index_iff_found(chunks: Seq<ChunkWrapper>, index: usize)
    ensures
        has_index(chunks, index) <==> latest_with_index(chunks, index).is_some(),
{
    lemma_latest_position(chunks, index);
    match latest_with_index(chunks, index) {
        Some(chunk) => {
            let i = choose|i: int| 0 <= i < chunks.len() && #[trigger] chunks[i] == chunk;
            assert(chunks[i].index == index);
        },
        None => {},
    }
}

/// A strictly ascending list is determined by what it reports for each
/// index: two such lists that report the same are the same list.
pub proof fn lemma_ascending_determined(left: Seq<ChunkWrapper>, right: Seq<ChunkWrapper>)
    requires
        strictly_ascending(left),
        strictly_ascending(right),
        forall|index: usize| #[trigger]
            latest_with_index(left, index) == latest_with_index(right, index),
    ensures
        left == right,
    decreases left.len(),
{
    if left.len() == 0 {
        if right.len() > 0 {
            lemma_ascending_lookup(right, 0);
            assert(latest_with_index(left, right[0].index) == latest_with_index(
                right,
                right[0].index,
            ));
        }
        assert(left =~= right);
    } else {
        lemma_ascending_lookup(left, 0);
        assert(latest_with_index(left, left[0].index) == latest_with_index(right, left[0].index));
        assert(right.len() > 0);
        let last_left = left.last();
        let last_right = right.last();
        lemma_ascending_lookup(left, left.len() - 1);
        lemma_ascending_lookup(right, right.len() - 1);
        assert(latest_with_index(left, last_left.index) == latest_with_index(
            right,
            last_left.index,
        ));
        assert(latest_with_index(left, last_right.index) == latest_with_index(
            right,
            last_right.index,
        ));
        lemma_latest_position(right, last_left.index);
        lemma_latest_position(left, last_right.index);
        let in_right = choose|j: int| 0 <= j < right.len() && #[trigger] right[j] == last_left;
        let in_left = choose|i: int| 0 <= i < left.len() && #[trigger] left[i] == last_right;
        assert(last_left.index <= last_right.index) by {
            if in_right < right.len() - 1 {
                assert(right[in_right].index < right[right.len() - 1].index);
            }
        }
        assert(last_right.index <= last_left.index) by {
            if in_left < left.len() - 1 {
                assert(left[in_left].index < left[left.len() - 1].index);
            }
        }
        assert(in_right == right.len() - 1) by {
            if in_right < right.len() - 1 {
                assert(right[in_right].index < right[right.len() - 1].index);
            }
        }
        assert(last_left == last_right);
        let front_left = left.drop_last();
        let front_right = right.drop_last();
        assert(strictly_ascending(front_left)) by {
            assert forall|a: int, b: int| 0 <= a < b < front_left.len() implies front_left[a].index
                < front_left[b].index by {
                assert(left[a].index < left[b].index);
            }
        }
        assert(strictly_ascending(front_right)) by {
            assert forall|a: int, b: int| 0 <= a < b < front_right.len() implies front_right[a].index
                < front_right[b].index by {
                assert(right[a].index < right[b].index);
            }
        }
        assert forall|index: usize| #[trigger]
            latest_with_index(front_left, index) == latest_with_index(front_right, index) by {
            if index == last_left.index {
                lemma_latest_position(front_left, index);
                lemma_latest_position(front_right, index);
                if latest_with_index(front_left, index).is_some() {
                    let found = latest_with_index(front_left, index).unwrap();
                    let i = choose|i: int| 0 <= i < front_left.len() && #[trigger] front_left[i] == found;
                    assert(left[i].index < left[left.len() - 1].index);
                }
                if latest_with_index(front_right, index).is_some() {
                    let found = latest_with_index(front_right, index).unwrap();
                    let j = choose|j: int|
                        0 <= j < front_right.len() && #[trigger] front_right[j] == found;
                    assert(right[j].index < right[right.len() - 1].index);
                }
            } else {
                assert(latest_with_index(left, index) == latest_with_index(right, index));
            }
        }
        lemma_ascending_determined(front_left, front_right);
        assert(left =~= front_left.push(last_left));
        assert(right =~= front_right.push(last_right));
    }
}

/// Merging a strictly ascending list with itself gives the list back.
pub proof fn merge_is_idempotent(chunks: Seq<ChunkWrapper>, merged: Seq<ChunkWrapper>)
    requires
        strictly_ascending(chunks),
        is_merge_of(chunks, chunks, merged),
    ensures
        merged == chunks,
{
    assert forall|index: usize| #[trigger]
        latest_with_index(merged, index) == latest_with_index(chunks, index) by {
        assert(latest_with_index(merged, index) == merged_entry(chunks, chunks, index));
    }
    lemma_ascending_determined(merged, chunks);
}

/// Merging nothing into a strictly ascending list gives the list back.
pub proof fn merge_with_nothing(chunks: Seq<ChunkWrapper>, merged: Seq<ChunkWrapper>)
    requires
        strictly_ascending(chunks),
        is_merge_of(chunks, Seq::empty(), merged),
    ensures
        merged == chunks,
{
    assert forall|index: usize| #[trigger]
        latest_with_index(merged, index) == latest_with_index(chunks, index) by {
        assert(latest_with_index(merged, index) == merged_entry(chunks, Seq::empty(), index));
    }
    lemma_ascending_determined(merged, chunks);
}

/// Two merges of the same lists are the same list.
pub proof fn merge_is_determined(
    original: Seq<ChunkWrapper>,
    fresh: Seq<ChunkWrapper>,
    first: Seq<ChunkWrapper>,
    second: Seq<ChunkWrapper>,
)
    requires
        is_merge_of(original, fresh, first),
        is_merge_of(original, fresh, second),
    ensures
        first == second,
{
    assert forall|index: usize| #[trigger]
        latest_with_index(first, index) == latest_with_index(second, index) by {
        assert(latest_with_index(first, index) == merged_entry(original, fresh, index));
        assert(latest_with_index(second, index) == merged_entry(original, fresh, index));
    }
    lemma_ascending_determined(first, second);
}

/// A merge names exactly the indices that either list names, each of them
/// once and in ascending order, and holds the fresh entry wherever the fresh
/// list names the index.
pub proof fn merge_is_union(
    original: Seq<ChunkWrapper>,
    fresh: Seq<ChunkWrapper>,
    merged: Seq<ChunkWrapper>,
)
    requires
        is_merge_of(original, fresh, merged),
    ensures
        strictly_ascending(merged),
        forall|i: int, j: int|
            0 <= i < merged.len() && 0 <= j < merged.len() && merged[i].index == merged[j].index
                ==> i == j,
        forall|index: usize|
            has_index(merged, index) <==> has_index(original, index) || has_index(fresh, index),
        forall|i: int|
            0 <= i < merged.len() && has_index(fresh, #[trigger] merged[i].index) ==> Some(
                merged[i],
            ) == latest_with_index(fresh, merged[i].index),
        forall|i: int|
            0 <= i < merged.len() && !has_index(fresh, #[trigger] merged[i].index) ==> Some(
                merged[i],
            ) == latest_with_index(original, merged[i].index),
{
    assert forall|i: int, j: int|
        0 <= i < merged.len() && 0 <= j < merged.len() && merged[i].index
            == merged[j].index implies i == j by {
        if i < j {
            assert(merged[i].index < merged[j].index);
        } else if j < i {
            assert(merged[j].index < merged[i].index);
        }
    }
    assert forall|index: usize|
        has_index(merged, index) <==> has_index(original, index) || has_index(fresh, index) by {
        lemma_has_index_iff_found(merged, index);
        lemma_has_index_iff_found(original, index);
        lemma_has_index_iff_found(fresh, index);
        assert(latest_with_index(merged, index) == merged_entry(original, fresh, index));
    }
    assert forall|i: int| 0 <= i < merged.len() implies (has_index(
        fresh,
        #[trigger] merged[i].index,
    ) ==> Some(merged[i]) == latest_with_index(fresh, merged[i].index)) && (!has_index(
        fresh,
        merged[i].index,
    ) ==> Some(merged[i]) == latest_with_index(original, merged[i].index)) by {
        let index = merged[i].index;
        lemma_ascending_lookup(merged, i);
        lemma_has_index_iff_found(fresh, index);
        assert(latest_with_index(merged, index) == merged_entry(original, fresh, index));
    }
}

/// Which list is merged into which decides whose values stand, never which
/// indices are named: both merges name the same indices, and equally many.
pub proof fn merge_names_same_indices_either_way(
    left: Seq<ChunkWrapper>,
    right: Seq<ChunkWrapper>,
    left_into_right: Seq<ChunkWrapper>,
    right_into_left: Seq<ChunkWrapper>,
)
    requires
        is_merge_of(right, left, left_into_right),
        is_merge_of(left, right, right_into_left),
    ensures
        forall|index: usize|
            has_index(left_into_right, index) <==> has_index(right_into_left, index),
{
    merge_is_union(right, left, left_into_right);
    merge_is_union(left, right, right_into_left);
}

/// Every entry of a merge is an entry of one of the two lists, so a merge of
/// well-formed chunks holds well-formed chunks only.
pub proof fn merge_keeps_well_formed(
    original: Seq<ChunkWrapper>,
    fresh: Seq<ChunkWrapper>,
    merged: Seq<ChunkWrapper>,
)
    requires
        is_merge_of(original, fresh, merged),
        all_well_formed(original),
        all_well_formed(fresh),
    ensures
        all_well_formed(merged),
{
    assert forall|i: int| 0 <= i < merged.len() implies (#[trigger] merged[i]).well_formed() by {
        let index = merged[i].index;
        lemma_ascending_lookup(merged, i);
        assert(latest_with_index(merged, index) == merged_entry(original, fresh, index));
        lemma_latest_position(fresh, index);
        lemma_latest_position(original, index);
    }
}

/// Puts `chunk` into a strictly ascending list: in place of the entry with
/// the same index where there is one, else at the place that keeps the order.
fn place_chunk(chunks: &mut Vec<ChunkWrapper>, chunk: ChunkWrapper)
    requires
        strictly_ascending(old(chunks)@),
    ensures
        strictly_ascending(final(chunks)@),
        forall|index: usize| #[trigger]
            latest_with_index(final(chunks)@, index) == if index == chunk.index {
                Some(chunk)
            } else {
                latest_with_index(old(chunks)@, index)
            },
{
    let mut pos: usize = 0;
    while pos < chunks.len() && chunks[pos].index < chunk.index
        invariant
            pos <= chunks.len(),
            chunks@ == old(chunks)@,
            forall|i: int| 0 <= i < pos ==> chunks[i].index < chunk.index,
        decreases chunks.len() - pos,
    {
        pos += 1;
    }
    let replace = pos < chunks.len() && chunks[pos].index == chunk.index;
    if replace {
        chunks.set(pos, chunk);
    } else {
        chunks.insert(pos, chunk);
    }
    proof {
        let before = old(chunks)@;
        let after = chunks@;
        let p = pos as int;
        assert(after[p] == chunk);
        assert(strictly_ascending(after)) by {
            assert forall|i: int, j: int| 0 <= i < j < after.len() implies after[i].index
                < after[j].index by {
                if replace {
                    assert(before[i].index < before[j].index);
                } else {
                    let bi = if i < p { i } else { i - 1 };
                    let bj = if j < p { j } else { j - 1 };
                    if i != p && j != p {
                        assert(before[bi].index < before[bj].index);
                    } else if i == p {
                        assert(before[p].index <= before[bj].index) by {
                            if p < bj {
                                assert(before[p].index < before[bj].index);
                            }
                        }
                    }
                }
            }
        }
        assert forall|index: usize| #[trigger]
            latest_with_index(after, index) == if index == chunk.index {
                Some(chunk)
            } else {
                latest_with_index(before, index)
            } by {
            lemma_latest_position(before, index);
            lemma_latest_position(after, index);
            if index == chunk.index {
                lemma_ascending_lookup(after, p);
            } else {
                match latest_with_index(before, index) {
                    Some(found) => {
                        let i = choose|i: int| 0 <= i < before.len() && #[trigger] before[i] == found;
                        let j = if replace || i < p { i } else { i + 1 };
                        assert(after[j] == found);
                        lemma_ascending_lookup(after, j);
                    },
                    None => {
                        if latest_with_index(after, index).is_some() {
                            let found = latest_with_index(after, index).unwrap();
                            let j = choose|j: int| 0 <= j < after.len() && #[trigger] after[j] == found;
                            if j != p {
                                let i = if replace || j < p { j } else { j - 1 };
                                assert(before[i].index != index);
                            }
                        }
                    },
                }
            }
        }
    }
}

/// Merges a fresh observation of a task's chunks into the list known before.
///
/// The result holds one entry for every index that either list names, in
/// ascending order of index. Where both lists name an index the fresh entry
/// stands; where one list names an index more than once its last entry counts.
pub fn merge_chunks(original_chunks: Vec<ChunkWrapper>, new_chunks: Vec<ChunkWrapper>) -> (merged:
    Vec<ChunkWrapper>)
    ensures
        is_merge_of(original_chunks@, new_chunks@, merged@),
        merged@ == merged_chunks(original_chunks@, new_chunks@),
{
    let mut merged: Vec<ChunkWrapper> = Vec::new();
    let mut i: usize = 0;
    while i < original_chunks.len()
        invariant
            i <= original_chunks.len(),
            strictly_ascending(merged@),
            forall|index: usize| #[trigger]
                latest_with_index(merged@, index) == latest_with_index(
                    original_chunks@.take(i as int),
                    index,
                ),
        decreases original_chunks.len() - i,
    {
        place_chunk(&mut merged, original_chunks[i]);
        proof {
            assert(original_chunks@.take(i + 1).drop_last() == original_chunks@.take(i as int));
        }
        i += 1;
    }
    assert(original_chunks@.take(i as int) == original_chunks@);
    let mut j: usize = 0;
    while j < new_chunks.len()
        invariant
            j <= new_chunks.len(),
            strictly_ascending(merged@),
            forall|index: usize| #[trigger]
                latest_with_index(merged@, index) == merged_entry(
                    original_chunks@,
                    new_chunks@.take(j as int),
                    index,
                ),
        decreases new_chunks.len() - j,
    {
        place_chunk(&mut merged, new_chunks[j]);
        proof {
            assert(new_chunks@.take(j + 1).drop_last() == new_chunks@.take(j as int));
        }
        j += 1;
    }
    assert(new_chunks@.take(j as int) == new_chunks@);
    proof {
        assert(is_merge_of(original_chunks@, new_chunks@, merged@));
        assert(is_merge_of(
            original_chunks@,
            new_chunks@,
            merged_chunks(original_chunks@, new_chunks@),
        ));
        merge_is_determined(
            original_chunks@,
            new_chunks@,
            merged@,
            merged_chunks(original_chunks@, new_chunks@),
        );
    }
    merged
}

} // verus!
