use nalai_core::chunk_wrapper::{merge_chunks, ChunkWrapper};

fn chunk(index: usize, size: u64, downloaded_bytes: u64) -> ChunkWrapper {
    ChunkWrapper::new(index, size, downloaded_bytes)
}

#[test]
fn new_chunk_keeps_its_fields() {
    let c = ChunkWrapper::new(3, 1024, 512);
    assert_eq!(c.index, 3);
    assert_eq!(c.size, 1024);
    assert_eq!(c.downloaded_bytes, 512);
}

#[test]
fn merge_with_itself_gives_the_list_back() {
    let a = vec![chunk(0, 100, 10), chunk(1, 100, 20), chunk(4, 50, 50)];
    assert_eq!(merge_chunks(a.clone(), a.clone()), a);
}

#[test]
fn merge_with_nothing_gives_the_list_back() {
    let a = vec![chunk(0, 100, 10), chunk(2, 100, 20)];
    assert_eq!(merge_chunks(a.clone(), vec![]), a);
}

#[test]
fn merge_of_nothing_into_nothing_is_empty() {
    assert_eq!(merge_chunks(vec![], vec![]), vec![]);
}

#[test]
fn merge_into_nothing_gives_the_fresh_list_sorted() {
    let fresh = vec![chunk(5, 10, 1), chunk(2, 10, 2)];
    assert_eq!(merge_chunks(vec![], fresh), vec![chunk(2, 10, 2), chunk(5, 10, 1)]);
}

#[test]
fn merge_is_the_union_with_fresh_values_winning() {
    let original = vec![chunk(0, 100, 100), chunk(1, 100, 40), chunk(2, 100, 0)];
    let fresh = vec![chunk(3, 60, 6), chunk(1, 120, 90)];
    let merged = merge_chunks(original, fresh);
    assert_eq!(
        merged,
        vec![chunk(0, 100, 100), chunk(1, 120, 90), chunk(2, 100, 0), chunk(3, 60, 6)]
    );
}

#[test]
fn merge_sorts_an_unsorted_original() {
    let original = vec![chunk(7, 1, 1), chunk(3, 2, 2), chunk(5, 3, 3)];
    let merged = merge_chunks(original, vec![chunk(4, 9, 9)]);
    assert_eq!(merged, vec![chunk(3, 2, 2), chunk(4, 9, 9), chunk(5, 3, 3), chunk(7, 1, 1)]);
}

#[test]
fn merge_keeps_the_last_entry_of_a_repeated_index() {
    let original = vec![chunk(1, 10, 1), chunk(1, 10, 2)];
    assert_eq!(merge_chunks(original.clone(), vec![]), vec![chunk(1, 10, 2)]);
    let fresh = vec![chunk(1, 10, 7), chunk(1, 10, 8)];
    assert_eq!(merge_chunks(original, fresh), vec![chunk(1, 10, 8)]);
}

#[test]
fn merge_names_every_index_once() {
    let original = vec![chunk(0, 1, 0), chunk(2, 1, 0), chunk(4, 1, 0)];
    let fresh = vec![chunk(4, 1, 1), chunk(1, 1, 1), chunk(0, 1, 1)];
    let merged = merge_chunks(original, fresh);
    let indices: Vec<usize> = merged.iter().map(|c| c.index).collect();
    assert_eq!(indices, vec![0, 1, 2, 4]);
    let downloaded: Vec<u64> = merged.iter().map(|c| c.downloaded_bytes).collect();
    assert_eq!(downloaded, vec![1, 1, 0, 1]);
}
