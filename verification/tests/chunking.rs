use proto::envelope::EnvelopedMessage;
use proto::worktree::{
    split_worktree_update, split_worktree_update_chunked, Entry, RepositoryEntry,
    UpdateWorktree, MAX_WORKTREE_UPDATE_MAX_CHUNK_SIZE,
};

fn entry(id: u64) -> Entry {
    Entry {
        id,
        path: format!("dir/file-{id}"),
        mtime: None,
        is_ignored: false,
    }
}

fn repo(work_directory_id: u64) -> RepositoryEntry {
    RepositoryEntry {
        work_directory_id,
        branch: Some(String::from("main")),
    }
}

fn update(
    updated: Vec<Entry>,
    removed: Vec<u64>,
    repos: Vec<RepositoryEntry>,
    removed_repos: Vec<u64>,
    is_last_update: bool,
) -> UpdateWorktree {
    UpdateWorktree {
        project_id: 1,
        worktree_id: 2,
        root_name: String::from("root"),
        abs_path: String::from("/tmp/root"),
        updated_entries: updated,
        removed_entries: removed,
        scan_id: 3,
        is_last_update,
        updated_repositories: repos,
        removed_repositories: removed_repos,
    }
}

#[test]
fn five_entries_with_capacity_two_give_three_chunks() {
    let msg = update(
        vec![entry(1), entry(2), entry(3), entry(4), entry(5)],
        vec![],
        vec![],
        vec![],
        true,
    );
    let chunks = split_worktree_update_chunked(msg, 2);
    assert_eq!(chunks.len(), 3);
    let counts: Vec<usize> = chunks.iter().map(|c| c.updated_entries.len()).collect();
    assert_eq!(counts, vec![2, 2, 1]);
    let ids: Vec<u64> = chunks
        .iter()
        .flat_map(|c| c.updated_entries.iter().map(|e| e.id))
        .collect();
    assert_eq!(ids, vec![1, 2, 3, 4, 5]);
}

#[test]
fn empty_update_gives_exactly_one_chunk() {
    let msg = update(vec![], vec![], vec![repo(9)], vec![4, 5], true);
    let chunks = split_worktree_update_chunked(msg, 2);
    assert_eq!(chunks.len(), 1);
    assert!(chunks[0].updated_entries.is_empty());
    assert!(chunks[0].removed_entries.is_empty());
    assert_eq!(chunks[0].updated_repositories, vec![repo(9)]);
    assert_eq!(chunks[0].removed_repositories, vec![4, 5]);
    assert!(chunks[0].is_last_update);
}

#[test]
fn exact_multiple_of_capacity_emits_no_empty_trailing_chunk() {
    let msg = update(
        vec![entry(1), entry(2), entry(3), entry(4)],
        vec![],
        vec![],
        vec![],
        false,
    );
    let chunks = split_worktree_update_chunked(msg, 2);
    assert_eq!(chunks.len(), 2);
    assert_eq!(chunks[0].updated_entries.len(), 2);
    assert_eq!(chunks[1].updated_entries.len(), 2);
}

#[test]
fn removed_entries_cap_independently() {
    let msg = update(
        vec![entry(1)],
        vec![10, 11, 12, 13, 14],
        vec![],
        vec![],
        false,
    );
    let chunks = split_worktree_update_chunked(msg, 2);
    assert_eq!(chunks.len(), 3);
    let removed: Vec<Vec<u64>> = chunks.iter().map(|c| c.removed_entries.clone()).collect();
    assert_eq!(removed, vec![vec![10, 11], vec![12, 13], vec![14]]);
    assert_eq!(chunks[0].updated_entries.len(), 1);
    assert_eq!(chunks[1].updated_entries.len(), 0);
}

#[test]
fn repository_ships_with_its_referencing_entry() {
    let msg = update(
        vec![entry(1), entry(2), entry(3), entry(4), entry(5)],
        vec![],
        vec![repo(3), repo(5), repo(99)],
        vec![6, 7],
        true,
    );
    let chunks = split_worktree_update_chunked(msg, 2);
    assert_eq!(chunks.len(), 3);
    assert_eq!(chunks[0].updated_repositories, vec![]);
    assert_eq!(chunks[1].updated_repositories, vec![repo(3)]);
    // The last chunk carries its own match plus the unclaimed record.
    assert_eq!(chunks[2].updated_repositories, vec![repo(5), repo(99)]);
    assert_eq!(chunks[0].removed_repositories, vec![]);
    assert_eq!(chunks[1].removed_repositories, vec![]);
    assert_eq!(chunks[2].removed_repositories, vec![6, 7]);
}

#[test]
fn only_the_last_chunk_signals_the_end_of_a_final_scan() {
    let msg = update(
        vec![entry(1), entry(2), entry(3)],
        vec![],
        vec![],
        vec![],
        true,
    );
    let chunks = split_worktree_update_chunked(msg, 2);
    assert_eq!(chunks.len(), 2);
    assert!(!chunks[0].is_last_update);
    assert!(chunks[1].is_last_update);
}

#[test]
fn no_chunk_signals_the_end_of_a_partial_scan() {
    let msg = update(
        vec![entry(1), entry(2), entry(3)],
        vec![],
        vec![],
        vec![],
        false,
    );
    let chunks = split_worktree_update_chunked(msg, 2);
    assert_eq!(chunks.len(), 2);
    assert!(chunks.iter().all(|c| !c.is_last_update));
}

#[test]
fn scalar_fields_are_copied_into_every_chunk() {
    let msg = update(
        vec![entry(1), entry(2), entry(3)],
        vec![20],
        vec![],
        vec![],
        false,
    );
    let chunks = split_worktree_update_chunked(msg, 2);
    for c in &chunks {
        assert_eq!(c.project_id, 1);
        assert_eq!(c.worktree_id, 2);
        assert_eq!(c.root_name, "root");
        assert_eq!(c.abs_path, "/tmp/root");
        assert_eq!(c.scan_id, 3);
    }
}

#[test]
fn production_capacity_keeps_small_updates_whole() {
    assert_eq!(MAX_WORKTREE_UPDATE_MAX_CHUNK_SIZE, 256);
    let msg = update(
        vec![entry(1), entry(2), entry(3)],
        vec![9, 8],
        vec![repo(2)],
        vec![],
        true,
    );
    let chunks = split_worktree_update(msg);
    assert_eq!(chunks.len(), 1);
    assert_eq!(chunks[0].updated_entries.len(), 3);
    assert_eq!(chunks[0].removed_entries, vec![9, 8]);
    assert_eq!(chunks[0].updated_repositories, vec![repo(2)]);
    assert!(chunks[0].is_last_update);
}

#[test]
fn update_worktree_is_a_registered_message_kind() {
    let msg = update(vec![entry(1)], vec![], vec![], vec![], false);
    let envelope = msg.clone().into_envelope(77, None, None);
    assert_eq!(UpdateWorktree::from_envelope(envelope), Some(msg));
    assert_eq!(UpdateWorktree::name(), "UpdateWorktree");
}
