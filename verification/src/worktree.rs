use vstd::prelude::*;

use vstd::arithmetic::div_mod::lemma_div_non_zero;
use vstd::arithmetic::div_mod::lemma_fundamental_div_mod;
use vstd::arithmetic::div_mod::lemma_fundamental_div_mod_converse;
use vstd::arithmetic::div_mod::lemma_mod_bound;
use vstd::multiset::Multiset;
use vstd::seq_lib::lemma_multiset_commutative;

use crate::wire::Timestamp;

verus! {

broadcast use vstd::seq_lib::group_to_multiset_ensures, vstd::multiset::group_multiset_axioms;

/// One file-tree entry of a worktree delta. Its `id` is unique within the
/// worktree.
#[derive(Clone, PartialEq, Debug)]
pub struct Entry {
    pub id: u64,
    pub path: String,
    pub mtime: Option<Timestamp>,
    pub is_ignored: bool,
}

/// Repository metadata, associated with the file entry whose id equals
/// `work_directory_id`.
#[derive(Clone, PartialEq, Debug)]
pub struct RepositoryEntry {
    pub work_directory_id: u64,
    pub branch: Option<String>,
}

/// One logical delta of a directory tree: scalar identification, the
/// ordered updated and removed entries, the repository metadata keyed by
/// `work_directory_id`, and the end-of-scan flag.
#[derive(Clone, PartialEq, Debug)]
pub struct UpdateWorktree {
    pub project_id: u64,
    pub worktree_id: u64,
    pub root_name: String,
    pub abs_path: String,
    pub updated_entries: Vec<Entry>,
    pub removed_entries: Vec<u64>,
    pub scan_id: u64,
    pub is_last_update: bool,
    pub updated_repositories: Vec<RepositoryEntry>,
    pub removed_repositories: Vec<u64>,
}

/// Mathematical model of an `UpdateWorktree`: the same fields with the
/// lists as sequences. The chunker's contract is stated over this model.
#[verifier::ext_equal]
pub struct UpdateWorktreeView {
    pub project_id: u64,
    pub worktree_id: u64,
    pub root_name: Seq<char>,
    pub abs_path: Seq<char>,
    pub updated_entries: Seq<Entry>,
    pub removed_entries: Seq<u64>,
    pub scan_id: u64,
    pub is_last_update: bool,
    pub updated_repositories: Seq<RepositoryEntry>,
    pub removed_repositories: Seq<u64>,
}

impl View for UpdateWorktree {
    type V = UpdateWorktreeView;

    open spec fn view(&self) -> UpdateWorktreeView {
        UpdateWorktreeView {
            project_id: self.project_id,
            worktree_id: self.worktree_id,
            root_name: self.root_name@,
            abs_path: self.abs_path@,
            updated_entries: self.updated_entries@,
            removed_entries: self.removed_entries@,
            scan_id: self.scan_id,
            is_last_update: self.is_last_update,
            updated_repositories: self.updated_repositories@,
            removed_repositories: self.removed_repositories@,
        }
    }
}

/// The position of the first repository record keyed by `id`, if any.
pub open spec fn first_repo_index(repos: Seq<RepositoryEntry>, id: u64) -> Option<int>
    decreases repos.len(),
{
    if repos.len() == 0 {
        None
    } else if repos[0].work_directory_id == id {
        Some(0int)
    } else {
        match first_repo_index(repos.drop_first(), id) {
            Some(i) => Some(i + 1),
            None => None,
        }
    }
}

/// `first_repo_index` finds the first matching position: the record there
/// is keyed by `id`, no earlier record is, and a `None` means no record
/// at all is.
pub proof fn lemma_first_repo_index(repos: Seq<RepositoryEntry>, id: u64)
    ensures
        match first_repo_index(repos, id) {
            Some(i) => 0 <= i < repos.len() && repos[i].work_directory_id == id && forall|
                j: int,
            | 0 <= j < i ==> repos[j].work_directory_id != id,
            None => forall|j: int|
                0 <= j < repos.len() ==> repos[j].work_directory_id != id,
        },
    decreases repos.len(),
{
    if repos.len() > 0 && repos[0].work_directory_id != id {
        lemma_first_repo_index(repos.drop_first(), id);
        assert(forall|j: int|
            1 <= j < repos.len() ==> repos[j] == repos.drop_first()[j - 1]);
    }
}

/// Walks `entries` in order, handing each the first still-unclaimed
/// repository record its id matches. Yields the claimed records, in entry
/// order, and the unclaimed remainder, in their original order.
pub open spec fn matched_repos(entries: Seq<Entry>, repos: Seq<RepositoryEntry>) -> (
    Seq<RepositoryEntry>,
    Seq<RepositoryEntry>,
)
    decreases entries.len(),
{
    if entries.len() == 0 {
        (Seq::empty(), repos)
    } else {
        match first_repo_index(repos, entries[0].id) {
            Some(i) => {
                let rest = matched_repos(entries.drop_first(), repos.remove(i));
                (seq![repos[i]] + rest.0, rest.1)
            },
            None => matched_repos(entries.drop_first(), repos),
        }
    }
}

/// One chunk, or one residual chunking state: the scalar fields of `m`
/// with the given lists and end-of-scan flag.
pub open spec fn chunk_of(
    m: UpdateWorktreeView,
    updated_entries: Seq<Entry>,
    removed_entries: Seq<u64>,
    updated_repositories: Seq<RepositoryEntry>,
    removed_repositories: Seq<u64>,
    is_last_update: bool,
) -> UpdateWorktreeView {
    UpdateWorktreeView {
        project_id: m.project_id,
        worktree_id: m.worktree_id,
        root_name: m.root_name,
        abs_path: m.abs_path,
        updated_entries,
        removed_entries,
        scan_id: m.scan_id,
        is_last_update,
        updated_repositories,
        removed_repositories,
    }
}

/// The chunk sequence `split_worktree_update` emits for `m` under chunk
/// capacity `cap`: per step, up to `cap` entries leave the front of each
/// of the two queues, each drained entry claims its matching repository
/// record for the same chunk, and the last chunk carries every unclaimed
/// record, the removed-repository list, and the original end-of-scan
/// flag.
pub open spec fn split_spec(m: UpdateWorktreeView, cap: nat) -> Seq<UpdateWorktreeView>
    decreases m.updated_entries.len() + m.removed_entries.len(),
        when cap >= 1
{
    let uc: int = if m.updated_entries.len() < cap {
        m.updated_entries.len() as int
    } else {
        cap as int
    };
    let rc: int = if m.removed_entries.len() < cap {
        m.removed_entries.len() as int
    } else {
        cap as int
    };
    let u_now = m.updated_entries.take(uc);
    let u_rest = m.updated_entries.skip(uc);
    let r_now = m.removed_entries.take(rc);
    let r_rest = m.removed_entries.skip(rc);
    let done = u_rest.len() == 0 && r_rest.len() == 0;
    let mr = matched_repos(u_now, m.updated_repositories);
    if done {
        seq![
            chunk_of(m, u_now, r_now, mr.0 + mr.1, m.removed_repositories, m.is_last_update),
        ]
    } else {
        seq![chunk_of(m, u_now, r_now, mr.0, Seq::empty(), false)] + split_spec(
            chunk_of(m, u_rest, r_rest, mr.1, m.removed_repositories, m.is_last_update),
            cap,
        )
    }
}

/// Position of the first repository record keyed by `id`, or `None` when
/// no record is.
fn find_repository_index(repos: &Vec<RepositoryEntry>, id: u64) -> (r: Option<usize>)
    ensures
        match r {
            Some(ix) => first_repo_index(repos@, id) == Some(ix as int) && ix
                < repos@.len(),
            None => first_repo_index(repos@, id) is None,
        },
{
    let mut j: usize = 0;
    while j < repos.len()
        invariant
            j <= repos@.len(),
            forall|k: int| 0 <= k < j ==> repos@[k].work_directory_id != id,
        decreases repos@.len() - j,
    {
        if repos[j].work_directory_id == id {
            proof {
                lemma_first_repo_index(repos@, id);
            }
            return Some(j);
        }
        j += 1;
    }
    proof {
        lemma_first_repo_index(repos@, id);
    }
    None
}

/// Production chunk capacity: no emitted chunk carries more than this
/// many updated entries, nor more than this many removed entries.
pub const MAX_WORKTREE_UPDATE_MAX_CHUNK_SIZE: usize = 256;

/// Splits one worktree delta into the bounded chunk sequence the model
/// `split_spec` describes, at the production chunk capacity.
pub fn split_worktree_update(message: UpdateWorktree) -> (chunks: Vec<UpdateWorktree>)
    ensures
        chunks@.map_values(|c: UpdateWorktree| c@) == split_spec(
            message@,
            MAX_WORKTREE_UPDATE_MAX_CHUNK_SIZE as nat,
        ),
{
    split_worktree_update_chunked(message, MAX_WORKTREE_UPDATE_MAX_CHUNK_SIZE)
}

/// Splits one worktree delta into the bounded chunk sequence the model
/// `split_spec` describes, under the given chunk capacity.
pub fn split_worktree_update_chunked(message: UpdateWorktree, max_chunk_size: usize) -> (chunks:
    Vec<UpdateWorktree>)
    requires
        max_chunk_size >= 1,
    ensures
        chunks@.map_values(|c: UpdateWorktree| c@) == split_spec(
            message@,
            max_chunk_size as nat,
        ),
{
    let ghost m0 = message@;
    let ghost cap = max_chunk_size as nat;
    let UpdateWorktree {
        project_id,
        worktree_id,
        root_name,
        abs_path,
        mut updated_entries,
        mut removed_entries,
        scan_id,
        is_last_update,
        mut updated_repositories,
        mut removed_repositories,
    } = message;
    let mut chunks: Vec<UpdateWorktree> = Vec::new();
    let mut done = false;
    proof {
        assert(chunk_of(
            m0,
            updated_entries@,
            removed_entries@,
            updated_repositories@,
            removed_repositories@,
            is_last_update,
        ) =~= m0);
        assert(chunks@.map_values(|c: UpdateWorktree| c@) + split_spec(m0, cap) =~= split_spec(
            m0,
            cap,
        ));
    }
    while !done
        invariant
            max_chunk_size >= 1,
            cap == max_chunk_size as nat,
            root_name@ == m0.root_name,
            abs_path@ == m0.abs_path,
            project_id == m0.project_id,
            worktree_id == m0.worktree_id,
            scan_id == m0.scan_id,
            is_last_update == m0.is_last_update,
            !done ==> chunks@.map_values(|c: UpdateWorktree| c@) + split_spec(
                chunk_of(
                    m0,
                    updated_entries@,
                    removed_entries@,
                    updated_repositories@,
                    removed_repositories@,
                    is_last_update,
                ),
                cap,
            ) == split_spec(m0, cap),
            done ==> chunks@.map_values(|c: UpdateWorktree| c@) == split_spec(m0, cap),
        decreases updated_entries@.len() + removed_entries@.len() + (if done {
            0int
        } else {
            1int
        }),
    {
        let ghost pre = chunk_of(
            m0,
            updated_entries@,
            removed_entries@,
            updated_repositories@,
            removed_repositories@,
            is_last_update,
        );

        let uc = if updated_entries.len() < max_chunk_size {
            updated_entries.len()
        } else {
            max_chunk_size
        };
        let rest_updated = updated_entries.split_off(uc);
        let chunk_updated = updated_entries;
        updated_entries = rest_updated;

        let rc = if removed_entries.len() < max_chunk_size {
            removed_entries.len()
        } else {
            max_chunk_size
        };
        let rest_removed = removed_entries.split_off(rc);
        let chunk_removed = removed_entries;
        removed_entries = rest_removed;

        done = updated_entries.is_empty() && removed_entries.is_empty();

        let ghost repos0 = updated_repositories@;
        let mut chunk_repos: Vec<RepositoryEntry> = Vec::new();
        let mut j: usize = 0;
        proof {
            assert(chunk_updated@.skip(0) =~= chunk_updated@);
            assert(Seq::<RepositoryEntry>::empty() + matched_repos(chunk_updated@, repos0).0
                =~= matched_repos(chunk_updated@, repos0).0);
        }
        while j < chunk_updated.len()
            invariant
                j <= chunk_updated@.len(),
                matched_repos(chunk_updated@, repos0).0 == chunk_repos@ + matched_repos(
                    chunk_updated@.skip(j as int),
                    updated_repositories@,
                ).0,
                matched_repos(chunk_updated@, repos0).1 == matched_repos(
                    chunk_updated@.skip(j as int),
                    updated_repositories@,
                ).1,
            decreases chunk_updated@.len() - j,
        {
            let ghost s = chunk_updated@.skip(j as int);
            let ghost repos_in = updated_repositories@;
            proof {
                assert(s[0] == chunk_updated@[j as int]);
                assert(s.drop_first() =~= chunk_updated@.skip(j + 1 as int));
            }
            let id = chunk_updated[j].id;
            match find_repository_index(&updated_repositories, id) {
                Some(ix) => {
                    let repo = updated_repositories.remove(ix);
                    let ghost old_chunk_repos = chunk_repos@;
                    chunk_repos.push(repo);
                    proof {
                        let rest = matched_repos(s.drop_first(), repos_in.remove(ix as int));
                        assert(matched_repos(s, repos_in).0 == seq![repos_in[ix as int]]
                            + rest.0);
                        assert(chunk_repos@ =~= old_chunk_repos + seq![repo]);
                        assert(old_chunk_repos + (seq![repo] + rest.0) =~= (old_chunk_repos
                            + seq![repo]) + rest.0);
                    }
                },
                None => {
                    proof {
                        assert(matched_repos(s, repos_in) == matched_repos(
                            s.drop_first(),
                            repos_in,
                        ));
                    }
                },
            }
            j += 1;
        }
        proof {
            assert(chunk_updated@.skip(j as int) =~= Seq::<Entry>::empty());
            assert(matched_repos(chunk_updated@, repos0).0 =~= chunk_repos@);
            assert(matched_repos(chunk_updated@, repos0).1 == updated_repositories@);
        }

        let mut chunk_removed_repos: Vec<u64> = Vec::new();
        if done {
            chunk_removed_repos = removed_repositories;
            removed_repositories = Vec::new();
            chunk_repos.append(&mut updated_repositories);
        }

        let is_last = done && is_last_update;
        let chunk = UpdateWorktree {
            project_id,
            worktree_id,
            root_name: root_name.clone(),
            abs_path: abs_path.clone(),
            updated_entries: chunk_updated,
            removed_entries: chunk_removed,
            scan_id,
            is_last_update: is_last,
            updated_repositories: chunk_repos,
            removed_repositories: chunk_removed_repos,
        };
        let ghost chunk_view = chunk@;
        let ghost old_views = chunks@.map_values(|c: UpdateWorktree| c@);
        proof {
            let uci: int = if pre.updated_entries.len() < cap {
                pre.updated_entries.len() as int
            } else {
                cap as int
            };
            let rci: int = if pre.removed_entries.len() < cap {
                pre.removed_entries.len() as int
            } else {
                cap as int
            };
            let mr = matched_repos(pre.updated_entries.take(uci), pre.updated_repositories);
            assert(chunk_view.updated_entries =~= pre.updated_entries.take(uci));
            assert(chunk_view.removed_entries =~= pre.removed_entries.take(rci));
            assert(updated_entries@ =~= pre.updated_entries.skip(uci));
            assert(removed_entries@ =~= pre.removed_entries.skip(rci));
            if done {
                assert(chunk_view =~= chunk_of(
                    pre,
                    pre.updated_entries.take(uci),
                    pre.removed_entries.take(rci),
                    mr.0 + mr.1,
                    pre.removed_repositories,
                    pre.is_last_update,
                ));
                assert(split_spec(pre, cap) =~= seq![chunk_view]);
            } else {
                assert(chunk_view =~= chunk_of(
                    pre,
                    pre.updated_entries.take(uci),
                    pre.removed_entries.take(rci),
                    mr.0,
                    Seq::empty(),
                    false,
                ));
                assert(chunk_of(
                    m0,
                    updated_entries@,
                    removed_entries@,
                    updated_repositories@,
                    removed_repositories@,
                    is_last_update,
                ) =~= chunk_of(
                    pre,
                    pre.updated_entries.skip(uci),
                    pre.removed_entries.skip(rci),
                    mr.1,
                    pre.removed_repositories,
                    pre.is_last_update,
                ));
                assert(split_spec(pre, cap) =~= seq![chunk_view] + split_spec(
                    chunk_of(
                        m0,
                        updated_entries@,
                        removed_entries@,
                        updated_repositories@,
                        removed_repositories@,
                        is_last_update,
                    ),
                    cap,
                ));
            }
        }
        chunks.push(chunk);
        proof {
            assert(chunks@.map_values(|c: UpdateWorktree| c@) =~= old_views.push(chunk_view));
            assert(old_views.push(chunk_view) =~= old_views + seq![chunk_view]);
            if done {
                assert((old_views + seq![chunk_view]) + Seq::<
                    UpdateWorktreeView,
                >::empty() =~= old_views + seq![chunk_view]);
                assert(old_views + split_spec(pre, cap) =~= old_views + seq![chunk_view]);
            } else {
                assert(old_views + split_spec(pre, cap) =~= (old_views + seq![chunk_view])
                    + split_spec(
                    chunk_of(
                        m0,
                        updated_entries@,
                        removed_entries@,
                        updated_repositories@,
                        removed_repositories@,
                        is_last_update,
                    ),
                    cap,
                ));
            }
        }
    }
    chunks
}

/// Concatenation of the updated entries of a chunk sequence, in order.
pub open spec fn chunks_updated_entries(chunks: Seq<UpdateWorktreeView>) -> Seq<Entry>
    decreases chunks.len(),
{
    if chunks.len() == 0 {
        Seq::empty()
    } else {
        chunks[0].updated_entries + chunks_updated_entries(chunks.drop_first())
    }
}

/// Concatenation of the removed entry ids of a chunk sequence, in order.
pub open spec fn chunks_removed_entries(chunks: Seq<UpdateWorktreeView>) -> Seq<u64>
    decreases chunks.len(),
{
    if chunks.len() == 0 {
        Seq::empty()
    } else {
        chunks[0].removed_entries + chunks_removed_entries(chunks.drop_first())
    }
}

/// All repository records of a chunk sequence, with multiplicity.
pub open spec fn chunks_repositories(chunks: Seq<UpdateWorktreeView>) -> Multiset<
    RepositoryEntry,
>
    decreases chunks.len(),
{
    if chunks.len() == 0 {
        Multiset::empty()
    } else {
        chunks[0].updated_repositories.to_multiset().add(
            chunks_repositories(chunks.drop_first()),
        )
    }
}

/// Concatenating the emitted chunks' updated entries, in emission order,
/// reproduces the original updated entries exactly; likewise for the
/// removed entry ids.
pub proof fn lemma_split_preserves_entries(m: UpdateWorktreeView, cap: nat)
    requires
        cap >= 1,
    ensures
        chunks_updated_entries(split_spec(m, cap)) == m.updated_entries,
        chunks_removed_entries(split_spec(m, cap)) == m.removed_entries,
    decreases m.updated_entries.len() + m.removed_entries.len(),
{
    let uc: int = if m.updated_entries.len() < cap {
        m.updated_entries.len() as int
    } else {
        cap as int
    };
    let rc: int = if m.removed_entries.len() < cap {
        m.removed_entries.len() as int
    } else {
        cap as int
    };
    let u_now = m.updated_entries.take(uc);
    let u_rest = m.updated_entries.skip(uc);
    let r_now = m.removed_entries.take(rc);
    let r_rest = m.removed_entries.skip(rc);
    let done = u_rest.len() == 0 && r_rest.len() == 0;
    let mr = matched_repos(u_now, m.updated_repositories);
    let chunks = split_spec(m, cap);
    assert(chunks_updated_entries(chunks) == chunks[0].updated_entries
        + chunks_updated_entries(chunks.drop_first()));
    assert(chunks_removed_entries(chunks) == chunks[0].removed_entries
        + chunks_removed_entries(chunks.drop_first()));
    if done {
        assert(chunks.drop_first() =~= Seq::<UpdateWorktreeView>::empty());
        assert(chunks_updated_entries(Seq::<UpdateWorktreeView>::empty()) == Seq::<
            Entry,
        >::empty());
        assert(chunks_removed_entries(Seq::<UpdateWorktreeView>::empty()) == Seq::<
            u64,
        >::empty());
        assert(u_now + Seq::<Entry>::empty() =~= u_now);
        assert(r_now + Seq::<u64>::empty() =~= r_now);
        assert(u_now =~= m.updated_entries);
        assert(r_now =~= m.removed_entries);
    } else {
        let next = chunk_of(m, u_rest, r_rest, mr.1, m.removed_repositories, m.is_last_update);
        lemma_split_preserves_entries(next, cap);
        assert(chunks.drop_first() =~= split_spec(next, cap));
        assert(u_now + u_rest =~= m.updated_entries);
        assert(r_now + r_rest =~= m.removed_entries);
    }
}

/// The records `matched_repos` claims and the remainder it leaves are,
/// together, a permutation of the records it was given.
pub proof fn lemma_matched_repos_conserves(entries: Seq<Entry>, repos: Seq<RepositoryEntry>)
    ensures
        matched_repos(entries, repos).0.to_multiset().add(
            matched_repos(entries, repos).1.to_multiset(),
        ) =~= repos.to_multiset(),
    decreases entries.len(),
{
    assert forall|r: RepositoryEntry|
        Seq::<RepositoryEntry>::empty().to_multiset().count(r) == 0 by {
        assert(!Seq::<RepositoryEntry>::empty().contains(r));
    }
    assert(Seq::<RepositoryEntry>::empty().to_multiset() =~= Multiset::<
        RepositoryEntry,
    >::empty());
    if entries.len() == 0 {
        assert(matched_repos(entries, repos).0 == Seq::<RepositoryEntry>::empty());
        assert(matched_repos(entries, repos).1 == repos);
    } else {
        match first_repo_index(repos, entries[0].id) {
            Some(i) => {
                lemma_first_repo_index(repos, entries[0].id);
                let x = repos[i];
                let rest = matched_repos(entries.drop_first(), repos.remove(i));
                assert(matched_repos(entries, repos).0 == seq![x] + rest.0);
                assert(matched_repos(entries, repos).1 == rest.1);
                lemma_matched_repos_conserves(entries.drop_first(), repos.remove(i));
                lemma_multiset_commutative(seq![x], rest.0);
                assert(seq![x] =~= Seq::<RepositoryEntry>::empty().push(x));
                assert(seq![x].to_multiset() =~= Multiset::<RepositoryEntry>::empty().insert(
                    x,
                ));
                assert(repos.contains(x));
                assert(repos.to_multiset().count(x) >= 1);
                assert(repos.remove(i).to_multiset() =~= repos.to_multiset().remove(x));
                assert forall|r: RepositoryEntry|
                    matched_repos(entries, repos).0.to_multiset().add(
                        matched_repos(entries, repos).1.to_multiset(),
                    ).count(r) == repos.to_multiset().count(r) by {
                    assert(matched_repos(entries, repos).0.to_multiset().count(r) == seq![
                        x,
                    ].to_multiset().count(r) + rest.0.to_multiset().count(r));
                    assert(rest.0.to_multiset().count(r) + rest.1.to_multiset().count(r)
                        == repos.to_multiset().remove(x).count(r));
                }
            },
            None => {
                lemma_matched_repos_conserves(entries.drop_first(), repos);
                assert(matched_repos(entries, repos) == matched_repos(
                    entries.drop_first(),
                    repos,
                ));
            },
        }
    }
}

/// Every record `matched_repos` claims is keyed by the id of one of the
/// walked entries.
pub proof fn lemma_matched_repos_matched(entries: Seq<Entry>, repos: Seq<RepositoryEntry>)
    ensures
        forall|k: int|
            0 <= k < matched_repos(entries, repos).0.len() ==> exists|e: int|
                0 <= e < entries.len() && entries[e].id == (#[trigger] matched_repos(
                    entries,
                    repos,
                ).0[k]).work_directory_id,
    decreases entries.len(),
{
    if entries.len() > 0 {
        let matched = matched_repos(entries, repos).0;
        match first_repo_index(repos, entries[0].id) {
            Some(i) => {
                lemma_first_repo_index(repos, entries[0].id);
                let rest = matched_repos(entries.drop_first(), repos.remove(i));
                lemma_matched_repos_matched(entries.drop_first(), repos.remove(i));
                assert forall|k: int| 0 <= k < matched.len() implies exists|e: int|
                    0 <= e < entries.len() && entries[e].id == (#[trigger] matched[k])
                        .work_directory_id by {
                    if k == 0 {
                        assert(entries[0].id == matched[0].work_directory_id);
                    } else {
                        assert(matched[k] == rest.0[k - 1]);
                        let e0 = choose|e: int|
                            0 <= e < entries.drop_first().len() && entries.drop_first()[e].id
                                == rest.0[k - 1].work_directory_id;
                        assert(entries[e0 + 1].id == matched[k].work_directory_id);
                    }
                }
            },
            None => {
                lemma_matched_repos_matched(entries.drop_first(), repos);
                let rest = matched_repos(entries.drop_first(), repos);
                assert forall|k: int| 0 <= k < matched.len() implies exists|e: int|
                    0 <= e < entries.len() && entries[e].id == (#[trigger] matched[k])
                        .work_directory_id by {
                    let e0 = choose|e: int|
                        0 <= e < entries.drop_first().len() && entries.drop_first()[e].id
                            == rest.0[k].work_directory_id;
                    assert(entries[e0 + 1].id == matched[k].work_directory_id);
                }
            },
        }
    }
}

/// Repository conservation: across all emitted chunks, the repository
/// records are exactly the original ones — every record appears in
/// exactly one chunk, none is dropped and none is duplicated.
pub proof fn lemma_split_conserves_repositories(m: UpdateWorktreeView, cap: nat)
    requires
        cap >= 1,
    ensures
        chunks_repositories(split_spec(m, cap)) =~= m.updated_repositories.to_multiset(),
    decreases m.updated_entries.len() + m.removed_entries.len(),
{
    let uc: int = if m.updated_entries.len() < cap {
        m.updated_entries.len() as int
    } else {
        cap as int
    };
    let rc: int = if m.removed_entries.len() < cap {
        m.removed_entries.len() as int
    } else {
        cap as int
    };
    let u_now = m.updated_entries.take(uc);
    let u_rest = m.updated_entries.skip(uc);
    let r_rest = m.removed_entries.skip(rc);
    let done = u_rest.len() == 0 && r_rest.len() == 0;
    let mr = matched_repos(u_now, m.updated_repositories);
    let chunks = split_spec(m, cap);
    lemma_matched_repos_conserves(u_now, m.updated_repositories);
    assert(chunks_repositories(chunks) == chunks[0].updated_repositories.to_multiset().add(
        chunks_repositories(chunks.drop_first()),
    ));
    if done {
        assert(chunks.drop_first() =~= Seq::<UpdateWorktreeView>::empty());
        assert(chunks_repositories(Seq::<UpdateWorktreeView>::empty()) == Multiset::<
            RepositoryEntry,
        >::empty());
        lemma_multiset_commutative(mr.0, mr.1);
        assert(chunks[0].updated_repositories == mr.0 + mr.1);
    } else {
        let next = chunk_of(m, u_rest, r_rest, mr.1, m.removed_repositories, m.is_last_update);
        lemma_split_conserves_repositories(next, cap);
        assert(chunks.drop_first() =~= split_spec(next, cap));
        assert(chunks[0].updated_repositories == mr.0);
    }
}

/// Every repository record a chunk ships is referenced by an updated
/// entry shipped in that same chunk.
pub open spec fn chunk_repos_match_entries(c: UpdateWorktreeView) -> bool {
    forall|k: int|
        0 <= k < c.updated_repositories.len() ==> exists|e: int|
            0 <= e < c.updated_entries.len() && c.updated_entries[e].id == (
            #[trigger] c.updated_repositories[k]).work_directory_id
}

/// Every chunk but the last claims only repository records whose key is
/// the id of an updated entry shipped in that same chunk, and ships no
/// removed-repository ids; the last chunk ships the original
/// removed-repository list.
pub proof fn lemma_split_repository_association(m: UpdateWorktreeView, cap: nat)
    requires
        cap >= 1,
    ensures
        forall|i: int|
            0 <= i < split_spec(m, cap).len() - 1 ==> (#[trigger] split_spec(m, cap)[i])
                .removed_repositories =~= Seq::<u64>::empty(),
        split_spec(m, cap).last().removed_repositories == m.removed_repositories,
        forall|i: int|
            0 <= i < split_spec(m, cap).len() - 1 ==> chunk_repos_match_entries(
                #[trigger] split_spec(m, cap)[i],
            ),
    decreases m.updated_entries.len() + m.removed_entries.len(),
{
    let uc: int = if m.updated_entries.len() < cap {
        m.updated_entries.len() as int
    } else {
        cap as int
    };
    let rc: int = if m.removed_entries.len() < cap {
        m.removed_entries.len() as int
    } else {
        cap as int
    };
    let u_now = m.updated_entries.take(uc);
    let u_rest = m.updated_entries.skip(uc);
    let r_rest = m.removed_entries.skip(rc);
    let done = u_rest.len() == 0 && r_rest.len() == 0;
    let mr = matched_repos(u_now, m.updated_repositories);
    let chunks = split_spec(m, cap);
    if !done {
        let next = chunk_of(m, u_rest, r_rest, mr.1, m.removed_repositories, m.is_last_update);
        lemma_split_repository_association(next, cap);
        lemma_matched_repos_matched(u_now, m.updated_repositories);
        assert(chunks.drop_first() =~= split_spec(next, cap));
        assert(chunks.last() == split_spec(next, cap).last());
        assert forall|i: int|
            0 <= i < split_spec(m, cap).len() - 1 implies chunk_repos_match_entries(
            #[trigger] split_spec(m, cap)[i],
        ) by {
            if i > 0 {
                assert(split_spec(m, cap)[i] == split_spec(next, cap)[i - 1]);
                assert(chunk_repos_match_entries(split_spec(next, cap)[i - 1]));
            } else {
                let c = split_spec(m, cap)[0];
                assert(c.updated_repositories == mr.0);
                assert(c.updated_entries == u_now);
                assert forall|k: int|
                    0 <= k < c.updated_repositories.len() implies exists|e: int|
                        0 <= e < c.updated_entries.len() && c.updated_entries[e].id == (
                        #[trigger] c.updated_repositories[k]).work_directory_id by {
                    assert(mr.0[k] == c.updated_repositories[k]);
                    assert(exists|e: int|
                        0 <= e < u_now.len() && u_now[e].id == (mr.0[k]).work_directory_id);
                    let e0 = choose|e: int|
                        0 <= e < u_now.len() && u_now[e].id == (mr.0[k]).work_directory_id;
                    assert(0 <= e0 < c.updated_entries.len() && c.updated_entries[e0].id
                        == c.updated_repositories[k].work_directory_id);
                }
            }
        }
    } else {
        assert(split_spec(m, cap).len() == 1);
    }
}

/// Exactly the last emitted chunk may carry the end-of-scan flag: every
/// earlier chunk has it false, and the last chunk carries the original
/// flag unchanged. So a final delta is marked final exactly once, and a
/// non-final delta never is.
pub proof fn lemma_split_last_update_flag(m: UpdateWorktreeView, cap: nat)
    requires
        cap >= 1,
    ensures
        split_spec(m, cap).len() >= 1,
        forall|i: int|
            0 <= i < split_spec(m, cap).len() - 1 ==> !(#[trigger] split_spec(m, cap)[i])
                .is_last_update,
        split_spec(m, cap).last().is_last_update == m.is_last_update,
    decreases m.updated_entries.len() + m.removed_entries.len(),
{
    let uc: int = if m.updated_entries.len() < cap {
        m.updated_entries.len() as int
    } else {
        cap as int
    };
    let rc: int = if m.removed_entries.len() < cap {
        m.removed_entries.len() as int
    } else {
        cap as int
    };
    let u_now = m.updated_entries.take(uc);
    let u_rest = m.updated_entries.skip(uc);
    let r_rest = m.removed_entries.skip(rc);
    let done = u_rest.len() == 0 && r_rest.len() == 0;
    let mr = matched_repos(u_now, m.updated_repositories);
    let chunks = split_spec(m, cap);
    if !done {
        let next = chunk_of(m, u_rest, r_rest, mr.1, m.removed_repositories, m.is_last_update);
        lemma_split_last_update_flag(next, cap);
        assert(chunks.drop_first() =~= split_spec(next, cap));
        assert(chunks.last() == split_spec(next, cap).last());
        assert forall|i: int| 0 <= i < chunks.len() - 1 implies !(#[trigger] chunks[i])
            .is_last_update by {
            if i > 0 {
                assert(chunks[i] == split_spec(next, cap)[i - 1]);
            }
        }
    }
}

/// The larger of two counts.
pub open spec fn nat_max(a: nat, b: nat) -> nat {
    if a < b {
        b
    } else {
        a
    }
}

/// `a / b` rounded towards the next whole number.
pub open spec fn div_round_up(a: nat, b: nat) -> nat {
    (((a + b - 1) as int) / (b as int)) as nat
}

proof fn lemma_div_plus_denominator(a: int, d: int)
    requires
        d >= 1,
        a >= 0,
    ensures
        (a + d) / d == a / d + 1,
{
    lemma_fundamental_div_mod(a, d);
    lemma_mod_bound(a, d);
    assert(a + d == (a / d + 1) * d + a % d) by (nonlinear_arith)
        requires
            a == d * (a / d) + a % d,
    ;
    lemma_fundamental_div_mod_converse(a + d, d, a / d + 1, a % d);
}

/// The chunk sequence is always finite and as short as the capacity
/// allows: its length is exactly the larger queue's length divided by the
/// capacity, rounded up, and at least one — an empty delta still emits
/// one chunk, and a delta whose queues are exact multiples of the
/// capacity emits no empty trailing chunk.
pub proof fn lemma_split_chunk_count(m: UpdateWorktreeView, cap: nat)
    requires
        cap >= 1,
    ensures
        split_spec(m, cap).len() == nat_max(
            1,
            div_round_up(nat_max(m.updated_entries.len(), m.removed_entries.len()), cap),
        ),
    decreases m.updated_entries.len() + m.removed_entries.len(),
{
    let u = m.updated_entries.len();
    let r = m.removed_entries.len();
    let big = nat_max(u, r);
    let uc: int = if m.updated_entries.len() < cap {
        m.updated_entries.len() as int
    } else {
        cap as int
    };
    let rc: int = if m.removed_entries.len() < cap {
        m.removed_entries.len() as int
    } else {
        cap as int
    };
    let u_rest = m.updated_entries.skip(uc);
    let r_rest = m.removed_entries.skip(rc);
    let done = u_rest.len() == 0 && r_rest.len() == 0;
    if done {
        if big == 0 {
            lemma_fundamental_div_mod_converse(cap - 1, cap as int, 0, cap - 1);
        } else {
            lemma_fundamental_div_mod_converse(
                big + cap - 1,
                cap as int,
                1,
                big - 1,
            );
        }
    } else {
        let u_now = m.updated_entries.take(uc);
        let mr = matched_repos(u_now, m.updated_repositories);
        let next = chunk_of(m, u_rest, r_rest, mr.1, m.removed_repositories, m.is_last_update);
        lemma_split_chunk_count(next, cap);
        let big2 = nat_max(next.updated_entries.len(), next.removed_entries.len());
        assert(big2 == big - cap);
        assert(big2 >= 1);
        lemma_div_plus_denominator(big2 + cap - 1, cap as int);
        lemma_div_non_zero(big2 + cap - 1, cap as int);
        assert(split_spec(m, cap).len() == 1 + split_spec(next, cap).len());
    }
}

} // verus!
