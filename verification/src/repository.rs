//! The domain model: a starred repository and the selection set.

use vstd::prelude::*;
use std::collections::HashSet;

verus! {

broadcast use vstd::std_specs::hash::group_hash_axioms;

/// Immutable snapshot of one starred repository, as one page of the
/// remote starred list returns it.  Timestamps are seconds since the
/// Unix epoch; the boundary that talks to the remote API converts its
/// calendar values to and from these.
#[derive(Debug, Clone)]
pub struct Repository {
    pub id: u64,
    pub name: String,
    pub full_name: String,
    pub owner: String,
    pub description: Option<String>,
    pub language: Option<String>,
    pub stargazers_count: u32,
    pub forks_count: u32,
    pub open_issues_count: u32,
    pub license: Option<String>,
    pub topics: Vec<String>,
    pub updated_at: i64,
    pub pushed_at: Option<i64>,
    pub html_url: String,
    /// Zero-based position in the starred order, reconstructed from
    /// the page number and the index within the page at fetch time.
    /// Meaningful only within one fetch session under one sort
    /// configuration.
    pub starred_order: u32,
}

/// Whether some repository in `repos` has the identity `id`.
pub open spec fn has_repo_id(repos: Seq<Repository>, id: u64) -> bool {
    exists|k: int| 0 <= k < repos.len() && #[trigger] repos[k].id == id
}

/// Selection state for batch operations: a set of repository ids.
#[derive(Debug)]
pub struct RepositorySelection {
    selected_ids: HashSet<u64>,
}

impl View for RepositorySelection {
    type V = Set<u64>;

    closed spec fn view(&self) -> Set<u64> {
        self.selected_ids@
    }
}

impl Default for RepositorySelection {
    fn default() -> (r: Self)
        ensures
            r@ == Set::<u64>::empty(),
    {
        RepositorySelection { selected_ids: HashSet::new() }
    }
}

impl RepositorySelection {
    /// An empty selection.
    pub fn new() -> (r: Self)
        ensures
            r@ == Set::<u64>::empty(),
    {
        Self::default()
    }

    /// Toggle selection of one repository.
    pub fn toggle(&mut self, id: u64)
        ensures
            final(self)@ == if old(self)@.contains(id) {
                old(self)@.remove(id)
            } else {
                old(self)@.insert(id)
            },
    {
        if self.selected_ids.contains(&id) {
            self.selected_ids.remove(&id);
        } else {
            self.selected_ids.insert(id);
        }
    }

    /// Select exactly the repositories of `repos`.
    pub fn select_all(&mut self, repos: &[Repository])
        ensures
            forall|id: u64| final(self)@.contains(id) <==> has_repo_id(repos@, id),
    {
        let mut selected: HashSet<u64> = HashSet::new();
        let n = repos.len();
        for i in 0..n
            invariant
                n == repos@.len(),
                forall|id: u64| #[trigger]
                    selected@.contains(id) <==> has_repo_id(repos@.take(i as int), id),
        {
            selected.insert(repos[i].id);
            proof {
                let prefix = repos@.take(i as int);
                let grown = repos@.take(i + 1);
                assert forall|id: u64| #[trigger] selected@.contains(id) implies has_repo_id(
                    grown,
                    id,
                ) by {
                    if id == repos@[i as int].id {
                        assert(grown[i as int].id == id);
                    } else {
                        let k = choose|k: int| 0 <= k < prefix.len() && #[trigger] prefix[k].id
                            == id;
                        assert(grown[k].id == id);
                    }
                }
                assert forall|id: u64| has_repo_id(grown, id) implies selected@.contains(id) by {
                    let k = choose|k: int| 0 <= k < grown.len() && #[trigger] grown[k].id == id;
                    if k < i as int {
                        assert(prefix[k].id == id);
                    }
                }
            }
        }
        proof {
            assert(repos@.take(n as int) =~= repos@);
        }
        self.selected_ids = selected;
    }

    /// Clear the selection.
    pub fn clear(&mut self)
        ensures
            final(self)@ == Set::<u64>::empty(),
    {
        self.selected_ids.clear();
    }

    /// Whether a repository is selected.
    pub fn is_selected(&self, id: u64) -> (r: bool)
        ensures
            r == self@.contains(id),
    {
        self.selected_ids.contains(&id)
    }

    /// How many repositories are selected.
    pub fn count(&self) -> (r: usize)
        ensures
            r == self@.len(),
    {
        self.selected_ids.len()
    }

    /// Evict the given ids from the selection.
    pub fn remove_ids(&mut self, ids: &[u64])
        ensures
            forall|id: u64| #[trigger]
                final(self)@.contains(id) <==> old(self)@.contains(id) && !ids@.contains(id),
    {
        let n = ids.len();
        for i in 0..n
            invariant
                n == ids@.len(),
                forall|id: u64| #[trigger]
                    self@.contains(id) <==> old(self)@.contains(id) && !ids@.take(
                        i as int,
                    ).contains(id),
        {
            let ghost pre = self@;
            self.selected_ids.remove(&ids[i]);
            proof {
                let prefix = ids@.take(i as int);
                let grown = ids@.take(i + 1);
                assert(self@ =~= pre.remove(ids@[i as int]));
                assert forall|id: u64| grown.contains(id) <==> prefix.contains(id) || id
                    == ids@[i as int] by {
                    if grown.contains(id) {
                        let k = choose|k: int| 0 <= k < grown.len() && grown[k] == id;
                        if k < i as int {
                            assert(prefix[k] == id);
                        }
                    }
                    if prefix.contains(id) {
                        let k = choose|k: int| 0 <= k < prefix.len() && prefix[k] == id;
                        assert(grown[k] == id);
                    }
                    assert(grown[i as int] == ids@[i as int]);
                }
            }
        }
        proof {
            assert(ids@.take(n as int) =~= ids@);
        }
    }
}

} // verus!
