//! The application state and every transition on it.
//!
//! One `AppState` value is the synchronization point between the
//! rendering layer and the asynchronous remote work.  Rendering reads
//! it; intents and task completions mutate it through the methods
//! here, each a single synchronous step.  The surrounding program
//! performs the remote calls between a `*_begin` step and the
//! matching `*_finish` step and hands the outcome back as a plain
//! value.
//!
//! The selection is kept a subset of the loaded list at every step:
//! every method that removes repositories evicts their ids from the
//! selection in the same transition.

use vstd::prelude::*;
use vstd::assert_sets_equal;
use crate::config::AppConfig;
use crate::github::{ApiError, is_token_expired_error, spec_message};
use crate::repository::{has_repo_id, Repository, RepositorySelection};
use crate::sort::{SortDirection, SortField};

verus! {

/// Current screen of the application.
#[derive(Debug, Clone, PartialEq, Eq, Structural)]
pub enum AppScreen {
    Setup,
    Loading,
    RepositoryList,
}

impl Default for AppScreen {
    fn default() -> (r: Self)
        ensures
            r == AppScreen::Setup,
    {
        AppScreen::Setup
    }
}

/// A user intent awaiting confirmation.  At most one exists at a
/// time; confirming or cancelling clears it before any side effect
/// runs.
#[derive(Debug, Clone)]
pub enum PendingAction {
    /// Unstar a single repository: id, owner, name, display name.
    UnstarSingle(u64, String, String, String),
    /// Unstar the current selection; carries the selected count at
    /// the time the intent was raised, for display.
    UnstarSelected(usize),
    /// Log out.
    Logout,
}

/// Stands for an authenticated remote client.  The boundary that
/// talks to the network builds its real client from the credential
/// recorded here; the state layer only tracks whether a session
/// exists and which credential it uses.
#[derive(Debug, Clone)]
pub struct ClientHandle {
    pub token: String,
}

/// The single application state.
#[derive(Debug)]
pub struct AppState {
    pub screen: AppScreen,
    pub config: AppConfig,
    pub github_service: Option<ClientHandle>,
    pub repositories: Vec<Repository>,
    pub selection: RepositorySelection,
    pub loading: bool,
    pub loading_more: bool,
    pub error: Option<String>,
    pub username: Option<String>,
    pub current_page: u32,
    pub has_more: bool,
    pub pending_action: Option<PendingAction>,
    pub sort_field: SortField,
    pub sort_direction: SortDirection,
}

/// The fixed message shown when the credential expires.
pub open spec fn expiry_message() -> Seq<char> {
    "Token expired. Please login again."@
}

/// The states `a` and `b` hold the same session data.
pub open spec fn same_session(a: AppState, b: AppState) -> bool {
    &&& a.config == b.config
    &&& a.github_service == b.github_service
    &&& a.username == b.username
}

/// The states `a` and `b` hold the same repository list and selection.
pub open spec fn same_list(a: AppState, b: AppState) -> bool {
    &&& a.repositories == b.repositories
    &&& a.selection@ == b.selection@
}

/// The states `a` and `b` hold the same pagination cursor.
pub open spec fn same_pagination(a: AppState, b: AppState) -> bool {
    &&& a.current_page == b.current_page
    &&& a.has_more == b.has_more
}

/// The states `a` and `b` hold the same loading flags.
pub open spec fn same_flags(a: AppState, b: AppState) -> bool {
    &&& a.loading == b.loading
    &&& a.loading_more == b.loading_more
}

/// The states `a` and `b` hold the same sort configuration.
pub open spec fn same_sort(a: AppState, b: AppState) -> bool {
    &&& a.sort_field == b.sort_field
    &&& a.sort_direction == b.sort_direction
}

/// What a logout leaves behind: session, list, and selection cleared,
/// the stored credential removed, and the screen back at `Setup`.
/// The error field is not constrained here: a plain logout keeps it,
/// while the expiry path overwrites it.
pub open spec fn logged_out(pre: AppState, post: AppState) -> bool {
    &&& post.github_service is None
    &&& post.username is None
    &&& post.repositories@ == Seq::<Repository>::empty()
    &&& post.selection@ == Set::<u64>::empty()
    &&& post.screen == AppScreen::Setup
    &&& post.config.github.personal_access_token is None
    &&& same_flags(pre, post)
    &&& same_pagination(pre, post)
    &&& same_sort(pre, post)
    &&& post.pending_action == pre.pending_action
}

/// What routing a failed remote call through the error chokepoint
/// does to the state: an expired credential forces a full logout with
/// the fixed message, any other failure only records
/// `"{context}: {description}"`.
pub open spec fn api_error_applied(
    pre: AppState,
    post: AppState,
    e: ApiError,
    context: Seq<char>,
) -> bool {
    if e is TokenExpired {
        &&& logged_out(pre, post)
        &&& post.error matches Some(m) && m@ == expiry_message()
    } else {
        &&& same_session(pre, post)
        &&& same_list(pre, post)
        &&& same_pagination(pre, post)
        &&& same_flags(pre, post)
        &&& same_sort(pre, post)
        &&& post.screen == pre.screen
        &&& post.pending_action == pre.pending_action
        &&& post.error matches Some(m) && m@ == context + ": "@ + spec_message(e)
    }
}

impl AppState {
    /// The selection never contains an id that is not in the loaded
    /// list.  Every transition preserves this.
    pub open spec fn selection_in_list(self) -> bool {
        forall|id: u64| #[trigger]
            self.selection@.contains(id) ==> has_repo_id(self.repositories@, id)
    }
}

impl Default for AppState {
    fn default() -> (r: Self)
        ensures
            r.screen == AppScreen::Setup,
            r.config.github.personal_access_token is None,
            r.github_service is None,
            r.repositories@ == Seq::<Repository>::empty(),
            r.selection@ == Set::<u64>::empty(),
            !r.loading,
            !r.loading_more,
            r.error is None,
            r.username is None,
            r.current_page == 0,
            !r.has_more,
            r.pending_action is None,
            r.sort_field == SortField::Pushed,
            r.sort_direction == SortDirection::Asc,
            r.selection_in_list(),
    {
        AppState {
            screen: AppScreen::Setup,
            config: AppConfig::default(),
            github_service: None,
            repositories: Vec::new(),
            selection: RepositorySelection::new(),
            loading: false,
            loading_more: false,
            error: None,
            username: None,
            current_page: 0,
            has_more: false,
            pending_action: None,
            sort_field: SortField::Pushed,
            sort_direction: SortDirection::Asc,
        }
    }
}

impl AppState {
    /// Initial state from the persisted configuration: straight to
    /// `Loading` when a credential is stored, to `Setup` otherwise,
    /// with the pagination cursor ready for page one.
    pub fn from_config(config: AppConfig) -> (r: Self)
        ensures
            r.screen == if config.spec_has_token() {
                AppScreen::Loading
            } else {
                AppScreen::Setup
            },
            r.config == config,
            r.github_service is None,
            r.repositories@ == Seq::<Repository>::empty(),
            r.selection@ == Set::<u64>::empty(),
            !r.loading,
            !r.loading_more,
            r.error is None,
            r.username is None,
            r.current_page == 1,
            r.has_more,
            r.pending_action is None,
            r.sort_field == SortField::Pushed,
            r.sort_direction == SortDirection::Asc,
            r.selection_in_list(),
    {
        let screen = if config.has_token() {
            AppScreen::Loading
        } else {
            AppScreen::Setup
        };
        AppState {
            screen,
            config,
            github_service: None,
            repositories: Vec::new(),
            selection: RepositorySelection::new(),
            loading: false,
            loading_more: false,
            error: None,
            username: None,
            current_page: 1,
            has_more: true,
            pending_action: None,
            sort_field: SortField::Pushed,
            sort_direction: SortDirection::Asc,
        }
    }

    /// Record a credential and the session handle built from it.  The
    /// surrounding program constructs the real network client and
    /// persists the configuration around this step.
    pub fn set_token(&mut self, token: String)
        ensures
            final(self).config.github.personal_access_token matches Some(t) && t@ == token@,
            final(self).github_service matches Some(h) && h.token == token,
            final(self).username == old(self).username,
            same_list(*old(self), *final(self)),
            same_pagination(*old(self), *final(self)),
            same_flags(*old(self), *final(self)),
            same_sort(*old(self), *final(self)),
            final(self).screen == old(self).screen,
            final(self).error == old(self).error,
            final(self).pending_action == old(self).pending_action,
            old(self).selection_in_list() ==> final(self).selection_in_list(),
    {
        self.config.github.personal_access_token = Some(token.clone());
        self.github_service = Some(ClientHandle { token });
    }

    /// A submitted credential validated against the remote: record
    /// the session and the username it belongs to, and move to the
    /// `Loading` screen, from which the first page is fetched.
    pub fn login_succeeded(&mut self, token: String, username: String)
        ensures
            final(self).config.github.personal_access_token matches Some(t) && t@ == token@,
            final(self).github_service matches Some(h) && h.token == token,
            final(self).username == Some(username),
            final(self).screen == AppScreen::Loading,
            same_list(*old(self), *final(self)),
            same_pagination(*old(self), *final(self)),
            same_flags(*old(self), *final(self)),
            same_sort(*old(self), *final(self)),
            final(self).error == old(self).error,
            final(self).pending_action == old(self).pending_action,
            old(self).selection_in_list() ==> final(self).selection_in_list(),
    {
        self.config.github.personal_access_token = Some(token.clone());
        self.github_service = Some(ClientHandle { token });
        self.username = Some(username);
        self.screen = AppScreen::Loading;
    }

    /// Clear the error message.
    pub fn clear_error(&mut self)
        ensures
            final(self).error is None,
            same_session(*old(self), *final(self)),
            same_list(*old(self), *final(self)),
            same_pagination(*old(self), *final(self)),
            same_flags(*old(self), *final(self)),
            same_sort(*old(self), *final(self)),
            final(self).screen == old(self).screen,
            final(self).pending_action == old(self).pending_action,
            old(self).selection_in_list() ==> final(self).selection_in_list(),
    {
        self.error = None;
    }

    /// Set the error message.
    pub fn set_error(&mut self, error: String)
        ensures
            final(self).error == Some(error),
            same_session(*old(self), *final(self)),
            same_list(*old(self), *final(self)),
            same_pagination(*old(self), *final(self)),
            same_flags(*old(self), *final(self)),
            same_sort(*old(self), *final(self)),
            final(self).screen == old(self).screen,
            final(self).pending_action == old(self).pending_action,
            old(self).selection_in_list() ==> final(self).selection_in_list(),
    {
        self.error = Some(error);
    }

    /// Log out: clear the session, the list, the selection and the
    /// stored credential, and return to the `Setup` screen.  The
    /// in-memory state is cleared unconditionally; persisting the
    /// cleared credential is I/O and happens outside this step, and
    /// its failure must not undo it.
    pub fn logout(&mut self)
        ensures
            logged_out(*old(self), *final(self)),
            final(self).error == old(self).error,
            final(self).selection_in_list(),
    {
        self.github_service = None;
        self.username = None;
        self.repositories.clear();
        self.selection.clear();
        self.screen = AppScreen::Setup;
        self.config.github.personal_access_token = None;
    }

    /// The single chokepoint for failed remote calls.  An expired
    /// credential always produces the same recovery — a full logout
    /// and the fixed message — whatever operation detected it; any
    /// other failure is recorded as `"{context}: {description}"`.
    pub fn handle_api_error(&mut self, err: ApiError, context: &str)
        ensures
            api_error_applied(*old(self), *final(self), err, context@),
            old(self).selection_in_list() ==> final(self).selection_in_list(),
            err is TokenExpired ==> final(self).selection_in_list(),
    {
        if is_token_expired_error(&err) {
            self.logout();
            self.error = Some("Token expired. Please login again.".to_owned());
        } else {
            let mut message = context.to_owned();
            message.append(": ");
            let description = err.message();
            message.append(description.as_str());
            proof {
                assert(message@ =~= context@ + ": "@ + spec_message(err));
            }
            self.error = Some(message);
        }
    }
}

/// The repositories of `repos` whose id is not in `ids`, in order.
pub open spec fn retained(repos: Seq<Repository>, ids: Seq<u64>) -> Seq<Repository>
    decreases repos.len(),
{
    if repos.len() == 0 {
        Seq::empty()
    } else {
        let rest = retained(repos.drop_last(), ids);
        if ids.contains(repos.last().id) {
            rest
        } else {
            rest.push(repos.last())
        }
    }
}

/// The selection `sel` with every id of `ids` evicted.
pub open spec fn evicted(sel: Set<u64>, ids: Seq<u64>) -> Set<u64> {
    Set::new(|id: u64| sel.contains(id) && !ids.contains(id))
}

/// Splitting a list does not change which ids it has.
proof fn lemma_has_repo_id_concat(a: Seq<Repository>, b: Seq<Repository>)
    ensures
        forall|id: u64| #[trigger]
            has_repo_id(a + b, id) <==> has_repo_id(a, id) || has_repo_id(b, id),
{
    assert forall|id: u64| #[trigger]
        has_repo_id(a + b, id) <==> has_repo_id(a, id) || has_repo_id(b, id) by {
        if has_repo_id(a + b, id) {
            let k = choose|k: int| 0 <= k < (a + b).len() && #[trigger] (a + b)[k].id == id;
            if k < a.len() {
                assert(a[k].id == id);
            } else {
                assert(b[k - a.len()].id == id);
            }
        }
        if has_repo_id(a, id) {
            let k = choose|k: int| 0 <= k < a.len() && #[trigger] a[k].id == id;
            assert((a + b)[k].id == id);
        }
        if has_repo_id(b, id) {
            let k = choose|k: int| 0 <= k < b.len() && #[trigger] b[k].id == id;
            assert((a + b)[a.len() + k].id == id);
        }
    }
}

/// A list has exactly the ids of the repositories it retains, minus
/// the removed ones.
proof fn lemma_retained_has(repos: Seq<Repository>, ids: Seq<u64>)
    ensures
        forall|id: u64| #[trigger]
            has_repo_id(retained(repos, ids), id) <==> has_repo_id(repos, id) && !ids.contains(
                id,
            ),
    decreases repos.len(),
{
    if repos.len() > 0 {
        let prefix = repos.drop_last();
        let last = repos.last();
        lemma_retained_has(prefix, ids);
        assert(repos =~= prefix.push(last));
        lemma_has_repo_id_concat(prefix, seq![last]);
        assert(prefix.push(last) =~= prefix + seq![last]);
        assert forall|id: u64| #[trigger]
            has_repo_id(retained(repos, ids), id) <==> has_repo_id(repos, id) && !ids.contains(
                id,
            ) by {
            let rest = retained(prefix, ids);
            assert(has_repo_id(seq![last], id) <==> last.id == id) by {
                if last.id == id {
                    assert(seq![last][0].id == id);
                }
            }
            if !ids.contains(last.id) {
                assert(retained(repos, ids) =~= rest + seq![last]);
                lemma_has_repo_id_concat(rest, seq![last]);
            }
        }
    }
}

/// Evicting ids from the selection is removing nothing when the id
/// list is empty, and evicting twice is evicting once; the same holds
/// of the repository list.  Together: removing an empty id list is a
/// no-op, and removing the same ids twice is the same as removing
/// them once.
pub proof fn lemma_remove_none(repos: Seq<Repository>, sel: Set<u64>)
    ensures
        retained(repos, Seq::<u64>::empty()) == repos,
        evicted(sel, Seq::<u64>::empty()) == sel,
    decreases repos.len(),
{
    if repos.len() == 0 {
        assert(retained(repos, Seq::<u64>::empty()) =~= repos);
    } else {
        lemma_remove_none(repos.drop_last(), sel);
        assert(retained(repos, Seq::<u64>::empty()) =~= repos);
    }
    assert_sets_equal!(evicted(sel, Seq::<u64>::empty()) == sel);
}

/// Every repository kept by `retained` has an id outside `ids`.
proof fn lemma_retained_clean(repos: Seq<Repository>, ids: Seq<u64>)
    ensures
        forall|k: int| 0 <= k < retained(repos, ids).len() ==> !ids.contains(
            #[trigger] retained(repos, ids)[k].id,
        ),
    decreases repos.len(),
{
    if repos.len() > 0 {
        lemma_retained_clean(repos.drop_last(), ids);
    }
}

/// `retained` keeps a list unchanged when no element matches `ids`.
proof fn lemma_retained_of_clean(repos: Seq<Repository>, ids: Seq<u64>)
    requires
        forall|k: int| 0 <= k < repos.len() ==> !ids.contains(#[trigger] repos[k].id),
    ensures
        retained(repos, ids) == repos,
    decreases repos.len(),
{
    if repos.len() == 0 {
        assert(retained(repos, ids) =~= repos);
    } else {
        assert(forall|k: int|
            0 <= k < repos.drop_last().len() ==> !ids.contains(
                #[trigger] repos.drop_last()[k].id,
            ));
        lemma_retained_of_clean(repos.drop_last(), ids);
        assert(!ids.contains(repos.last().id));
        assert(retained(repos, ids) =~= repos);
    }
}

/// Removing the same ids twice from the list and the selection is the
/// same as removing them once.
pub proof fn lemma_remove_twice(repos: Seq<Repository>, sel: Set<u64>, ids: Seq<u64>)
    ensures
        retained(retained(repos, ids), ids) == retained(repos, ids),
        evicted(evicted(sel, ids), ids) == evicted(sel, ids),
{
    lemma_retained_clean(repos, ids);
    lemma_retained_of_clean(retained(repos, ids), ids);
    assert_sets_equal!(evicted(evicted(sel, ids), ids) == evicted(sel, ids));
}

/// Whether `ids` holds `id`.
fn contains_id(ids: &[u64], id: u64) -> (r: bool)
    ensures
        r == ids@.contains(id),
{
    let n = ids.len();
    for i in 0..n
        invariant
            n == ids@.len(),
            forall|k: int| 0 <= k < i ==> ids@[k] != id,
    {
        if ids[i] == id {
            return true;
        }
    }
    false
}

/// Whether the list holds a repository with the identity `id`.
fn listed(repos: &Vec<Repository>, id: u64) -> (r: bool)
    ensures
        r == has_repo_id(repos@, id),
{
    let n = repos.len();
    for i in 0..n
        invariant
            n == repos@.len(),
            forall|k: int| 0 <= k < i ==> repos@[k].id != id,
    {
        if repos[i].id == id {
            return true;
        }
    }
    false
}

impl AppState {
    /// Remove the given repositories from the list and evict their
    /// ids from the selection, in one transition, so that the
    /// selection stays a subset of the list.
    pub fn remove_repos(&mut self, ids: &[u64])
        ensures
            final(self).repositories@ == retained(old(self).repositories@, ids@),
            final(self).selection@ == evicted(old(self).selection@, ids@),
            same_session(*old(self), *final(self)),
            same_pagination(*old(self), *final(self)),
            same_flags(*old(self), *final(self)),
            same_sort(*old(self), *final(self)),
            final(self).screen == old(self).screen,
            final(self).error == old(self).error,
            final(self).pending_action == old(self).pending_action,
            old(self).selection_in_list() ==> final(self).selection_in_list(),
    {
        let ghost orig = self.repositories@;
        let mut kept: Vec<Repository> = Vec::new();
        let ghost mut done: int = 0;
        while self.repositories.len() > 0
            invariant
                0 <= done <= orig.len(),
                self.repositories@ == orig.skip(done),
                kept@ == retained(orig.take(done), ids@),
                same_session(*old(self), *self),
                same_pagination(*old(self), *self),
                same_flags(*old(self), *self),
                same_sort(*old(self), *self),
                self.screen == old(self).screen,
                self.error == old(self).error,
                self.pending_action == old(self).pending_action,
                self.selection@ == old(self).selection@,
            decreases self.repositories@.len(),
        {
            let repo = self.repositories.remove(0);
            proof {
                assert(orig.skip(done)[0] == orig[done]);
                assert(orig.skip(done).remove(0) =~= orig.skip(done + 1));
            }
            let keep = !contains_id(ids, repo.id);
            proof {
                let grown = orig.take(done + 1);
                assert(grown.drop_last() =~= orig.take(done));
                assert(grown.last() == orig[done]);
            }
            if keep {
                kept.push(repo);
            }
            proof {
                done = done + 1;
            }
        }
        proof {
            assert(orig.take(done) =~= orig);
        }
        self.repositories = kept;
        self.selection.remove_ids(ids);
        proof {
            assert_sets_equal!(self.selection@ == evicted(old(self).selection@, ids@));
            lemma_retained_has(orig, ids@);
        }
    }

    /// The selected repositories, in list order, as (owner, name)
    /// pairs ready for the unstar calls.
    pub fn get_selected_repos(&self) -> (r: Vec<(String, String)>)
        ensures
            r@.len() == selected_pairs(self.repositories@, self.selection@).len(),
            forall|i: int| 0 <= i < r@.len() ==> (#[trigger] r@[i]).0@ == selected_pairs(
                self.repositories@,
                self.selection@,
            )[i].0 && r@[i].1@ == selected_pairs(self.repositories@, self.selection@)[i].1,
    {
        let ghost pairs = selected_pairs(self.repositories@, self.selection@);
        let mut r: Vec<(String, String)> = Vec::new();
        let n = self.repositories.len();
        for i in 0..n
            invariant
                n == self.repositories@.len(),
                r@.len() == selected_pairs(self.repositories@.take(i as int), self.selection@).len(),
                forall|j: int| 0 <= j < r@.len() ==> (#[trigger] r@[j]).0@ == selected_pairs(
                    self.repositories@.take(i as int),
                    self.selection@,
                )[j].0 && r@[j].1@ == selected_pairs(
                    self.repositories@.take(i as int),
                    self.selection@,
                )[j].1,
        {
            proof {
                let grown = self.repositories@.take(i + 1);
                assert(grown.drop_last() =~= self.repositories@.take(i as int));
                assert(grown.last() == self.repositories@[i as int]);
            }
            let repo = &self.repositories[i];
            if self.selection.is_selected(repo.id) {
                r.push((repo.owner.clone(), repo.name.clone()));
            }
        }
        proof {
            assert(self.repositories@.take(n as int) =~= self.repositories@);
        }
        r
    }

    /// The ids of the selected repositories, in list order.
    pub fn get_selected_ids(&self) -> (r: Vec<u64>)
        ensures
            r@ == selected_ids(self.repositories@, self.selection@),
    {
        let mut r: Vec<u64> = Vec::new();
        let n = self.repositories.len();
        for i in 0..n
            invariant
                n == self.repositories@.len(),
                r@ == selected_ids(self.repositories@.take(i as int), self.selection@),
        {
            proof {
                let grown = self.repositories@.take(i + 1);
                assert(grown.drop_last() =~= self.repositories@.take(i as int));
                assert(grown.last() == self.repositories@[i as int]);
            }
            let repo = &self.repositories[i];
            if self.selection.is_selected(repo.id) {
                r.push(repo.id);
            }
        }
        proof {
            assert(self.repositories@.take(n as int) =~= self.repositories@);
        }
        r
    }

    /// Whether every loaded repository is selected (and at least one
    /// is loaded), judged against the current list.
    pub fn all_selected(&self) -> (r: bool)
        ensures
            r == (self.selection@.len() == self.repositories@.len()
                && self.repositories@.len() > 0),
    {
        let count = self.selection.count();
        let total = self.repositories.len();
        count == total && total > 0
    }

    /// Toggle the selection of one loaded repository; an id that is
    /// not in the list is ignored, so the selection stays a subset of
    /// the list.
    pub fn toggle_selection(&mut self, id: u64)
        ensures
            has_repo_id(old(self).repositories@, id) ==> final(self).selection@
                == if old(self).selection@.contains(id) {
                old(self).selection@.remove(id)
            } else {
                old(self).selection@.insert(id)
            },
            !has_repo_id(old(self).repositories@, id) ==> final(self).selection@
                == old(self).selection@,
            same_session(*old(self), *final(self)),
            final(self).repositories == old(self).repositories,
            same_pagination(*old(self), *final(self)),
            same_flags(*old(self), *final(self)),
            same_sort(*old(self), *final(self)),
            final(self).screen == old(self).screen,
            final(self).error == old(self).error,
            final(self).pending_action == old(self).pending_action,
            old(self).selection_in_list() ==> final(self).selection_in_list(),
    {
        if listed(&self.repositories, id) {
            self.selection.toggle(id);
        }
    }

    /// Select every loaded repository, or clear the selection when
    /// everything is already selected.
    pub fn toggle_select_all(&mut self)
        ensures
            old(self).selection@.len() == old(self).repositories@.len() ==> final(self).selection@
                == Set::<u64>::empty(),
            old(self).selection@.len() != old(self).repositories@.len() ==> forall|id: u64|
                #[trigger] final(self).selection@.contains(id) <==> has_repo_id(
                    old(self).repositories@,
                    id,
                ),
            same_session(*old(self), *final(self)),
            final(self).repositories == old(self).repositories,
            same_pagination(*old(self), *final(self)),
            same_flags(*old(self), *final(self)),
            same_sort(*old(self), *final(self)),
            final(self).screen == old(self).screen,
            final(self).error == old(self).error,
            final(self).pending_action == old(self).pending_action,
            final(self).selection_in_list(),
    {
        if self.selection.count() == self.repositories.len() {
            self.selection.clear();
        } else {
            let repos = self.repositories.as_slice();
            self.selection.select_all(repos);
        }
    }
}

/// The (owner, name) pairs of the selected repositories of `repos`,
/// in list order, at the level of character sequences.
pub open spec fn selected_pairs(repos: Seq<Repository>, sel: Set<u64>) -> Seq<
    (Seq<char>, Seq<char>),
>
    decreases repos.len(),
{
    if repos.len() == 0 {
        Seq::empty()
    } else {
        let rest = selected_pairs(repos.drop_last(), sel);
        if sel.contains(repos.last().id) {
            rest.push((repos.last().owner@, repos.last().name@))
        } else {
            rest
        }
    }
}

/// Whether one batch entry failed because the credential expired.
pub open spec fn is_expired_result(r: Result<(), ApiError>) -> bool {
    r matches Err(e) && e is TokenExpired
}

/// Whether any entry of a batch of unstar outcomes reports an expired
/// credential.
pub open spec fn any_token_expired(results: Seq<Result<(), ApiError>>) -> bool {
    exists|i: int| 0 <= i < results.len() && is_expired_result(#[trigger] results[i])
}

/// The ids whose corresponding batch outcome was a success, in order.
pub open spec fn ok_ids(ids: Seq<u64>, results: Seq<Result<(), ApiError>>) -> Seq<u64>
    decreases ids.len(),
{
    if ids.len() == 0 || results.len() == 0 {
        Seq::empty()
    } else {
        let rest = ok_ids(ids.drop_last(), results.drop_last());
        if results.last() is Ok {
            rest.push(ids.last())
        } else {
            rest
        }
    }
}

/// `s` with the page-one loading flag cleared.
pub open spec fn with_loading_cleared(s: AppState) -> AppState {
    AppState { loading: false, ..s }
}

/// `s` with the further-pages loading flag cleared.
pub open spec fn with_loading_more_cleared(s: AppState) -> AppState {
    AppState { loading_more: false, ..s }
}

impl AppState {
    /// Raise the intent to unstar one repository; nothing runs until
    /// it is confirmed.
    pub fn request_unstar_single(&mut self, id: u64, owner: String, name: String,
        full_name: String)
        ensures
            final(self).pending_action == Some(
                PendingAction::UnstarSingle(id, owner, name, full_name),
            ),
            same_session(*old(self), *final(self)),
            same_list(*old(self), *final(self)),
            same_pagination(*old(self), *final(self)),
            same_flags(*old(self), *final(self)),
            same_sort(*old(self), *final(self)),
            final(self).screen == old(self).screen,
            final(self).error == old(self).error,
            old(self).selection_in_list() ==> final(self).selection_in_list(),
    {
        self.pending_action = Some(PendingAction::UnstarSingle(id, owner, name, full_name));
    }

    /// Raise the intent to unstar the current selection, remembering
    /// how many repositories it holds right now.
    pub fn request_unstar_selected(&mut self)
        ensures
            final(self).pending_action matches Some(PendingAction::UnstarSelected(c)) && c == old(
                self).selection@.len(),
            same_session(*old(self), *final(self)),
            same_list(*old(self), *final(self)),
            same_pagination(*old(self), *final(self)),
            same_flags(*old(self), *final(self)),
            same_sort(*old(self), *final(self)),
            final(self).screen == old(self).screen,
            final(self).error == old(self).error,
            old(self).selection_in_list() ==> final(self).selection_in_list(),
    {
        let count = self.selection.count();
        self.pending_action = Some(PendingAction::UnstarSelected(count));
    }

    /// Raise the intent to log out.
    pub fn request_logout(&mut self)
        ensures
            final(self).pending_action == Some(PendingAction::Logout),
            same_session(*old(self), *final(self)),
            same_list(*old(self), *final(self)),
            same_pagination(*old(self), *final(self)),
            same_flags(*old(self), *final(self)),
            same_sort(*old(self), *final(self)),
            final(self).screen == old(self).screen,
            final(self).error == old(self).error,
            old(self).selection_in_list() ==> final(self).selection_in_list(),
    {
        self.pending_action = Some(PendingAction::Logout);
    }

    /// Confirm the pending action: clear it unconditionally and hand
    /// it back, so the caller runs it only after the slot is empty.
    pub fn take_pending_action(&mut self) -> (r: Option<PendingAction>)
        ensures
            r == old(self).pending_action,
            final(self).pending_action is None,
            same_session(*old(self), *final(self)),
            same_list(*old(self), *final(self)),
            same_pagination(*old(self), *final(self)),
            same_flags(*old(self), *final(self)),
            same_sort(*old(self), *final(self)),
            final(self).screen == old(self).screen,
            final(self).error == old(self).error,
            old(self).selection_in_list() ==> final(self).selection_in_list(),
    {
        self.pending_action.take()
    }

    /// Cancel the pending action without running it.
    pub fn cancel_pending(&mut self)
        ensures
            final(self).pending_action is None,
            same_session(*old(self), *final(self)),
            same_list(*old(self), *final(self)),
            same_pagination(*old(self), *final(self)),
            same_flags(*old(self), *final(self)),
            same_sort(*old(self), *final(self)),
            final(self).screen == old(self).screen,
            final(self).error == old(self).error,
            old(self).selection_in_list() ==> final(self).selection_in_list(),
    {
        self.pending_action = None;
    }

    /// Entering the `Loading` screen starts the first fetch exactly
    /// once: the step claims the loading flag, and reports whether
    /// the caller should launch the validate-and-fetch task.
    pub fn begin_initial_load(&mut self) -> (r: bool)
        ensures
            r == (old(self).screen == AppScreen::Loading && !old(self).loading),
            r ==> *final(self) == (AppState { loading: true, ..*old(self) }),
            !r ==> *final(self) == *old(self),
            old(self).selection_in_list() ==> final(self).selection_in_list(),
    {
        if self.screen == AppScreen::Loading && !self.loading {
            self.loading = true;
            true
        } else {
            false
        }
    }

    /// Apply the outcome of the initial validate-and-fetch task.  On
    /// success the session built from `token` is recorded together
    /// with the validated username and the first page; on failure the
    /// state falls back to the `Setup` screen with the failure
    /// recorded.
    pub fn finish_initial_load(&mut self, token: String,
        result: Result<(String, Vec<Repository>, bool), ApiError>)
        ensures
            result matches Ok(p) ==> {
                &&& final(self).github_service matches Some(h) && h.token == token
                &&& final(self).username == Some(p.0)
                &&& final(self).repositories == p.1
                &&& !final(self).loading
                &&& final(self).current_page == 1
                &&& final(self).has_more == p.2
                &&& final(self).screen == AppScreen::RepositoryList
                &&& final(self).selection@ == old(self).selection@
                &&& final(self).config == old(self).config
                &&& final(self).loading_more == old(self).loading_more
                &&& final(self).error == old(self).error
                &&& final(self).pending_action == old(self).pending_action
                &&& same_sort(*old(self), *final(self))
            },
            result matches Err(e) ==> {
                &&& e is TokenExpired ==> {
                    &&& final(self).error matches Some(m) && m@ == expiry_message()
                    &&& final(self).github_service is None
                    &&& final(self).username is None
                    &&& final(self).repositories@ == Seq::<Repository>::empty()
                    &&& final(self).selection@ == Set::<u64>::empty()
                    &&& final(self).config.github.personal_access_token is None
                }
                &&& !(e is TokenExpired) ==> {
                    &&& final(self).error matches Some(m) && m@ == "Failed to load"@ + ": "@
                        + spec_message(e)
                    &&& same_session(*old(self), *final(self))
                    &&& same_list(*old(self), *final(self))
                }
                &&& final(self).screen == AppScreen::Setup
                &&& !final(self).loading
                &&& final(self).loading_more == old(self).loading_more
                &&& same_pagination(*old(self), *final(self))
                &&& same_sort(*old(self), *final(self))
                &&& final(self).pending_action == old(self).pending_action
            },
            old(self).selection@ == Set::<u64>::empty() ==> final(self).selection_in_list(),
            result is Err && old(self).selection_in_list() ==> final(self).selection_in_list(),
    {
        match result {
            Ok((username, repos, has_more)) => {
                self.github_service = Some(ClientHandle { token });
                self.username = Some(username);
                self.repositories = repos;
                self.loading = false;
                self.current_page = 1;
                self.has_more = has_more;
                self.screen = AppScreen::RepositoryList;
            },
            Err(e) => {
                self.handle_api_error(e, "Failed to load");
                self.screen = AppScreen::Setup;
                self.loading = false;
            },
        }
    }

    /// Start a reload of page one under the current sort: clear the
    /// list, the selection and the cursor, and claim the loading
    /// flag.  A reload while a load is already in flight is refused,
    /// so two fetches never race on the same state.
    pub fn reload_begin(&mut self) -> (r: bool)
        ensures
            r == !(old(self).loading || old(self).loading_more),
            r ==> {
                &&& final(self).loading
                &&& final(self).loading_more == old(self).loading_more
                &&& final(self).repositories@ == Seq::<Repository>::empty()
                &&& final(self).selection@ == Set::<u64>::empty()
                &&& final(self).current_page == 1
                &&& final(self).has_more
                &&& same_session(*old(self), *final(self))
                &&& same_sort(*old(self), *final(self))
                &&& final(self).screen == old(self).screen
                &&& final(self).error == old(self).error
                &&& final(self).pending_action == old(self).pending_action
            },
            !r ==> *final(self) == *old(self),
            r ==> final(self).selection_in_list(),
            old(self).selection_in_list() ==> final(self).selection_in_list(),
    {
        if self.loading || self.loading_more {
            false
        } else {
            self.loading = true;
            self.repositories.clear();
            self.selection.clear();
            self.current_page = 1;
            self.has_more = true;
            true
        }
    }

    /// Apply the outcome of a reload: on success the fetched page
    /// replaces the list and the cursor restarts at page one; a
    /// failure goes through the error chokepoint.
    pub fn reload_finish(&mut self, result: Result<(Vec<Repository>, bool), ApiError>)
        ensures
            result matches Ok(p) ==> {
                &&& final(self).repositories == p.0
                &&& final(self).current_page == 1
                &&& final(self).has_more == p.1
                &&& !final(self).loading
                &&& final(self).loading_more == old(self).loading_more
                &&& final(self).selection@ == old(self).selection@
                &&& same_session(*old(self), *final(self))
                &&& same_sort(*old(self), *final(self))
                &&& final(self).screen == old(self).screen
                &&& final(self).error == old(self).error
                &&& final(self).pending_action == old(self).pending_action
            },
            result matches Err(e) ==> api_error_applied(
                with_loading_cleared(*old(self)),
                *final(self),
                e,
                "Failed to reload"@,
            ),
            result is Ok && old(self).selection@ == Set::<u64>::empty() ==> final(
                self).selection_in_list(),
            result is Err && old(self).selection_in_list() ==> final(self).selection_in_list(),
            result matches Err(e) && e is TokenExpired ==> final(self).selection_in_list(),
    {
        self.loading = false;
        match result {
            Ok((repos, has_more)) => {
                self.repositories = repos;
                self.current_page = 1;
                self.has_more = has_more;
            },
            Err(e) => {
                self.handle_api_error(e, "Failed to reload");
            },
        }
    }

    /// Start fetching the page after the current one.  Refused while
    /// a further page is already being fetched or none is owed.
    pub fn load_more_begin(&mut self) -> (r: bool)
        ensures
            r == (!old(self).loading_more && old(self).has_more),
            r ==> *final(self) == (AppState { loading_more: true, ..*old(self) }),
            !r ==> *final(self) == *old(self),
            old(self).selection_in_list() ==> final(self).selection_in_list(),
    {
        if !self.loading_more && self.has_more {
            self.loading_more = true;
            true
        } else {
            false
        }
    }

    /// Apply the outcome of fetching page `current_page + 1`: on
    /// success the fetched items are appended — never replacing the
    /// list, so the order established across pages is kept — and the
    /// cursor advances by exactly one; a failure goes through the
    /// error chokepoint and leaves the cursor where it was.  The
    /// cursor thus only advances, and only after the fetch of the
    /// next page succeeds.
    pub fn load_more_finish(&mut self, result: Result<(Vec<Repository>, bool), ApiError>)
        requires
            result is Ok ==> old(self).current_page < u32::MAX,
        ensures
            result matches Ok(p) ==> {
                &&& final(self).repositories@ == old(self).repositories@ + p.0@
                &&& final(self).current_page == old(self).current_page + 1
                &&& final(self).has_more == p.1
                &&& !final(self).loading_more
                &&& final(self).loading == old(self).loading
                &&& final(self).selection@ == old(self).selection@
                &&& same_session(*old(self), *final(self))
                &&& same_sort(*old(self), *final(self))
                &&& final(self).screen == old(self).screen
                &&& final(self).error == old(self).error
                &&& final(self).pending_action == old(self).pending_action
            },
            result matches Err(e) ==> api_error_applied(
                with_loading_more_cleared(*old(self)),
                *final(self),
                e,
                "Failed to load more"@,
            ),
            result is Err ==> final(self).current_page == old(self).current_page,
            old(self).selection_in_list() ==> final(self).selection_in_list(),
            result matches Err(e) && e is TokenExpired ==> final(self).selection_in_list(),
    {
        self.loading_more = false;
        match result {
            Ok((repos, has_more)) => {
                let ghost fetched = repos@;
                let mut repos = repos;
                self.repositories.append(&mut repos);
                self.current_page = self.current_page + 1;
                self.has_more = has_more;
                proof {
                    lemma_has_repo_id_concat(old(self).repositories@, fetched);
                }
            },
            Err(e) => {
                self.handle_api_error(e, "Failed to load more");
            },
        }
    }

    /// Apply the outcome of one confirmed unstar: on success the
    /// repository leaves the list and the selection in one
    /// transition; a failure goes through the error chokepoint.
    pub fn unstar_single_finish(&mut self, id: u64, result: Result<(), ApiError>)
        ensures
            result is Ok ==> {
                &&& final(self).repositories@ == retained(old(self).repositories@, seq![id])
                &&& final(self).selection@ == evicted(old(self).selection@, seq![id])
                &&& same_session(*old(self), *final(self))
                &&& same_pagination(*old(self), *final(self))
                &&& same_flags(*old(self), *final(self))
                &&& same_sort(*old(self), *final(self))
                &&& final(self).screen == old(self).screen
                &&& final(self).error == old(self).error
                &&& final(self).pending_action == old(self).pending_action
            },
            result matches Err(e) ==> api_error_applied(
                *old(self),
                *final(self),
                e,
                "Failed to unstar"@,
            ),
            old(self).selection_in_list() ==> final(self).selection_in_list(),
            result matches Err(e) && e is TokenExpired ==> final(self).selection_in_list(),
    {
        match result {
            Ok(()) => {
                let mut ids: Vec<u64> = Vec::new();
                ids.push(id);
                proof {
                    assert(ids@ =~= seq![id]);
                }
                self.remove_repos(ids.as_slice());
            },
            Err(e) => {
                self.handle_api_error(e, "Failed to unstar");
            },
        }
    }

    /// Apply the outcomes of a confirmed batch unstar, one outcome
    /// per snapshotted id, in order.  If any outcome reports an
    /// expired credential the whole batch ends in one logout — no
    /// partial removals are applied, since the session is no longer
    /// valid.  Otherwise exactly the ids whose outcome was a success
    /// leave the list and the selection; failed ones stay selected
    /// and listed.
    pub fn unstar_selected_finish(&mut self, ids: &[u64], results: &[Result<(), ApiError>])
        requires
            ids@.len() == results@.len(),
        ensures
            any_token_expired(results@) ==> {
                &&& logged_out(*old(self), *final(self))
                &&& final(self).error matches Some(m) && m@ == expiry_message()
                &&& final(self).selection_in_list()
            },
            !any_token_expired(results@) ==> {
                &&& final(self).repositories@ == retained(
                    old(self).repositories@,
                    ok_ids(ids@, results@),
                )
                &&& final(self).selection@ == evicted(
                    old(self).selection@,
                    ok_ids(ids@, results@),
                )
                &&& same_session(*old(self), *final(self))
                &&& same_pagination(*old(self), *final(self))
                &&& same_flags(*old(self), *final(self))
                &&& same_sort(*old(self), *final(self))
                &&& final(self).screen == old(self).screen
                &&& final(self).error == old(self).error
                &&& final(self).pending_action == old(self).pending_action
            },
            old(self).selection_in_list() ==> final(self).selection_in_list(),
    {
        let n = results.len();
        let mut expired = false;
        for i in 0..n
            invariant
                n == results@.len(),
                expired == any_token_expired(results@.take(i as int)),
        {
            proof {
                let grown = results@.take(i + 1);
                assert(grown.drop_last() =~= results@.take(i as int));
                assert(grown.last() == results@[i as int]);
                assert forall|k: int|
                    0 <= k < grown.len() && is_expired_result(grown[k])
                        implies any_token_expired(grown) by {}
            }
            match &results[i] {
                Err(e) => {
                    if is_token_expired_error(e) {
                        expired = true;
                    }
                },
                Ok(_) => {},
            }
            proof {
                let grown = results@.take(i + 1);
                if !expired {
                    assert(!any_token_expired(grown)) by {
                        if any_token_expired(grown) {
                            let k = choose|k: int|
                                0 <= k < grown.len() && is_expired_result(#[trigger] grown[k]);
                            if k < i as int {
                                assert(is_expired_result(results@.take(i as int)[k]));
                            }
                        }
                    }
                }
                if expired {
                    assert(any_token_expired(grown));
                }
            }
        }
        proof {
            assert(results@.take(n as int) =~= results@);
        }
        if expired {
            self.logout();
            self.error = Some("Token expired. Please login again.".to_owned());
        } else {
            let mut success: Vec<u64> = Vec::new();
            for i in 0..n
                invariant
                    n == results@.len(),
                    n == ids@.len(),
                    success@ == ok_ids(ids@.take(i as int), results@.take(i as int)),
            {
                proof {
                    let grown_ids = ids@.take(i + 1);
                    let grown_results = results@.take(i + 1);
                    assert(grown_ids.drop_last() =~= ids@.take(i as int));
                    assert(grown_results.drop_last() =~= results@.take(i as int));
                    assert(grown_ids.last() == ids@[i as int]);
                    assert(grown_results.last() == results@[i as int]);
                }
                match &results[i] {
                    Ok(_) => {
                        success.push(ids[i]);
                    },
                    Err(_) => {},
                }
            }
            proof {
                assert(ids@.take(n as int) =~= ids@);
                assert(results@.take(n as int) =~= results@);
            }
            self.remove_repos(success.as_slice());
        }
    }

    /// Choose a sort field: choosing the active field toggles the
    /// direction in place, choosing the other field selects it and
    /// resets the direction to ascending.  The caller triggers a
    /// reload afterwards.
    pub fn select_sort_field(&mut self, field: SortField)
        ensures
            old(self).sort_field == field ==> final(self).sort_field == field && final(
                self).sort_direction == old(self).sort_direction.spec_toggle(),
            old(self).sort_field != field ==> final(self).sort_field == field && final(
                self).sort_direction == SortDirection::Asc,
            same_session(*old(self), *final(self)),
            same_list(*old(self), *final(self)),
            same_pagination(*old(self), *final(self)),
            same_flags(*old(self), *final(self)),
            final(self).screen == old(self).screen,
            final(self).error == old(self).error,
            final(self).pending_action == old(self).pending_action,
            old(self).selection_in_list() ==> final(self).selection_in_list(),
    {
        if self.sort_field == field {
            self.sort_direction = self.sort_direction.toggle();
        } else {
            self.sort_field = field;
            self.sort_direction = SortDirection::Asc;
        }
    }

    /// Toggle the sort direction in place; the caller triggers a
    /// reload afterwards.  Toggling twice returns to the original
    /// direction; each toggle asks for its own reload, so two toggles
    /// that both find the state idle start two reloads (the loading
    /// guard de-duplicates only overlapping ones).
    pub fn toggle_sort_direction(&mut self)
        ensures
            final(self).sort_direction == old(self).sort_direction.spec_toggle(),
            final(self).sort_field == old(self).sort_field,
            same_session(*old(self), *final(self)),
            same_list(*old(self), *final(self)),
            same_pagination(*old(self), *final(self)),
            same_flags(*old(self), *final(self)),
            final(self).screen == old(self).screen,
            final(self).error == old(self).error,
            final(self).pending_action == old(self).pending_action,
            old(self).selection_in_list() ==> final(self).selection_in_list(),
    {
        self.sort_direction = self.sort_direction.toggle();
    }
}

/// The ids of the selected repositories of `repos`, in list order.
pub open spec fn selected_ids(repos: Seq<Repository>, sel: Set<u64>) -> Seq<u64>
    decreases repos.len(),
{
    if repos.len() == 0 {
        Seq::empty()
    } else {
        let rest = selected_ids(repos.drop_last(), sel);
        if sel.contains(repos.last().id) {
            rest.push(repos.last().id)
        } else {
            rest
        }
    }
}

} // verus!
