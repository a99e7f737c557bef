use github_starcleaner::config::AppConfig;
use github_starcleaner::github::{
    classify_unstar_status, is_token_expired_error, keep_fetching, stamp_page, ApiError,
    TokenExpiredError,
};
use github_starcleaner::numfmt::u32_to_decimal;
use github_starcleaner::repository::Repository;
use github_starcleaner::sort::{SortDirection, SortField};
use github_starcleaner::state::{AppScreen, AppState, PendingAction};

fn repo(id: u64, name: &str, owner: &str) -> Repository {
    Repository {
        id,
        name: name.to_string(),
        full_name: format!("{}/{}", owner, name),
        owner: owner.to_string(),
        description: None,
        language: None,
        stargazers_count: 0,
        forks_count: 0,
        open_issues_count: 0,
        license: None,
        topics: vec![],
        updated_at: 1_700_000_000,
        pushed_at: None,
        html_url: format!("https://github.com/{}/{}", owner, name),
        starred_order: 0,
    }
}

fn repos(range: std::ops::Range<u64>) -> Vec<Repository> {
    range.map(|id| repo(id, &format!("repo{}", id), "owner")).collect()
}

fn loaded_state(items: Vec<Repository>) -> AppState {
    let mut state = AppState::from_config(AppConfig {
        github: github_starcleaner::config::GitHubConfig {
            personal_access_token: Some("tok_1".to_string()),
        },
    });
    assert!(state.begin_initial_load());
    let has_more = items.len() == 100;
    state.finish_initial_load(
        "tok_1".to_string(),
        Ok(("someone".to_string(), items, has_more)),
    );
    assert_eq!(state.screen, AppScreen::RepositoryList);
    state
}

fn selection_subset_of_list(state: &AppState) -> bool {
    state
        .get_selected_ids()
        .iter()
        .all(|id| state.repositories.iter().any(|r| r.id == *id))
}

#[test]
fn test_decimal_rendering() {
    assert_eq!(u32_to_decimal(0), "0");
    assert_eq!(u32_to_decimal(7), "7");
    assert_eq!(u32_to_decimal(140), "140");
    assert_eq!(u32_to_decimal(65535), "65535");
}

#[test]
fn test_token_expired_error_message() {
    assert_eq!(TokenExpiredError.message(), "Token expired or invalid");
}

#[test]
fn test_api_error_messages() {
    assert_eq!(ApiError::TokenExpired.message(), "Token expired or invalid");
    assert_eq!(ApiError::Remote(500).message(), "HTTP 500");
    assert_eq!(
        ApiError::Transport("connection refused".to_string()).message(),
        "connection refused"
    );
    assert_eq!(
        ApiError::Config("bad credential string".to_string()).message(),
        "bad credential string"
    );
}

#[test]
fn test_classify_unstar_status() {
    assert!(classify_unstar_status(204).is_ok());
    assert!(classify_unstar_status(200).is_ok());
    match classify_unstar_status(401) {
        Err(e) => assert!(is_token_expired_error(&e)),
        Ok(()) => panic!("401 must not count as success"),
    }
    match classify_unstar_status(500) {
        Err(ApiError::Remote(status)) => assert_eq!(status, 500),
        _ => panic!("500 must be surfaced with its status"),
    }
}

#[test]
fn test_keep_fetching_bounds() {
    assert!(keep_fetching(100, true, 1));
    assert!(keep_fetching(100, true, 500));
    assert!(!keep_fetching(100, true, 501));
    assert!(!keep_fetching(100, false, 1));
    assert!(!keep_fetching(0, true, 1));
}

#[test]
fn test_stamp_page_orders() {
    // Ordinal of item i on page p is (p - 1) * per_page + i.
    let (page, has_more) = stamp_page(repos(0..40), 2, 100);
    assert_eq!(page.len(), 40);
    assert_eq!(page[0].starred_order, 100);
    assert_eq!(page[39].starred_order, 139);
    assert!(!has_more);

    let (full, has_more) = stamp_page(repos(0..100), 1, 100);
    assert_eq!(full[0].starred_order, 0);
    assert_eq!(full[99].starred_order, 99);
    assert!(has_more);
}

#[test]
fn test_stamp_page_empty() {
    let (page, has_more) = stamp_page(Vec::new(), 3, 100);
    assert!(page.is_empty());
    assert!(!has_more);
}

#[test]
fn test_pagination_two_pages() {
    // A full first page promises more; a 40-item second page ends the
    // list at 140 items, ordered as page one followed by page two.
    let mut state = AppState::from_config(AppConfig::default());
    assert!(state.reload_begin());
    let (page1, more1) = stamp_page(repos(0..100), 1, 100);
    assert!(more1);
    state.reload_finish(Ok((page1, more1)));
    assert_eq!(state.current_page, 1);
    assert_eq!(state.repositories.len(), 100);
    assert!(state.has_more);

    assert!(state.load_more_begin());
    let (page2, more2) = stamp_page(repos(100..140), 2, 100);
    assert!(!more2);
    state.load_more_finish(Ok((page2, more2)));
    assert_eq!(state.repositories.len(), 140);
    assert_eq!(state.current_page, 2);
    assert!(!state.has_more);
    assert_eq!(state.repositories[0].starred_order, 0);
    assert_eq!(state.repositories[99].starred_order, 99);
    assert_eq!(state.repositories[100].starred_order, 100);
    assert_eq!(state.repositories[139].starred_order, 139);
    assert_eq!(state.repositories[100].id, 100);
}

#[test]
fn test_trailing_empty_page_tolerated() {
    // When the list length is an exact multiple of the page size, the
    // full last page still reports more, and the one extra fetch
    // comes back empty: not an error, the cursor just closes.
    let mut state = loaded_state(repos(0..100).into_iter().collect());
    assert!(state.has_more);
    assert!(state.load_more_begin());
    let (page2, more2) = stamp_page(Vec::new(), 2, 100);
    state.load_more_finish(Ok((page2, more2)));
    assert_eq!(state.repositories.len(), 100);
    assert!(!state.has_more);
    assert_eq!(state.current_page, 2);
}

#[test]
fn test_load_more_guard() {
    let mut state = loaded_state(repos(0..40));
    // 40 of 100 items: no further page is owed.
    assert!(!state.load_more_begin());

    let mut full = loaded_state(repos(0..100));
    assert!(full.load_more_begin());
    // A second load-more while one is in flight is refused.
    assert!(!full.load_more_begin());
}

#[test]
fn test_reload_guard_while_loading() {
    let mut state = AppState::from_config(AppConfig::default());
    assert!(state.reload_begin());
    // A reload while one is in flight is refused.
    assert!(!state.reload_begin());
    state.reload_finish(Ok((Vec::new(), false)));
    assert!(state.reload_begin());
}

#[test]
fn test_load_more_failure_keeps_state() {
    let mut state = loaded_state(repos(0..100));
    assert!(state.load_more_begin());
    state.load_more_finish(Err(ApiError::Remote(502)));
    assert_eq!(state.repositories.len(), 100);
    assert_eq!(state.current_page, 1);
    assert!(!state.loading_more);
    assert_eq!(state.error, Some("Failed to load more: HTTP 502".to_string()));
}

#[test]
fn test_reload_failure_transport() {
    let mut state = loaded_state(repos(0..10));
    assert!(state.reload_begin());
    state.reload_finish(Err(ApiError::Transport("timed out".to_string())));
    assert!(!state.loading);
    assert_eq!(state.error, Some("Failed to reload: timed out".to_string()));
    assert_eq!(state.screen, AppScreen::RepositoryList);
}

#[test]
fn test_expired_token_forces_logout_on_load_more() {
    let mut state = loaded_state(repos(0..100));
    state.username = Some("someone".to_string());
    assert!(state.load_more_begin());
    state.load_more_finish(Err(ApiError::TokenExpired));
    assert_eq!(state.screen, AppScreen::Setup);
    assert!(state.github_service.is_none());
    assert!(state.username.is_none());
    assert!(state.repositories.is_empty());
    assert_eq!(state.selection.count(), 0);
    assert_eq!(
        state.error,
        Some("Token expired. Please login again.".to_string())
    );
}

#[test]
fn test_batch_unstar_partial_failure() {
    // Outcomes that fail without an expired credential leave their
    // repositories listed and selected; only the successes leave.
    let mut state = loaded_state(repos(0..3));
    state.toggle_select_all();
    let ids = state.get_selected_ids();
    let results = vec![Ok(()), Err(ApiError::Remote(500)), Ok(())];
    state.unstar_selected_finish(&ids, &results);
    assert_eq!(state.repositories.len(), 1);
    assert_eq!(state.repositories[0].id, 1);
    assert_eq!(state.selection.count(), 1);
    assert!(state.selection.is_selected(1));
    assert!(selection_subset_of_list(&state));
}

#[test]
fn test_batch_unstar_expiry_logs_out() {
    // One expired outcome ends the whole batch in a single logout:
    // the session is cleared, no partial removal is applied, and the
    // fixed message is shown.
    let mut state = loaded_state(vec![repo(1, "r1", "o1"), repo(2, "r2", "o2")]);
    state.toggle_select_all();
    let ids = state.get_selected_ids();
    let results = vec![Ok(()), Err(ApiError::TokenExpired)];
    state.unstar_selected_finish(&ids, &results);
    assert_eq!(state.screen, AppScreen::Setup);
    assert!(state.github_service.is_none());
    assert!(state.repositories.is_empty());
    assert_eq!(state.selection.count(), 0);
    assert_eq!(
        state.error,
        Some("Token expired. Please login again.".to_string())
    );
}

#[test]
fn test_batch_unstar_empty_is_noop() {
    let mut state = loaded_state(repos(0..3));
    let before = state.repositories.len();
    state.unstar_selected_finish(&[], &[]);
    assert_eq!(state.repositories.len(), before);
    assert_eq!(state.selection.count(), 0);
}

#[test]
fn test_remove_repos_empty_is_noop() {
    let mut state = loaded_state(repos(0..3));
    state.selection.toggle(1);
    state.remove_repos(&[]);
    assert_eq!(state.repositories.len(), 3);
    assert_eq!(state.selection.count(), 1);
}

#[test]
fn test_remove_repos_twice_is_once() {
    let mut state = loaded_state(repos(0..4));
    state.toggle_select_all();
    state.remove_repos(&[1, 3]);
    let repos_after: Vec<u64> = state.repositories.iter().map(|r| r.id).collect();
    let count_after = state.selection.count();
    state.remove_repos(&[1, 3]);
    let repos_twice: Vec<u64> = state.repositories.iter().map(|r| r.id).collect();
    assert_eq!(repos_after, repos_twice);
    assert_eq!(count_after, state.selection.count());
    assert_eq!(repos_after, vec![0, 2]);
}

#[test]
fn test_select_all_then_unstar_one_recomputes() {
    // Removing one of three fully selected repositories drops the
    // count to two, and the all-selected judgement is made against
    // the new total of two, not the stale total of three.
    let mut state = loaded_state(repos(0..3));
    state.toggle_select_all();
    assert!(state.all_selected());
    assert_eq!(state.selection.count(), 3);

    state.unstar_single_finish(1, Ok(()));
    assert_eq!(state.repositories.len(), 2);
    assert_eq!(state.selection.count(), 2);
    // Against the stale total of 3 the judgement would be false;
    // against the new total of 2 it is true.
    assert!(state.selection.count() != 3);
    assert!(state.all_selected());
    assert!(selection_subset_of_list(&state));
}

#[test]
fn test_toggle_select_all_clears_when_full() {
    let mut state = loaded_state(repos(0..3));
    state.toggle_select_all();
    assert_eq!(state.selection.count(), 3);
    state.toggle_select_all();
    assert_eq!(state.selection.count(), 0);
    assert!(!state.all_selected());
}

#[test]
fn test_toggle_selection_ignores_unknown_id() {
    let mut state = loaded_state(repos(0..2));
    state.toggle_selection(99);
    assert_eq!(state.selection.count(), 0);
    state.toggle_selection(1);
    assert_eq!(state.selection.count(), 1);
    assert!(selection_subset_of_list(&state));
}

#[test]
fn test_unstar_single_failure_reports_error() {
    let mut state = loaded_state(repos(0..2));
    state.unstar_single_finish(1, Err(ApiError::Remote(500)));
    assert_eq!(state.repositories.len(), 2);
    assert_eq!(state.error, Some("Failed to unstar: HTTP 500".to_string()));
}

#[test]
fn test_double_toggle_direction_two_reloads() {
    // Toggling the sort direction twice returns to the original
    // direction; with the state idle both times, each toggle's reload
    // goes through, so two reloads run.
    let mut state = loaded_state(repos(0..3));
    assert_eq!(state.sort_direction, SortDirection::Asc);
    let mut reloads = 0;
    for _ in 0..2 {
        state.toggle_sort_direction();
        if state.reload_begin() {
            reloads += 1;
            state.reload_finish(Ok((repos(0..3), false)));
        }
    }
    assert_eq!(state.sort_direction, SortDirection::Asc);
    assert_eq!(reloads, 2);
}

#[test]
fn test_sort_field_change_resets_direction() {
    let mut state = AppState::default();
    state.sort_direction = SortDirection::Desc;
    state.select_sort_field(SortField::Starred);
    assert_eq!(state.sort_field, SortField::Starred);
    assert_eq!(state.sort_direction, SortDirection::Asc);
    // Choosing the active field toggles the direction in place.
    state.select_sort_field(SortField::Starred);
    assert_eq!(state.sort_field, SortField::Starred);
    assert_eq!(state.sort_direction, SortDirection::Desc);
}

#[test]
fn test_sort_change_rejected_while_loading() {
    let mut state = AppState::from_config(AppConfig::default());
    assert!(state.reload_begin());
    state.toggle_sort_direction();
    // The direction changes, but the reload it asks for is refused
    // while a load is in flight.
    assert_eq!(state.sort_direction, SortDirection::Desc);
    assert!(!state.reload_begin());
}

#[test]
fn test_confirmation_gating() {
    let mut state = loaded_state(repos(0..2));
    state.request_unstar_single(1, "owner".to_string(), "repo1".to_string(),
        "owner/repo1".to_string());
    match state.pending_action {
        Some(PendingAction::UnstarSingle(id, _, _, _)) => assert_eq!(id, 1),
        _ => panic!("Expected a pending single unstar"),
    }
    // Cancelling only clears the pending action.
    state.cancel_pending();
    assert!(state.pending_action.is_none());
    assert_eq!(state.repositories.len(), 2);

    state.selection.toggle(0);
    state.request_unstar_selected();
    match state.pending_action {
        Some(PendingAction::UnstarSelected(count)) => assert_eq!(count, 1),
        _ => panic!("Expected a pending batch unstar"),
    }
    // Confirming clears the slot before anything runs.
    let action = state.take_pending_action();
    assert!(state.pending_action.is_none());
    assert!(matches!(action, Some(PendingAction::UnstarSelected(1))));
}

#[test]
fn test_login_succeeded_moves_to_loading() {
    let mut state = AppState::default();
    state.login_succeeded("tok_1".to_string(), "someone".to_string());
    assert_eq!(state.screen, AppScreen::Loading);
    assert_eq!(state.username, Some("someone".to_string()));
    assert!(state.github_service.is_some());
    assert_eq!(state.config.get_token(), Some("tok_1"));
}

#[test]
fn test_initial_load_success() {
    let mut state = AppState::from_config(AppConfig {
        github: github_starcleaner::config::GitHubConfig {
            personal_access_token: Some("tok_1".to_string()),
        },
    });
    assert_eq!(state.screen, AppScreen::Loading);
    assert!(state.begin_initial_load());
    // The flag is claimed: a second start is refused.
    assert!(!state.begin_initial_load());
    let (page, more) = stamp_page(repos(0..2), 1, 100);
    state.finish_initial_load(
        "tok_1".to_string(),
        Ok(("someone".to_string(), page, more)),
    );
    assert_eq!(state.screen, AppScreen::RepositoryList);
    assert_eq!(state.username, Some("someone".to_string()));
    assert_eq!(state.repositories.len(), 2);
    assert_eq!(state.current_page, 1);
    assert!(!state.has_more);
    assert!(!state.loading);
}

#[test]
fn test_initial_load_failure_returns_to_setup() {
    let mut state = AppState::from_config(AppConfig {
        github: github_starcleaner::config::GitHubConfig {
            personal_access_token: Some("tok_bad".to_string()),
        },
    });
    assert!(state.begin_initial_load());
    state.finish_initial_load(
        "tok_bad".to_string(),
        Err(ApiError::Transport("bad credentials".to_string())),
    );
    assert_eq!(state.screen, AppScreen::Setup);
    assert!(!state.loading);
    assert_eq!(state.error, Some("Failed to load: bad credentials".to_string()));
}

#[test]
fn test_initial_load_expiry_forces_full_logout() {
    let mut state = AppState::from_config(AppConfig {
        github: github_starcleaner::config::GitHubConfig {
            personal_access_token: Some("tok_stale".to_string()),
        },
    });
    assert!(state.begin_initial_load());
    state.finish_initial_load("tok_stale".to_string(), Err(ApiError::TokenExpired));
    assert_eq!(state.screen, AppScreen::Setup);
    assert!(!state.loading);
    assert!(state.github_service.is_none());
    assert!(state.config.github.personal_access_token.is_none());
    assert_eq!(
        state.error,
        Some("Token expired. Please login again.".to_string())
    );
}

#[test]
fn test_logout_clears_session_and_credential() {
    let mut state = loaded_state(repos(0..3));
    state.login_succeeded("tok_1".to_string(), "someone".to_string());
    state.toggle_select_all();
    state.logout();
    assert_eq!(state.screen, AppScreen::Setup);
    assert!(state.github_service.is_none());
    assert!(state.username.is_none());
    assert!(state.repositories.is_empty());
    assert_eq!(state.selection.count(), 0);
    assert!(state.config.github.personal_access_token.is_none());
}

#[test]
fn test_handle_api_error_context() {
    let mut state = loaded_state(repos(0..2));
    state.handle_api_error(
        ApiError::Transport("boom".to_string()),
        "Failed to reload",
    );
    assert_eq!(state.error, Some("Failed to reload: boom".to_string()));
    assert_eq!(state.repositories.len(), 2);

    // Expiry overrides the caller's context with the fixed message.
    state.handle_api_error(ApiError::TokenExpired, "Failed to reload");
    assert_eq!(
        state.error,
        Some("Token expired. Please login again.".to_string())
    );
    assert_eq!(state.screen, AppScreen::Setup);
}

#[test]
fn test_selection_stays_subset_through_flows() {
    let mut state = loaded_state(repos(0..5));
    state.toggle_selection(0);
    state.toggle_selection(3);
    assert!(selection_subset_of_list(&state));
    state.remove_repos(&[0, 4]);
    assert!(selection_subset_of_list(&state));
    state.toggle_select_all();
    assert!(selection_subset_of_list(&state));
    state.unstar_single_finish(3, Ok(()));
    assert!(selection_subset_of_list(&state));
    assert!(state.reload_begin());
    assert!(selection_subset_of_list(&state));
}
