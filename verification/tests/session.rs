//! Session state: creation, list replacement and cursor resets, selection
//! commits, detail-tab cycling, and error isolation between dependent
//! fetches.

use gte::app::{App, AppMode, LoadingState, RepoDetailState};
use gte::github::FetchError;
use gte::models::{Issue, Label, Repo, PR};

fn repo(name: &str) -> Repo {
    Repo {
        full_name: name.to_string(),
        description: Some("a repo".to_string()),
        stargazers_count: 7,
        forks_count: 2,
        language: Some("Rust".to_string()),
        open_issues_count: 1,
        updated_at: "2024-01-02T00:00:00Z".to_string(),
        created_at: "2024-01-01T00:00:00Z".to_string(),
        html_url: format!("https://example.test/{}", name),
    }
}

fn issue(number: u32, title: &str) -> Issue {
    Issue {
        title: title.to_string(),
        state: "open".to_string(),
        body: Some("body".to_string()),
        number,
        html_url: "https://example.test/issue".to_string(),
        labels: vec![Label {
            url: "https://example.test/label".to_string(),
            description: None,
            color: Some("ff8800".to_string()),
            name: "bug".to_string(),
        }],
    }
}

fn pr(number: u32) -> PR {
    PR {
        number,
        state: "open".to_string(),
        body: None,
        title: "a change".to_string(),
        html_url: "https://example.test/pr".to_string(),
    }
}

#[test]
fn new_session_is_empty_and_idle() {
    let app = App::new("octocat".to_string(), "token".to_string());
    assert_eq!(app.user, "octocat");
    assert_eq!(app.mode, AppMode::RepoList);
    assert!(!app.should_quit);
    assert!(app.repos.is_empty());
    assert!(app.issues.is_empty());
    assert!(app.prs.is_empty());
    assert!(app.selected_repo.is_none());
    assert!(app.selected_issue.is_none());
    assert!(app.selected_pr.is_none());
    assert_eq!(app.table_cursor, None);
    assert_eq!(app.issue_cursor, None);
    assert_eq!(app.pr_cursor, None);
    assert_eq!(app.loading_state, LoadingState::Idle);
    assert!(app.search_input.is_empty());
    assert_eq!(app.scroll_offset, 0);
    assert_eq!(app.detail_mode, RepoDetailState::Details);
}

#[test]
fn replacing_repos_with_nonempty_list_selects_first_row() {
    let mut app = App::new("octocat".to_string(), "token".to_string());
    app.next();
    app.apply_repos_result(Ok(vec![repo("a/a"), repo("b/b"), repo("c/c")]));
    assert_eq!(app.table_cursor, Some(0));
    assert_eq!(app.loading_state, LoadingState::Success);
    assert_eq!(app.repos.len(), 3);
}

#[test]
fn replacing_repos_with_empty_list_clears_cursor() {
    let mut app = App::new("octocat".to_string(), "token".to_string());
    app.apply_repos_result(Ok(vec![repo("a/a")]));
    assert_eq!(app.table_cursor, Some(0));
    app.apply_repos_result(Ok(Vec::new()));
    assert_eq!(app.table_cursor, None);
    assert!(app.repos.is_empty());
}

#[test]
fn failed_repo_fetch_keeps_list_and_stores_message() {
    let mut app = App::new("octocat".to_string(), "token".to_string());
    app.apply_repos_result(Ok(vec![repo("a/a")]));
    app.next();
    app.apply_repos_result(Err(FetchError::Transport("connection reset".to_string())));
    assert_eq!(app.repos.len(), 1);
    assert_eq!(app.table_cursor, Some(0));
    assert_eq!(
        app.loading_state,
        LoadingState::Error("connection reset".to_string())
    );
}

#[test]
fn commit_repo_selection_snapshots_the_highlighted_repo() {
    let mut app = App::new("octocat".to_string(), "token".to_string());
    app.apply_repos_result(Ok(vec![repo("a/a"), repo("b/b")]));
    app.next();
    assert_eq!(app.table_cursor, Some(1));
    let fetched_for = app.select_current_repo();
    assert_eq!(fetched_for, Some("b/b".to_string()));
    let snap = app.selected_repo.as_ref().expect("snapshot taken");
    assert_eq!(snap.full_name, "b/b");
    assert_eq!(app.mode, AppMode::RepoDetail);
    assert_eq!(app.detail_mode, RepoDetailState::Details);
    assert_eq!(app.scroll_offset, 0);
    assert!(app.issues.is_empty());
    assert!(app.prs.is_empty());
    assert_eq!(app.issue_cursor, None);
    assert_eq!(app.pr_cursor, None);
}

#[test]
fn commit_with_no_selection_changes_nothing() {
    let mut app = App::new("octocat".to_string(), "token".to_string());
    assert_eq!(app.select_current_repo(), None);
    assert_eq!(app.mode, AppMode::RepoList);
    assert!(app.selected_repo.is_none());
}

#[test]
fn snapshot_survives_list_replacement() {
    let mut app = App::new("octocat".to_string(), "token".to_string());
    app.apply_repos_result(Ok(vec![repo("a/a")]));
    app.select_current_repo();
    app.apply_repos_result(Ok(vec![repo("z/z")]));
    assert_eq!(app.selected_repo.as_ref().unwrap().full_name, "a/a");
}

#[test]
fn toggle_detail_mode_cycles_back_after_three_steps() {
    let mut app = App::new("octocat".to_string(), "token".to_string());
    assert_eq!(app.detail_mode, RepoDetailState::Details);
    app.toggle_detail_mode();
    assert_eq!(app.detail_mode, RepoDetailState::Issues);
    app.toggle_detail_mode();
    assert_eq!(app.detail_mode, RepoDetailState::PRs);
    app.toggle_detail_mode();
    assert_eq!(app.detail_mode, RepoDetailState::Details);
}

#[test]
fn failed_issues_fetch_with_successful_prs_fetch_wins_last() {
    let mut app = App::new("octocat".to_string(), "token".to_string());
    app.apply_repos_result(Ok(vec![repo("a/a")]));
    app.select_current_repo();
    app.apply_issues_result(Err(FetchError::Status("status 404".to_string())));
    app.apply_prs_result(Ok(vec![pr(1)]));
    assert_eq!(app.loading_state, LoadingState::Success);
    assert!(app.issues.is_empty());
    assert_eq!(app.issue_cursor, None);
    assert_eq!(app.prs.len(), 1);
    assert_eq!(app.pr_cursor, Some(0));
}

#[test]
fn issue_fetch_outcomes_reset_issue_cursor() {
    let mut app = App::new("octocat".to_string(), "token".to_string());
    app.apply_issues_result(Ok(vec![issue(1, "one"), issue(2, "two")]));
    assert_eq!(app.issue_cursor, Some(0));
    assert_eq!(app.issues.len(), 2);
    app.apply_issues_result(Ok(Vec::new()));
    assert_eq!(app.issue_cursor, None);
}

#[test]
fn select_current_issue_opens_popup_with_snapshot() {
    let mut app = App::new("octocat".to_string(), "token".to_string());
    app.apply_repos_result(Ok(vec![repo("a/a")]));
    app.select_current_repo();
    app.apply_issues_result(Ok(vec![issue(1, "one"), issue(2, "two")]));
    app.toggle_detail_mode();
    app.next();
    assert_eq!(app.issue_cursor, Some(1));
    app.select_current_issue();
    assert_eq!(app.mode, AppMode::IssuePopUp);
    let snap = app.selected_issue.as_ref().expect("snapshot taken");
    assert_eq!(snap.number, 2);
    assert_eq!(snap.title, "two");
    assert_eq!(snap.labels.len(), 1);
    assert_eq!(snap.labels[0].name, "bug");
}

#[test]
fn back_to_list_drops_repo_snapshot_but_keeps_list() {
    let mut app = App::new("octocat".to_string(), "token".to_string());
    app.apply_repos_result(Ok(vec![repo("a/a")]));
    app.select_current_repo();
    app.back_to_list();
    assert_eq!(app.mode, AppMode::RepoList);
    assert!(app.selected_repo.is_none());
    assert_eq!(app.repos.len(), 1);
}

#[test]
fn enter_search_mode_clears_the_buffer() {
    let mut app = App::new("octocat".to_string(), "token".to_string());
    app.enter_search_mode();
    assert_eq!(app.mode, AppMode::Search);
    assert!(app.search_input.is_empty());
}

#[test]
fn load_user_repos_marks_loading_and_names_the_account() {
    let mut app = App::new("octocat".to_string(), "token".to_string());
    let who = app.load_user_repos();
    assert_eq!(who, "octocat");
    assert_eq!(app.loading_state, LoadingState::Loading);
}

#[test]
fn dependent_loads_name_the_snapshotted_repo() {
    let mut app = App::new("octocat".to_string(), "token".to_string());
    app.apply_repos_result(Ok(vec![repo("a/a"), repo("b/b")]));
    app.next();
    app.select_current_repo();
    assert_eq!(app.load_selected_repo_issues(), Some("b/b".to_string()));
    assert_eq!(app.loading_state, LoadingState::Loading);
    assert_eq!(app.load_selected_repo_prs(), Some("b/b".to_string()));
}

#[test]
fn dependent_loads_without_a_snapshot_do_nothing() {
    let mut app = App::new("octocat".to_string(), "token".to_string());
    assert_eq!(app.load_selected_repo_issues(), None);
    assert_eq!(app.load_selected_repo_prs(), None);
    assert_eq!(app.loading_state, LoadingState::Idle);
}

#[test]
fn search_with_empty_buffer_is_a_no_op() {
    let mut app = App::new("octocat".to_string(), "token".to_string());
    app.enter_search_mode();
    assert_eq!(app.search_repositories(), None);
    assert_eq!(app.mode, AppMode::Search);
    assert_eq!(app.loading_state, LoadingState::Idle);
}
