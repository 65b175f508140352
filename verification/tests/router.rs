//! The event router: one key plus the current mode decide one navigation
//! call or one fetch request.

use gte::app::{App, AppMode, LoadingState, RepoDetailState};
use gte::events::{handle_key_event, Effect, Key};
use gte::models::{Issue, Repo};

fn repo(name: &str) -> Repo {
    Repo {
        full_name: name.to_string(),
        description: None,
        stargazers_count: 0,
        forks_count: 0,
        language: None,
        open_issues_count: 0,
        updated_at: String::new(),
        created_at: String::new(),
        html_url: String::new(),
    }
}

fn issue(number: u32) -> Issue {
    Issue {
        title: format!("issue {}", number),
        state: "open".to_string(),
        body: None,
        number,
        html_url: String::new(),
        labels: Vec::new(),
    }
}

fn app_with_repos(names: &[&str]) -> App {
    let mut app = App::new("octocat".to_string(), "token".to_string());
    app.apply_repos_result(Ok(names.iter().map(|n| repo(n)).collect()));
    app
}

#[test]
fn quit_key_quits_from_any_mode() {
    let mut app = app_with_repos(&["a/a"]);
    assert_eq!(handle_key_event(&mut app, Key::Char('q')), Effect::Quit);
    app.enter_search_mode();
    assert_eq!(handle_key_event(&mut app, Key::Char('q')), Effect::Quit);
    assert_eq!(app.mode, AppMode::Search);
    assert!(app.search_input.is_empty());
}

#[test]
fn unrecognized_keys_are_no_ops() {
    let mut app = app_with_repos(&["a/a", "b/b"]);
    assert_eq!(handle_key_event(&mut app, Key::Other), Effect::Continue);
    assert_eq!(handle_key_event(&mut app, Key::Char('x')), Effect::Continue);
    assert_eq!(app.table_cursor, Some(0));
    assert_eq!(app.mode, AppMode::RepoList);
}

#[test]
fn list_mode_arrows_and_vi_keys_move_the_cursor() {
    let mut app = app_with_repos(&["a/a", "b/b", "c/c"]);
    handle_key_event(&mut app, Key::Down);
    assert_eq!(app.table_cursor, Some(1));
    handle_key_event(&mut app, Key::Char('j'));
    assert_eq!(app.table_cursor, Some(2));
    handle_key_event(&mut app, Key::Up);
    assert_eq!(app.table_cursor, Some(1));
    handle_key_event(&mut app, Key::Char('k'));
    assert_eq!(app.table_cursor, Some(0));
}

#[test]
fn list_mode_enter_commits_and_requests_the_fetch() {
    let mut app = app_with_repos(&["a/a", "b/b"]);
    handle_key_event(&mut app, Key::Down);
    let effect = handle_key_event(&mut app, Key::Enter);
    assert_eq!(effect, Effect::FetchRepoData("b/b".to_string()));
    assert_eq!(app.mode, AppMode::RepoDetail);
    assert_eq!(app.detail_mode, RepoDetailState::Details);
}

#[test]
fn list_mode_enter_with_empty_list_does_nothing() {
    let mut app = app_with_repos(&[]);
    assert_eq!(handle_key_event(&mut app, Key::Enter), Effect::Continue);
    assert_eq!(app.mode, AppMode::RepoList);
}

#[test]
fn slash_enters_search_mode_from_list_and_detail() {
    let mut app = app_with_repos(&["a/a"]);
    handle_key_event(&mut app, Key::Char('/'));
    assert_eq!(app.mode, AppMode::Search);
    let mut app = app_with_repos(&["a/a"]);
    handle_key_event(&mut app, Key::Enter);
    handle_key_event(&mut app, Key::Char('/'));
    assert_eq!(app.mode, AppMode::Search);
}

#[test]
fn detail_mode_tab_cycles_and_esc_returns() {
    let mut app = app_with_repos(&["a/a"]);
    handle_key_event(&mut app, Key::Enter);
    handle_key_event(&mut app, Key::Tab);
    assert_eq!(app.detail_mode, RepoDetailState::Issues);
    handle_key_event(&mut app, Key::Tab);
    assert_eq!(app.detail_mode, RepoDetailState::PRs);
    handle_key_event(&mut app, Key::Esc);
    assert_eq!(app.mode, AppMode::RepoList);
    assert!(app.selected_repo.is_none());
}

#[test]
fn detail_mode_enter_on_issues_tab_opens_the_popup() {
    let mut app = app_with_repos(&["a/a"]);
    handle_key_event(&mut app, Key::Enter);
    app.apply_issues_result(Ok(vec![issue(1), issue(2)]));
    handle_key_event(&mut app, Key::Tab);
    handle_key_event(&mut app, Key::Down);
    assert_eq!(app.issue_cursor, Some(1));
    assert_eq!(handle_key_event(&mut app, Key::Enter), Effect::Continue);
    assert_eq!(app.mode, AppMode::IssuePopUp);
    assert_eq!(app.selected_issue.as_ref().unwrap().number, 2);
    handle_key_event(&mut app, Key::Esc);
    assert_eq!(app.mode, AppMode::RepoList);
}

#[test]
fn detail_mode_enter_on_details_tab_does_nothing() {
    let mut app = app_with_repos(&["a/a"]);
    handle_key_event(&mut app, Key::Enter);
    assert_eq!(handle_key_event(&mut app, Key::Enter), Effect::Continue);
    assert_eq!(app.mode, AppMode::RepoDetail);
    assert!(app.selected_issue.is_none());
}

#[test]
fn search_mode_types_and_erases_in_the_buffer() {
    let mut app = app_with_repos(&["a/a"]);
    handle_key_event(&mut app, Key::Char('/'));
    handle_key_event(&mut app, Key::Char('r'));
    handle_key_event(&mut app, Key::Char('u'));
    handle_key_event(&mut app, Key::Char('s'));
    handle_key_event(&mut app, Key::Char('x'));
    assert_eq!(app.search_input, "rusx");
    handle_key_event(&mut app, Key::Backspace);
    assert_eq!(app.search_input, "rus");
    handle_key_event(&mut app, Key::Char('t'));
    assert_eq!(app.search_input, "rust");
}

#[test]
fn search_mode_backspace_on_empty_buffer_is_a_no_op() {
    let mut app = app_with_repos(&[]);
    handle_key_event(&mut app, Key::Char('/'));
    handle_key_event(&mut app, Key::Backspace);
    assert_eq!(app.search_input, "");
}

#[test]
fn search_mode_enter_submits_the_query() {
    let mut app = app_with_repos(&["a/a"]);
    handle_key_event(&mut app, Key::Char('/'));
    handle_key_event(&mut app, Key::Char('v'));
    handle_key_event(&mut app, Key::Char('i'));
    let effect = handle_key_event(&mut app, Key::Enter);
    assert_eq!(effect, Effect::RunSearch("vi".to_string()));
    assert_eq!(app.mode, AppMode::RepoList);
    assert_eq!(app.loading_state, LoadingState::Loading);
}

#[test]
fn search_mode_enter_with_empty_buffer_does_nothing() {
    let mut app = app_with_repos(&["a/a"]);
    handle_key_event(&mut app, Key::Char('/'));
    assert_eq!(handle_key_event(&mut app, Key::Enter), Effect::Continue);
    assert_eq!(app.mode, AppMode::Search);
}

#[test]
fn search_mode_esc_cancels_without_searching() {
    let mut app = app_with_repos(&["a/a"]);
    handle_key_event(&mut app, Key::Char('/'));
    handle_key_event(&mut app, Key::Char('z'));
    handle_key_event(&mut app, Key::Esc);
    assert_eq!(app.mode, AppMode::RepoList);
    assert_eq!(app.repos.len(), 1);
}
