//! The event router: one input key plus the current mode decide one
//! navigation call or one fetch request.
//!
//! The router mutates the session synchronously and reports through
//! [`Effect`] what, if anything, the driving layer must do beyond that:
//! quit, fetch a repository's issues and pull requests, or run a search.
//! The transition predicates written here are the router's dispatch table:
//! each says exactly how the session changes for a class of keys in one
//! mode.

use vstd::prelude::*;

use crate::app::{
    advance_spec, cycle_submode, retreat_spec, scroll_dec, scroll_inc, App, AppMode, LoadingState,
    RepoDetailState,
};
use crate::models::issue_equiv;

verus! {

/// An input key, as the terminal layer reports it.
#[derive(Debug, Clone, Copy, PartialEq, Eq, Structural)]
pub enum Key {
    Char(char),
    Up,
    Down,
    Enter,
    Esc,
    Tab,
    Backspace,
    Other,
}

/// What the driving layer must do after a key was routed: nothing beyond
/// the synchronous state change, quit, fetch issues and pull requests for a
/// repository, or run a repository search.
#[derive(Debug, PartialEq)]
pub enum Effect {
    Continue,
    Quit,
    FetchRepoData(String),
    RunSearch(String),
}

/// Keys that move a selection down.
pub open spec fn is_down_key(key: Key) -> bool {
    key == Key::Down || key == Key::Char('j')
}

/// Keys that move a selection up.
pub open spec fn is_up_key(key: Key) -> bool {
    key == Key::Up || key == Key::Char('k')
}

/// How a key changes the session on the repository-list screen.
pub open spec fn repo_list_transition(a: App, b: App, key: Key) -> bool {
    &&& (is_down_key(key) ==> b == (App {
        table_cursor: advance_spec(a.table_cursor, a.repos@.len()),
        ..a
    }))
    &&& (is_up_key(key) ==> b == (App {
        table_cursor: retreat_spec(a.table_cursor, a.repos@.len()),
        ..a
    }))
    &&& (key == Key::Char('/') ==> b.search_input@.len() == 0 && b == (App {
        mode: AppMode::Search,
        search_input: b.search_input,
        ..a
    }))
    &&& (!(is_down_key(key) || is_up_key(key) || key == Key::Char('/')) ==> b == a)
}

/// How committing the highlighted repository changes the session and what
/// fetch it requests.
pub open spec fn commit_repo_transition(a: App, b: App, eff: Effect) -> bool {
    &&& (a.table_cursor is None ==> b == a && eff == Effect::Continue)
    &&& (a.table_cursor matches Some(i) ==> {
        &&& b.selected_repo == Some(a.repos@[i as int])
        &&& eff == Effect::FetchRepoData(a.repos@[i as int].full_name)
        &&& b.issues@.len() == 0
        &&& b.prs@.len() == 0
        &&& b == (App {
            selected_repo: b.selected_repo,
            issues: b.issues,
            prs: b.prs,
            issue_cursor: None,
            pr_cursor: None,
            mode: AppMode::RepoDetail,
            detail_mode: RepoDetailState::Details,
            scroll_offset: 0,
            ..a
        })
    })
}

/// How a key changes the session on the repository-detail screen.
pub open spec fn repo_detail_transition(a: App, b: App, key: Key) -> bool {
    &&& (is_down_key(key) && a.detail_mode == RepoDetailState::Details ==> b == (App {
        scroll_offset: scroll_inc(a.scroll_offset),
        ..a
    }))
    &&& (is_down_key(key) && a.detail_mode == RepoDetailState::Issues ==> b == (App {
        issue_cursor: advance_spec(a.issue_cursor, a.issues@.len()),
        ..a
    }))
    &&& (is_down_key(key) && a.detail_mode == RepoDetailState::PRs ==> b == (App {
        pr_cursor: advance_spec(a.pr_cursor, a.prs@.len()),
        ..a
    }))
    &&& (is_up_key(key) && a.detail_mode == RepoDetailState::Details ==> b == (App {
        scroll_offset: scroll_dec(a.scroll_offset),
        ..a
    }))
    &&& (is_up_key(key) && a.detail_mode == RepoDetailState::Issues ==> b == (App {
        issue_cursor: retreat_spec(a.issue_cursor, a.issues@.len()),
        ..a
    }))
    &&& (is_up_key(key) && a.detail_mode == RepoDetailState::PRs ==> b == (App {
        pr_cursor: retreat_spec(a.pr_cursor, a.prs@.len()),
        ..a
    }))
    &&& (key == Key::Esc ==> b == (App { mode: AppMode::RepoList, selected_repo: None, ..a }))
    &&& (key == Key::Tab ==> b == (App { detail_mode: cycle_submode(a.detail_mode), ..a }))
    &&& (key == Key::Enter && a.detail_mode == RepoDetailState::Issues ==> {
        &&& (a.issue_cursor is None ==> b == a)
        &&& (a.issue_cursor matches Some(i) ==> {
            &&& b.selected_issue matches Some(snap)
            &&& issue_equiv(a.issues@[i as int], snap)
            &&& b == (App {
                selected_issue: b.selected_issue,
                mode: AppMode::IssuePopUp,
                ..a
            })
        })
    })
    &&& (key == Key::Enter && a.detail_mode != RepoDetailState::Issues ==> b == a)
    &&& (key == Key::Char('/') ==> b.search_input@.len() == 0 && b == (App {
        mode: AppMode::Search,
        search_input: b.search_input,
        ..a
    }))
    &&& (!(is_down_key(key) || is_up_key(key) || key == Key::Esc || key == Key::Tab || key
        == Key::Enter || key == Key::Char('/')) ==> b == a)
}

/// How a key edits the search buffer or leaves search mode.
pub open spec fn search_edit_transition(a: App, b: App, key: Key) -> bool {
    &&& (key matches Key::Char(c) ==> b.search_input@ == a.search_input@ + seq![c] && b == (App {
        search_input: b.search_input,
        ..a
    }))
    &&& (key == Key::Backspace ==> b.search_input@ == (if a.search_input@.len() > 0 {
        a.search_input@.drop_last()
    } else {
        a.search_input@
    }) && b == (App { search_input: b.search_input, ..a }))
    &&& (key == Key::Esc ==> b == (App { mode: AppMode::RepoList, selected_repo: None, ..a }))
    &&& (!(key is Char || key == Key::Backspace || key == Key::Esc) ==> b == a)
}

/// How submitting the search buffer changes the session and what search it
/// requests: an empty buffer does nothing, a non-empty one starts loading,
/// returns to the repository list, and asks for the search to be run.
pub open spec fn search_submit_transition(a: App, b: App, eff: Effect) -> bool {
    &&& (a.search_input@.len() == 0 ==> b == a && eff == Effect::Continue)
    &&& (a.search_input@.len() > 0 ==> {
        &&& eff == Effect::RunSearch(a.search_input)
        &&& b == (App { loading_state: LoadingState::Loading, mode: AppMode::RepoList, ..a })
    })
}

/// How a key changes the session while the issue popup is open.
pub open spec fn issue_popup_transition(a: App, b: App, key: Key) -> bool {
    &&& (key == Key::Esc ==> b == (App { mode: AppMode::RepoList, selected_repo: None, ..a }))
    &&& (key != Key::Esc ==> b == a)
}

/// Relies on `String::push`: appends one character.
#[verifier::external_body]
fn push_char(s: &mut String, c: char)
    ensures
        final(s)@ == old(s)@ + seq![c],
{
    s.push(c);
}

/// Relies on `String::pop`: removes and returns the last character, or
/// returns `None` on an empty string and leaves it empty.
#[verifier::external_body]
fn pop_char(s: &mut String) -> (r: Option<char>)
    ensures
        old(s)@.len() == 0 ==> final(s)@ == old(s)@ && r is None,
        old(s)@.len() > 0 ==> final(s)@ == old(s)@.drop_last() && r == Some(old(s)@.last()),
{
    s.pop()
}

/// Keys handled on the repository-list screen (besides the commit key):
/// move the selection, or enter search mode.
pub fn handle_repo_list_keys(app: &mut App, key: Key)
    requires
        old(app).wf(),
        old(app).mode == AppMode::RepoList,
    ensures
        final(app).wf(),
        repo_list_transition(*old(app), *final(app), key),
{
    match key {
        Key::Down => app.next(),
        Key::Up => app.previous(),
        Key::Char(c) => {
            if c == 'j' {
                app.next();
            } else if c == 'k' {
                app.previous();
            } else if c == '/' {
                app.enter_search_mode();
            }
        },
        _ => {},
    }
}

/// Keys shared by the detail tabs: enter search mode.
fn handle_issue_list_keys(app: &mut App, key: Key)
    requires
        old(app).wf(),
    ensures
        final(app).wf(),
        key == Key::Char('/') ==> final(app).search_input@.len() == 0 && *final(app) == (App {
            mode: AppMode::Search,
            search_input: final(app).search_input,
            ..*old(app)
        }),
        key != Key::Char('/') ==> *final(app) == *old(app),
{
    match key {
        Key::Char(c) => {
            if c == '/' {
                app.enter_search_mode();
            }
        },
        _ => {},
    }
}

/// Keys handled on the repository-detail screen: move the active tab's
/// selection or scroll, leave for the list, cycle the tab, open the issue
/// popup, or enter search mode.
pub fn handle_repo_detail_keys(app: &mut App, key: Key)
    requires
        old(app).wf(),
        old(app).mode == AppMode::RepoDetail,
    ensures
        final(app).wf(),
        repo_detail_transition(*old(app), *final(app), key),
{
    match key {
        Key::Down => app.next(),
        Key::Up => app.previous(),
        Key::Esc => app.back_to_list(),
        Key::Tab => app.toggle_detail_mode(),
        Key::Enter => {
            match app.detail_mode {
                RepoDetailState::Issues => app.select_current_issue(),
                _ => {},
            }
        },
        Key::Char(c) => {
            if c == 'j' {
                app.next();
            } else if c == 'k' {
                app.previous();
            } else {
                handle_issue_list_keys(app, key);
            }
        },
        _ => {},
    }
}

/// Keys handled in search mode (besides the submit key): edit the buffer
/// or leave without searching.
pub fn handle_search_keys(app: &mut App, key: Key)
    requires
        old(app).wf(),
        old(app).mode == AppMode::Search,
    ensures
        final(app).wf(),
        search_edit_transition(*old(app), *final(app), key),
{
    match key {
        Key::Char(c) => {
            push_char(&mut app.search_input, c);
        },
        Key::Backspace => {
            let _ = pop_char(&mut app.search_input);
        },
        Key::Esc => app.back_to_list(),
        _ => {},
    }
}

/// Keys handled while the issue popup is open: close it.
pub fn handle_issue_popup_keys(app: &mut App, key: Key)
    requires
        old(app).wf(),
    ensures
        final(app).wf(),
        issue_popup_transition(*old(app), *final(app), key),
{
    match key {
        Key::Esc => app.back_to_list(),
        _ => {},
    }
}

/// Route one key: `q` quits from any mode; otherwise the current mode
/// decides which handler runs, and the commit and submit keys report the
/// fetch the driving layer must perform.
pub fn handle_key_event(app: &mut App, key: Key) -> (r: Effect)
    requires
        old(app).wf(),
    ensures
        final(app).wf(),
        key == Key::Char('q') ==> r == Effect::Quit && *final(app) == *old(app),
        key != Key::Char('q') && old(app).mode == AppMode::RepoList ==> {
            &&& (key == Key::Enter ==> commit_repo_transition(*old(app), *final(app), r))
            &&& (key != Key::Enter ==> r == Effect::Continue && repo_list_transition(
                *old(app),
                *final(app),
                key,
            ))
        },
        key != Key::Char('q') && old(app).mode == AppMode::RepoDetail ==> r == Effect::Continue
            && repo_detail_transition(*old(app), *final(app), key),
        key != Key::Char('q') && old(app).mode == AppMode::Search ==> {
            &&& (key == Key::Enter ==> search_submit_transition(*old(app), *final(app), r))
            &&& (key != Key::Enter ==> r == Effect::Continue && search_edit_transition(
                *old(app),
                *final(app),
                key,
            ))
        },
        key != Key::Char('q') && old(app).mode == AppMode::IssuePopUp ==> r == Effect::Continue
            && issue_popup_transition(*old(app), *final(app), key),
{
    if key == Key::Char('q') {
        return Effect::Quit;
    }
    match app.mode {
        AppMode::RepoList => {
            if key == Key::Enter {
                match app.select_current_repo() {
                    Some(name) => Effect::FetchRepoData(name),
                    None => Effect::Continue,
                }
            } else {
                handle_repo_list_keys(app, key);
                Effect::Continue
            }
        },
        AppMode::RepoDetail => {
            handle_repo_detail_keys(app, key);
            Effect::Continue
        },
        AppMode::Search => {
            if key == Key::Enter {
                match app.search_repositories() {
                    Some(query) => Effect::RunSearch(query),
                    None => Effect::Continue,
                }
            } else {
                handle_search_keys(app, key);
                Effect::Continue
            }
        },
        AppMode::IssuePopUp => {
            handle_issue_popup_keys(app, key);
            Effect::Continue
        },
    }
}

} // verus!
