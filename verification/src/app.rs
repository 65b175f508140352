//! Session state and the navigation engine.
//!
//! [`App`] is the single mutable aggregate of the session: the active mode,
//! the loaded entity collections, the selection cursors into them, the
//! snapshots taken at selection time, the loading status shared by every
//! fetch operation, the search buffer and the detail scroll offset.
//!
//! Every cursor obeys one invariant, [`cursor_ok`]: it is `None` exactly when
//! the sequence it indexes is empty, and otherwise a valid index. Replacing a
//! sequence resets its cursor to `Some(0)` when the new sequence is non-empty
//! and to `None` when it is empty.
//!
//! Network transport is not performed here: the operations that need a fetch
//! (`load_user_repos`, `search_repositories`, `select_current_repo`) record
//! the state change, hand the caller the value to fetch for, and the fetched
//! outcome is written back through the `apply_*_result` operations.

use vstd::prelude::*;

use crate::github::FetchError;
use crate::models::{issue_equiv, Issue, Repo, PR};

verus! {

/// The top-level screen the session is displaying.
#[derive(Debug, Clone, Copy, PartialEq, Eq, Structural)]
pub enum AppMode {
    RepoList,
    RepoDetail,
    Search,
    IssuePopUp,
}

/// The in-flight/success/error indicator of the most recently resolved
/// network operation. A single slot shared by every fetch: back-to-back
/// fetches overwrite it, last write wins.
#[derive(Debug, PartialEq)]
pub enum LoadingState {
    Idle,
    Loading,
    Success,
    Error(String),
}

/// The active tab within the repository-detail screen, cyclic.
#[derive(Debug, Clone, Copy, PartialEq, Eq, Structural)]
pub enum RepoDetailState {
    Details,
    Issues,
    PRs,
}

/// A cursor is `None` exactly on an empty sequence, else a valid index.
pub open spec fn cursor_ok(cursor: Option<usize>, len: nat) -> bool {
    match cursor {
        Some(i) => i < len,
        None => len == 0,
    }
}

/// Next cursor position: wraps to `0` past the end, selects `0` from `None`,
/// and is a no-op on an empty sequence.
pub open spec fn advance_spec(cursor: Option<usize>, len: nat) -> Option<usize> {
    if len == 0 {
        cursor
    } else {
        match cursor {
            Some(i) => if i + 1 < len {
                Some((i + 1) as usize)
            } else {
                Some(0usize)
            },
            None => Some(0usize),
        }
    }
}

/// Previous cursor position: wraps to `len - 1` before the start, also from
/// `None`, and is a no-op on an empty sequence.
pub open spec fn retreat_spec(cursor: Option<usize>, len: nat) -> Option<usize> {
    if len == 0 {
        cursor
    } else {
        match cursor {
            Some(i) => if i == 0 {
                Some((len - 1) as usize)
            } else {
                Some((i - 1) as usize)
            },
            None => Some((len - 1) as usize),
        }
    }
}

/// Move a selection cursor one row down, wrapping around.
pub fn advance(cursor: Option<usize>, len: usize) -> (r: Option<usize>)
    ensures
        r == advance_spec(cursor, len as nat),
{
    if len == 0 {
        cursor
    } else {
        match cursor {
            Some(i) => if i < len - 1 {
                Some(i + 1)
            } else {
                Some(0)
            },
            None => Some(0),
        }
    }
}

/// Move a selection cursor one row up, wrapping around.
pub fn retreat(cursor: Option<usize>, len: usize) -> (r: Option<usize>)
    ensures
        r == retreat_spec(cursor, len as nat),
{
    if len == 0 {
        cursor
    } else {
        match cursor {
            Some(i) => if i == 0 {
                Some(len - 1)
            } else {
                Some(i - 1)
            },
            None => Some(len - 1),
        }
    }
}

/// Law: on a non-empty sequence, `advance` and `retreat` are inverses at
/// every valid index; on an empty sequence both are no-ops for any cursor.
pub proof fn lemma_advance_retreat_round_trip(cursor: Option<usize>, len: usize)
    requires
        cursor matches Some(i) ==> i < len,
    ensures
        len == 0 ==> advance_spec(cursor, len as nat) == cursor && retreat_spec(
            cursor,
            len as nat,
        ) == cursor,
        len > 0 && cursor is Some ==> retreat_spec(
            advance_spec(cursor, len as nat),
            len as nat,
        ) == cursor,
        len > 0 && cursor is Some ==> advance_spec(
            retreat_spec(cursor, len as nat),
            len as nat,
        ) == cursor,
{
}

/// Law: on a non-empty sequence, `advance` at the last index wraps to `0`
/// and `retreat` at `0` wraps to the last index.
pub proof fn lemma_cursor_wraparound(len: usize)
    requires
        len > 0,
    ensures
        advance_spec(Some((len - 1) as usize), len as nat) == Some(0usize),
        retreat_spec(Some(0usize), len as nat) == Some((len - 1) as usize),
{
}

/// Cursor validity is preserved by both cursor operations.
pub proof fn lemma_cursor_ops_preserve_ok(cursor: Option<usize>, len: usize)
    requires
        cursor_ok(cursor, len as nat),
    ensures
        cursor_ok(advance_spec(cursor, len as nat), len as nat),
        cursor_ok(retreat_spec(cursor, len as nat), len as nat),
{
}

/// One step of scrolling down: unbounded above but for the machine limit.
pub open spec fn scroll_inc(x: u16) -> u16 {
    if x < 0xffff {
        (x + 1) as u16
    } else {
        x
    }
}

/// One step of scrolling up, saturating at zero.
pub open spec fn scroll_dec(x: u16) -> u16 {
    if x > 0 {
        (x - 1) as u16
    } else {
        0
    }
}

/// The cycle `Details -> Issues -> PRs -> Details`.
pub open spec fn cycle_submode(d: RepoDetailState) -> RepoDetailState {
    match d {
        RepoDetailState::Details => RepoDetailState::Issues,
        RepoDetailState::Issues => RepoDetailState::PRs,
        RepoDetailState::PRs => RepoDetailState::Details,
    }
}

/// The mutable session aggregate.
pub struct App {
    /// Account identifier whose repositories the session starts from.
    pub user: String,
    /// Access token; the driving layer reads it to authenticate the issue
    /// and pull-request fetches.
    pub token: String,
    /// The screen being displayed.
    pub mode: AppMode,
    /// Set when the session should end; the router reports quitting through
    /// its result instead, so this stays `false`.
    pub should_quit: bool,
    /// Loaded repositories, replaced wholesale by each fetch or search.
    pub repos: Vec<Repo>,
    /// Snapshot of the repository selected for the detail screen.
    pub selected_repo: Option<Repo>,
    /// Issues of the selected repository.
    pub issues: Vec<Issue>,
    /// Snapshot of the issue shown in the popup.
    pub selected_issue: Option<Issue>,
    /// Pull requests of the selected repository.
    pub prs: Vec<PR>,
    /// Snapshot slot for a pull request; never written by the current
    /// operations.
    pub selected_pr: Option<PR>,
    /// The active tab of the detail screen.
    pub detail_mode: RepoDetailState,
    /// Cursor into `repos`.
    pub table_cursor: Option<usize>,
    /// Cursor into `issues`.
    pub issue_cursor: Option<usize>,
    /// Cursor into `prs`.
    pub pr_cursor: Option<usize>,
    /// Shared status of the most recent fetch.
    pub loading_state: LoadingState,
    /// Free-text search buffer, cleared on entering search mode.
    pub search_input: String,
    /// Scroll position of the detail tab, saturating at zero.
    pub scroll_offset: u16,
}

impl App {
    /// Every cursor is `None` exactly when its sequence is empty, else a
    /// valid index into it.
    pub open spec fn wf(&self) -> bool {
        &&& cursor_ok(self.table_cursor, self.repos@.len())
        &&& cursor_ok(self.issue_cursor, self.issues@.len())
        &&& cursor_ok(self.pr_cursor, self.prs@.len())
    }

    /// A fresh session: repository list screen, nothing loaded, nothing
    /// selected, idle.
    pub fn new(username: String, token: String) -> (r: App)
        ensures
            r.wf(),
            r.user == username,
            r.token == token,
            r.mode == AppMode::RepoList,
            r.should_quit == false,
            r.repos@.len() == 0,
            r.selected_repo is None,
            r.issues@.len() == 0,
            r.selected_issue is None,
            r.prs@.len() == 0,
            r.selected_pr is None,
            r.detail_mode == RepoDetailState::Details,
            r.table_cursor is None,
            r.issue_cursor is None,
            r.pr_cursor is None,
            r.loading_state == LoadingState::Idle,
            r.search_input@.len() == 0,
            r.scroll_offset == 0,
    {
        App {
            user: username,
            token,
            mode: AppMode::RepoList,
            should_quit: false,
            repos: Vec::new(),
            selected_repo: None,
            issues: Vec::new(),
            selected_issue: None,
            prs: Vec::new(),
            selected_pr: None,
            detail_mode: RepoDetailState::Details,
            table_cursor: None,
            issue_cursor: None,
            pr_cursor: None,
            loading_state: LoadingState::Idle,
            search_input: String::new(),
            scroll_offset: 0,
        }
    }

    /// Move the selection one row down (or scroll down on the detail tab);
    /// which cursor moves is decided by the mode and, on the detail screen,
    /// the active tab. Search and popup modes ignore it.
    pub fn next(&mut self)
        requires
            old(self).wf(),
        ensures
            final(self).wf(),
            old(self).mode == AppMode::RepoList ==> *final(self) == (App {
                table_cursor: advance_spec(old(self).table_cursor, old(self).repos@.len()),
                ..*old(self)
            }),
            old(self).mode == AppMode::RepoDetail && old(self).detail_mode
                == RepoDetailState::Details ==> *final(self) == (App {
                scroll_offset: scroll_inc(old(self).scroll_offset),
                ..*old(self)
            }),
            old(self).mode == AppMode::RepoDetail && old(self).detail_mode
                == RepoDetailState::Issues ==> *final(self) == (App {
                issue_cursor: advance_spec(old(self).issue_cursor, old(self).issues@.len()),
                ..*old(self)
            }),
            old(self).mode == AppMode::RepoDetail && old(self).detail_mode == RepoDetailState::PRs
                ==> *final(self) == (App {
                pr_cursor: advance_spec(old(self).pr_cursor, old(self).prs@.len()),
                ..*old(self)
            }),
            old(self).mode == AppMode::Search || old(self).mode == AppMode::IssuePopUp ==> *final(self) == *old(self),
    {
        match self.mode {
            AppMode::RepoList => {
                self.table_cursor = advance(self.table_cursor, self.repos.len());
            },
            AppMode::RepoDetail => {
                match self.detail_mode {
                    RepoDetailState::Details => {
                        if self.scroll_offset < 0xffff {
                            self.scroll_offset = self.scroll_offset + 1;
                        }
                    },
                    RepoDetailState::Issues => {
                        self.issue_cursor = advance(self.issue_cursor, self.issues.len());
                    },
                    RepoDetailState::PRs => {
                        self.pr_cursor = advance(self.pr_cursor, self.prs.len());
                    },
                }
            },
            AppMode::Search => {},
            AppMode::IssuePopUp => {},
        }
    }

    /// Move the selection one row up (or scroll up on the detail tab),
    /// mirroring [`App::next`].
    pub fn previous(&mut self)
        requires
            old(self).wf(),
        ensures
            final(self).wf(),
            old(self).mode == AppMode::RepoList ==> *final(self) == (App {
                table_cursor: retreat_spec(old(self).table_cursor, old(self).repos@.len()),
                ..*old(self)
            }),
            old(self).mode == AppMode::RepoDetail && old(self).detail_mode
                == RepoDetailState::Details ==> *final(self) == (App {
                scroll_offset: scroll_dec(old(self).scroll_offset),
                ..*old(self)
            }),
            old(self).mode == AppMode::RepoDetail && old(self).detail_mode
                == RepoDetailState::Issues ==> *final(self) == (App {
                issue_cursor: retreat_spec(old(self).issue_cursor, old(self).issues@.len()),
                ..*old(self)
            }),
            old(self).mode == AppMode::RepoDetail && old(self).detail_mode == RepoDetailState::PRs
                ==> *final(self) == (App {
                pr_cursor: retreat_spec(old(self).pr_cursor, old(self).prs@.len()),
                ..*old(self)
            }),
            old(self).mode == AppMode::Search || old(self).mode == AppMode::IssuePopUp ==> *final(self) == *old(self),
    {
        match self.mode {
            AppMode::RepoList => {
                self.table_cursor = retreat(self.table_cursor, self.repos.len());
            },
            AppMode::RepoDetail => {
                match self.detail_mode {
                    RepoDetailState::Details => {
                        if self.scroll_offset > 0 {
                            self.scroll_offset = self.scroll_offset - 1;
                        }
                    },
                    RepoDetailState::Issues => {
                        self.issue_cursor = retreat(self.issue_cursor, self.issues.len());
                    },
                    RepoDetailState::PRs => {
                        self.pr_cursor = retreat(self.pr_cursor, self.prs.len());
                    },
                }
            },
            AppMode::Search => {},
            AppMode::IssuePopUp => {},
        }
    }

    /// Commit the highlighted repository as the current selection: snapshot
    /// it, clear the dependent issue/pull-request data and cursors, and
    /// switch to the detail screen on its first tab. Returns the full name
    /// the caller must fetch issues and pull requests for, or `None` when
    /// nothing is selected.
    pub fn select_current_repo(&mut self) -> (r: Option<String>)
        requires
            old(self).wf(),
        ensures
            final(self).wf(),
            old(self).table_cursor is None ==> *final(self) == *old(self) && r is None,
            old(self).table_cursor matches Some(i) ==> {
                &&& final(self).selected_repo == Some(old(self).repos@[i as int])
                &&& r == Some(old(self).repos@[i as int].full_name)
                &&& final(self).issues@.len() == 0
                &&& final(self).prs@.len() == 0
                &&& *final(self) == (App {
                    selected_repo: final(self).selected_repo,
                    issues: final(self).issues,
                    prs: final(self).prs,
                    issue_cursor: None,
                    pr_cursor: None,
                    mode: AppMode::RepoDetail,
                    detail_mode: RepoDetailState::Details,
                    scroll_offset: 0,
                    ..*old(self)
                })
            },
    {
        match self.table_cursor {
            Some(i) => {
                let repo = self.repos[i].clone();
                let name = repo.full_name.clone();
                self.selected_repo = Some(repo);
                self.issues = Vec::new();
                self.prs = Vec::new();
                self.issue_cursor = None;
                self.pr_cursor = None;
                self.mode = AppMode::RepoDetail;
                self.detail_mode = RepoDetailState::Details;
                self.scroll_offset = 0;
                Some(name)
            },
            None => None,
        }
    }

    /// Commit the highlighted issue as the popup's snapshot and open the
    /// popup. Nothing happens when no issue is selected.
    pub fn select_current_issue(&mut self)
        requires
            old(self).wf(),
        ensures
            final(self).wf(),
            old(self).issue_cursor is None ==> *final(self) == *old(self),
            old(self).issue_cursor matches Some(i) ==> {
                &&& final(self).selected_issue matches Some(snap)
                &&& issue_equiv(old(self).issues@[i as int], snap)
                &&& *final(self) == (App {
                    selected_issue: final(self).selected_issue,
                    mode: AppMode::IssuePopUp,
                    ..*old(self)
                })
            },
    {
        match self.issue_cursor {
            Some(i) => {
                self.selected_issue = Some(self.issues[i].clone());
                self.mode = AppMode::IssuePopUp;
            },
            None => {},
        }
    }

    /// Leave the current screen for the repository list, dropping the
    /// repository snapshot but keeping the loaded list.
    pub fn back_to_list(&mut self)
        requires
            old(self).wf(),
        ensures
            final(self).wf(),
            *final(self) == (App {
                mode: AppMode::RepoList,
                selected_repo: None,
                ..*old(self)
            }),
    {
        self.mode = AppMode::RepoList;
        self.selected_repo = None;
    }

    /// Switch to search mode with a cleared search buffer.
    pub fn enter_search_mode(&mut self)
        requires
            old(self).wf(),
        ensures
            final(self).wf(),
            final(self).search_input@.len() == 0,
            *final(self) == (App {
                mode: AppMode::Search,
                search_input: final(self).search_input,
                ..*old(self)
            }),
    {
        self.mode = AppMode::Search;
        self.search_input = String::new();
    }

    /// Begin loading the account's repositories: mark the session loading
    /// and return the account identifier the caller must fetch for. The
    /// outcome is written back through [`App::apply_repos_result`].
    pub fn load_user_repos(&mut self) -> (r: String)
        requires
            old(self).wf(),
        ensures
            final(self).wf(),
            r == old(self).user,
            *final(self) == (App { loading_state: LoadingState::Loading, ..*old(self) }),
    {
        self.loading_state = LoadingState::Loading;
        self.user.clone()
    }

    /// Begin a repository search: with a non-empty buffer, mark the session
    /// loading, return to the repository list screen, and return the query
    /// the caller must run. With an empty buffer nothing happens.
    pub fn search_repositories(&mut self) -> (r: Option<String>)
        requires
            old(self).wf(),
        ensures
            final(self).wf(),
            old(self).search_input@.len() == 0 ==> *final(self) == *old(self) && r is None,
            old(self).search_input@.len() > 0 ==> {
                &&& r == Some(old(self).search_input)
                &&& *final(self) == (App {
                    loading_state: LoadingState::Loading,
                    mode: AppMode::RepoList,
                    ..*old(self)
                })
            },
    {
        if self.search_input.as_str().is_empty() {
            return None;
        }
        self.loading_state = LoadingState::Loading;
        self.mode = AppMode::RepoList;
        Some(self.search_input.clone())
    }

    /// Begin loading the selected repository's issues: with a snapshot in
    /// place, mark the session loading and return the full name the caller
    /// must fetch issues for; without one nothing happens. The outcome is
    /// written back through [`App::apply_issues_result`].
    pub fn load_selected_repo_issues(&mut self) -> (r: Option<String>)
        requires
            old(self).wf(),
        ensures
            final(self).wf(),
            old(self).selected_repo is None ==> *final(self) == *old(self) && r is None,
            old(self).selected_repo matches Some(repo) ==> {
                &&& r == Some(repo.full_name)
                &&& *final(self) == (App { loading_state: LoadingState::Loading, ..*old(self) })
            },
    {
        match &self.selected_repo {
            Some(repo) => {
                let name = repo.full_name.clone();
                self.loading_state = LoadingState::Loading;
                Some(name)
            },
            None => None,
        }
    }

    /// Begin loading the selected repository's pull requests, mirroring
    /// [`App::load_selected_repo_issues`]; the outcome is written back
    /// through [`App::apply_prs_result`].
    pub fn load_selected_repo_prs(&mut self) -> (r: Option<String>)
        requires
            old(self).wf(),
        ensures
            final(self).wf(),
            old(self).selected_repo is None ==> *final(self) == *old(self) && r is None,
            old(self).selected_repo matches Some(repo) ==> {
                &&& r == Some(repo.full_name)
                &&& *final(self) == (App { loading_state: LoadingState::Loading, ..*old(self) })
            },
    {
        match &self.selected_repo {
            Some(repo) => {
                let name = repo.full_name.clone();
                self.loading_state = LoadingState::Loading;
                Some(name)
            },
            None => None,
        }
    }

    /// Write a repository fetch or search outcome into the session. A new
    /// list resets its cursor to the first row, or to no selection when the
    /// list is empty; a failure stores the message and leaves the list and
    /// cursor untouched.
    pub fn apply_repos_result(&mut self, r: Result<Vec<Repo>, FetchError>)
        requires
            old(self).wf(),
        ensures
            final(self).wf(),
            r matches Ok(v) ==> {
                &&& final(self).table_cursor == (if v@.len() > 0 {
                    Some(0usize)
                } else {
                    None::<usize>
                })
                &&& *final(self) == (App {
                    repos: v,
                    table_cursor: final(self).table_cursor,
                    loading_state: LoadingState::Success,
                    ..*old(self)
                })
            },
            r matches Err(e) ==> *final(self) == (App {
                loading_state: LoadingState::Error(e.msg()),
                ..*old(self)
            }),
    {
        match r {
            Ok(v) => {
                let nonempty = v.len() > 0;
                self.repos = v;
                self.table_cursor = if nonempty {
                    Some(0)
                } else {
                    None
                };
                self.loading_state = LoadingState::Success;
            },
            Err(e) => {
                self.loading_state = LoadingState::Error(e.into_message());
            },
        }
    }

    /// Write an issues fetch outcome into the session, with the same cursor
    /// reset and failure behaviour as [`App::apply_repos_result`].
    pub fn apply_issues_result(&mut self, r: Result<Vec<Issue>, FetchError>)
        requires
            old(self).wf(),
        ensures
            final(self).wf(),
            r matches Ok(v) ==> {
                &&& final(self).issue_cursor == (if v@.len() > 0 {
                    Some(0usize)
                } else {
                    None::<usize>
                })
                &&& *final(self) == (App {
                    issues: v,
                    issue_cursor: final(self).issue_cursor,
                    loading_state: LoadingState::Success,
                    ..*old(self)
                })
            },
            r matches Err(e) ==> *final(self) == (App {
                loading_state: LoadingState::Error(e.msg()),
                ..*old(self)
            }),
    {
        match r {
            Ok(v) => {
                let nonempty = v.len() > 0;
                self.issues = v;
                self.issue_cursor = if nonempty {
                    Some(0)
                } else {
                    None
                };
                self.loading_state = LoadingState::Success;
            },
            Err(e) => {
                self.loading_state = LoadingState::Error(e.into_message());
            },
        }
    }

    /// Write a pull-requests fetch outcome into the session, with the same
    /// cursor reset and failure behaviour as [`App::apply_repos_result`].
    pub fn apply_prs_result(&mut self, r: Result<Vec<PR>, FetchError>)
        requires
            old(self).wf(),
        ensures
            final(self).wf(),
            r matches Ok(v) ==> {
                &&& final(self).pr_cursor == (if v@.len() > 0 {
                    Some(0usize)
                } else {
                    None::<usize>
                })
                &&& *final(self) == (App {
                    prs: v,
                    pr_cursor: final(self).pr_cursor,
                    loading_state: LoadingState::Success,
                    ..*old(self)
                })
            },
            r matches Err(e) ==> *final(self) == (App {
                loading_state: LoadingState::Error(e.msg()),
                ..*old(self)
            }),
    {
        match r {
            Ok(v) => {
                let nonempty = v.len() > 0;
                self.prs = v;
                self.pr_cursor = if nonempty {
                    Some(0)
                } else {
                    None
                };
                self.loading_state = LoadingState::Success;
            },
            Err(e) => {
                self.loading_state = LoadingState::Error(e.into_message());
            },
        }
    }

    /// Cycle the detail tab: `Details -> Issues -> PRs -> Details`.
    pub fn toggle_detail_mode(&mut self)
        requires
            old(self).wf(),
        ensures
            final(self).wf(),
            *final(self) == (App {
                detail_mode: cycle_submode(old(self).detail_mode),
                ..*old(self)
            }),
    {
        match self.detail_mode {
            RepoDetailState::Details => self.detail_mode = RepoDetailState::Issues,
            RepoDetailState::Issues => self.detail_mode = RepoDetailState::PRs,
            RepoDetailState::PRs => self.detail_mode = RepoDetailState::Details,
        }
    }
}

} // verus!
