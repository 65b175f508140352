//! The compute side of the data-fetch pipeline.
//!
//! The four remote operations (list a user's repositories with pagination,
//! search repositories, list issues, list pull requests) are split into what
//! can be computed here — the request URLs, the pagination state machine,
//! the failure taxonomy — and the transport itself, which the driving layer
//! performs with these values. Every request carries the fixed client
//! identifier [`USER_AGENT`] and the versioned JSON media type [`ACCEPT`].

use vstd::prelude::*;
use vstd::string::StringExecFns;

use crate::models::Repo;

verus! {

/// Client identifier sent with every request.
pub const USER_AGENT: &'static str = "gte/0.1";

/// Media type selecting the versioned JSON representation.
pub const ACCEPT: &'static str = "application/vnd.github+json";

/// Why a fetch produced no data: the transport failed, the server answered
/// with a non-success status, or the body could not be decoded. Each cause
/// carries a human-readable message, which is all the session keeps.
#[derive(Debug, PartialEq)]
pub enum FetchError {
    Transport(String),
    Status(String),
    Decode(String),
}

impl FetchError {
    /// The message carried by any of the three causes.
    pub open spec fn msg(self) -> String {
        match self {
            FetchError::Transport(m) => m,
            FetchError::Status(m) => m,
            FetchError::Decode(m) => m,
        }
    }

    /// Surrender the carried message.
    pub fn into_message(self) -> (r: String)
        ensures
            r == self.msg(),
    {
        match self {
            FetchError::Transport(m) => m,
            FetchError::Status(m) => m,
            FetchError::Decode(m) => m,
        }
    }
}

/// What `urlencoding::encode` returns for a given text: every byte of its
/// UTF-8 form outside alphanumerics and `-`, `_`, `.`, `~` percent-encoded.
/// The result depends on the characters alone.
pub uninterp spec fn url_encoded(s: Seq<char>) -> Seq<char>;

/// Relies on `urlencoding::encode`: percent-encodes every byte except
/// alphanumerics and `-`, `_`, `.`, `~`, a pure function of its input.
#[verifier::external_body]
fn encode_component(s: &str) -> (r: String)
    ensures
        r@ == url_encoded(s@),
{
    urlencoding::encode(s).into_owned()
}

/// The decimal digit `d` as a character.
pub open spec fn dec_digit(d: nat) -> char {
    if d == 0 {
        '0'
    } else if d == 1 {
        '1'
    } else if d == 2 {
        '2'
    } else if d == 3 {
        '3'
    } else if d == 4 {
        '4'
    } else if d == 5 {
        '5'
    } else if d == 6 {
        '6'
    } else if d == 7 {
        '7'
    } else if d == 8 {
        '8'
    } else {
        '9'
    }
}

/// The decimal representation of `n`, most significant digit first, with no
/// leading zeros (`0` itself is `"0"`).
pub open spec fn dec_rep(n: nat) -> Seq<char>
    decreases n,
{
    if n < 10 {
        seq![dec_digit(n)]
    } else {
        dec_rep(n / 10) + seq![dec_digit(n % 10)]
    }
}

/// The decimal digit `d` as a one-character string slice.
fn dec_digit_str(d: u32) -> (r: &'static str)
    requires
        d < 10,
    ensures
        r@ == seq![dec_digit(d as nat)],
{
    proof {
        reveal_strlit("0");
        reveal_strlit("1");
        reveal_strlit("2");
        reveal_strlit("3");
        reveal_strlit("4");
        reveal_strlit("5");
        reveal_strlit("6");
        reveal_strlit("7");
        reveal_strlit("8");
        reveal_strlit("9");
    }
    let r: &'static str = match d {
        0 => "0",
        1 => "1",
        2 => "2",
        3 => "3",
        4 => "4",
        5 => "5",
        6 => "6",
        7 => "7",
        8 => "8",
        _ => "9",
    };
    proof {
        assert(r@ =~= seq![dec_digit(d as nat)]);
    }
    r
}

/// Render `n` in decimal.
pub fn u32_dec(n: u32) -> (r: String)
    ensures
        r@ == dec_rep(n as nat),
    decreases n,
{
    if n < 10 {
        let r = dec_digit_str(n).to_owned();
        proof {
            assert(r@ =~= dec_rep(n as nat));
        }
        r
    } else {
        let mut s = u32_dec(n / 10);
        s.append(dec_digit_str(n % 10));
        proof {
            assert(s@ =~= dec_rep(n as nat));
        }
        s
    }
}

/// One page of the repository listing of `username`, with the fixed page
/// size of the listing endpoint.
pub fn repos_page_url(username: &str, page: u32) -> (r: String)
    ensures
        r@ == "https://api.github.com/users/"@ + username@ + "/repos?per_page=100&page="@
            + dec_rep(page as nat),
{
    let mut s = "https://api.github.com/users/".to_owned();
    s.append(username);
    s.append("/repos?per_page=100&page=");
    let page_s = u32_dec(page);
    s.append(page_s.as_str());
    s
}

/// The search endpoint for the raw query `query`, percent-encoded for URL
/// transport.
pub fn search_url(query: &str) -> (r: String)
    ensures
        r@ == "https://api.github.com/search/repositories?q="@ + url_encoded(query@)
            + "&per_page=100"@,
{
    let mut s = "https://api.github.com/search/repositories?q=".to_owned();
    let enc = encode_component(query);
    s.append(enc.as_str());
    s.append("&per_page=100");
    s
}

/// All issues, open and closed, of the repository `full_name`.
pub fn issues_url(full_name: &str) -> (r: String)
    ensures
        r@ == "https://api.github.com/repos/"@ + full_name@ + "/issues?state=all"@,
{
    let mut s = "https://api.github.com/repos/".to_owned();
    s.append(full_name);
    s.append("/issues?state=all");
    s
}

/// The single-page listing of the authenticated user's own and
/// collaborator repositories.
pub fn private_repos_url() -> (r: String)
    ensures
        r@ == "https://api.github.com/user/repos?per_page=100&affiliation=owner,collaborator"@,
{
    "https://api.github.com/user/repos?per_page=100&affiliation=owner,collaborator".to_owned()
}

/// All pull requests, open and closed, of the repository `full_name`.
pub fn pulls_url(full_name: &str) -> (r: String)
    ensures
        r@ == "https://api.github.com/repos/"@ + full_name@ + "/pulls?state=all"@,
{
    let mut s = "https://api.github.com/repos/".to_owned();
    s.append(full_name);
    s.append("/pulls?state=all");
    s
}

/// The pagination state machine of the repository listing. Pages are
/// requested starting at `1`; page `n + 1` is requested only after page `n`
/// came back non-empty, the first empty page ends the run, and every page is
/// accumulated in order.
pub struct Paginator {
    /// The page to request next, starting at `1`.
    pub next_page: u32,
    /// Every repository received so far, in arrival order.
    pub repos: Vec<Repo>,
    /// Set once an empty page arrived; no further page is requested.
    pub done: bool,
}

impl Paginator {
    /// Ready to request the first page, nothing accumulated.
    pub fn new() -> (r: Paginator)
        ensures
            r.next_page == 1,
            r.repos@.len() == 0,
            !r.done,
    {
        Paginator { next_page: 1, repos: Vec::new(), done: false }
    }

    /// The page the caller must request next, or `None` once the run ended.
    pub fn pending_page(&self) -> (r: Option<u32>)
        ensures
            r == (if self.done {
                None::<u32>
            } else {
                Some(self.next_page)
            }),
    {
        if self.done {
            None
        } else {
            Some(self.next_page)
        }
    }

    /// Feed the page that came back for `next_page`: an empty page ends the
    /// run and changes nothing else; a non-empty page is appended in order
    /// and the following page becomes due.
    pub fn feed(&mut self, page: Vec<Repo>)
        requires
            !old(self).done,
            old(self).next_page < 0xffff_ffffu32,
        ensures
            page@.len() == 0 ==> *final(self) == (Paginator { done: true, ..*old(self) }),
            page@.len() > 0 ==> {
                &&& !final(self).done
                &&& final(self).next_page == old(self).next_page + 1
                &&& final(self).repos@ == old(self).repos@ + page@
                &&& *final(self) == (Paginator {
                    next_page: final(self).next_page,
                    repos: final(self).repos,
                    done: false,
                    ..*old(self)
                })
            },
    {
        let mut page = page;
        if page.len() == 0 {
            self.done = true;
        } else {
            self.repos.append(&mut page);
            self.next_page = self.next_page + 1;
        }
    }

    /// Surrender the accumulated repositories.
    pub fn into_repos(self) -> (r: Vec<Repo>)
        ensures
            r == self.repos,
    {
        self.repos
    }
}

} // verus!
