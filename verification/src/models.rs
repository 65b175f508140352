//! Entity records fetched from the repository-hosting API.
//!
//! All four types are immutable value records: once fetched they are never
//! edited, only replaced wholesale. `Clone` is written by hand so that a
//! snapshot provably carries the same data as the list entry it was copied
//! from.

use vstd::prelude::*;

verus! {

/// A repository listing entry.
#[derive(Debug)]
pub struct Repo {
    pub full_name: String,
    pub description: Option<String>,
    pub stargazers_count: u32,
    pub forks_count: u32,
    pub language: Option<String>,
    pub open_issues_count: u32,
    pub updated_at: String,
    pub created_at: String,
    pub html_url: String,
}

/// An issue of a repository, with its ordered labels.
#[derive(Debug)]
pub struct Issue {
    pub title: String,
    pub state: String,
    pub body: Option<String>,
    pub number: u32,
    pub html_url: String,
    pub labels: Vec<Label>,
}

/// A pull request of a repository.
#[derive(Debug)]
pub struct PR {
    pub number: u32,
    pub state: String,
    pub body: Option<String>,
    pub title: String,
    pub html_url: String,
}

/// A display label attached to an issue.
#[derive(Debug)]
pub struct Label {
    pub url: String,
    pub description: Option<String>,
    pub color: Option<String>,
    pub name: String,
}

/// Two issues carry the same data; their label vectors are compared
/// element for element.
pub open spec fn issue_equiv(a: Issue, b: Issue) -> bool {
    &&& a.title == b.title
    &&& a.state == b.state
    &&& a.body == b.body
    &&& a.number == b.number
    &&& a.html_url == b.html_url
    &&& a.labels@ == b.labels@
}

fn clone_opt_string(s: &Option<String>) -> (r: Option<String>)
    ensures
        r == *s,
{
    match s {
        Some(v) => Some(v.clone()),
        None => None,
    }
}

impl Clone for Repo {
    fn clone(&self) -> (r: Self)
        ensures
            r == *self,
    {
        Repo {
            full_name: self.full_name.clone(),
            description: clone_opt_string(&self.description),
            stargazers_count: self.stargazers_count,
            forks_count: self.forks_count,
            language: clone_opt_string(&self.language),
            open_issues_count: self.open_issues_count,
            updated_at: self.updated_at.clone(),
            created_at: self.created_at.clone(),
            html_url: self.html_url.clone(),
        }
    }
}

impl Clone for Label {
    fn clone(&self) -> (r: Self)
        ensures
            r == *self,
    {
        Label {
            url: self.url.clone(),
            description: clone_opt_string(&self.description),
            color: clone_opt_string(&self.color),
            name: self.name.clone(),
        }
    }
}

impl Clone for PR {
    fn clone(&self) -> (r: Self)
        ensures
            r == *self,
    {
        PR {
            number: self.number,
            state: self.state.clone(),
            body: clone_opt_string(&self.body),
            title: self.title.clone(),
            html_url: self.html_url.clone(),
        }
    }
}

impl Clone for Issue {
    fn clone(&self) -> (r: Self)
        ensures
            issue_equiv(*self, r),
    {
        let mut labels: Vec<Label> = Vec::new();
        let mut i: usize = 0;
        while i < self.labels.len()
            invariant
                i <= self.labels@.len(),
                labels@.len() == i,
                forall|j: int| 0 <= j < i ==> labels@[j] == self.labels@[j],
            decreases self.labels@.len() - i,
        {
            labels.push(self.labels[i].clone());
            i = i + 1;
        }
        proof {
            assert(labels@ =~= self.labels@);
        }
        Issue {
            title: self.title.clone(),
            state: self.state.clone(),
            body: clone_opt_string(&self.body),
            number: self.number,
            html_url: self.html_url.clone(),
            labels,
        }
    }
}

} // verus!
