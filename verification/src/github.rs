//! Project records as the hosting API describes them, and the rule that picks
//! the repositories a given account owns out of a list of starred ones.

use vstd::prelude::*;

verus! {

/// The account that a credential belongs to.
#[derive(Debug)]
pub struct GitHubUser {
    pub login: String,
}

/// The account that owns a repository.
#[derive(Debug)]
pub struct RepoOwner {
    pub login: String,
}

/// One project record: a name, the link that opens it, an optional
/// description and the owning account.
#[derive(Debug)]
pub struct Repo {
    pub name: String,
    pub html_url: String,
    pub description: Option<String>,
    pub owner: RepoOwner,
}

/// What a `Repo` holds, as plain text.
pub struct RepoView {
    pub name: Seq<char>,
    pub html_url: Seq<char>,
    pub description: Option<Seq<char>>,
    pub owner: Seq<char>,
}

/// The text of an optional string, if there is one.
pub open spec fn text_of(s: Option<String>) -> Option<Seq<char>> {
    match s {
        Some(t) => Some(t@),
        None => None,
    }
}

impl View for GitHubUser {
    type V = Seq<char>;

    open spec fn view(&self) -> Seq<char> {
        self.login@
    }
}

impl View for RepoOwner {
    type V = Seq<char>;

    open spec fn view(&self) -> Seq<char> {
        self.login@
    }
}

impl View for Repo {
    type V = RepoView;

    open spec fn view(&self) -> RepoView {
        RepoView {
            name: self.name@,
            html_url: self.html_url@,
            description: text_of(self.description),
            owner: self.owner@,
        }
    }
}

/// The records of a list, in order.
pub open spec fn records(repos: Seq<Repo>) -> Seq<RepoView> {
    repos.map_values(|r: Repo| r@)
}

/// An independent copy of an optional string.
pub fn copy_text(s: &Option<String>) -> (r: Option<String>)
    ensures
        text_of(r) == text_of(*s),
{
    match s {
        Some(t) => Some(t.clone()),
        None => None,
    }
}

impl Clone for GitHubUser {
    fn clone(&self) -> (r: Self)
        ensures
            r@ == self@,
    {
        GitHubUser { login: self.login.clone() }
    }
}

impl Clone for RepoOwner {
    fn clone(&self) -> (r: Self)
        ensures
            r@ == self@,
    {
        RepoOwner { login: self.login.clone() }
    }
}

impl Clone for Repo {
    fn clone(&self) -> (r: Self)
        ensures
            r@ == self@,
    {
        Repo {
            name: self.name.clone(),
            html_url: self.html_url.clone(),
            description: copy_text(&self.description),
            owner: self.owner.clone(),
        }
    }
}

/// An independent copy of a list of records, in the same order.
pub fn copy_repos(repos: &Vec<Repo>) -> (r: Vec<Repo>)
    ensures
        records(r@) == records(repos@),
{
    let mut out: Vec<Repo> = Vec::new();
    let mut i: usize = 0;
    while i < repos.len()
        invariant
            i <= repos.len(),
            out@.len() == i,
            forall|j: int| 0 <= j < i ==> (#[trigger] out@[j])@ == repos@[j]@,
        decreases repos.len() - i,
    {
        out.push(repos[i].clone());
        i += 1;
    }
    assert(records(out@) =~= records(repos@));
    out
}

/// The credential to fetch with: the configured token, or the message that
/// says that none is configured.
pub fn credential(token: Option<String>) -> (r: Result<String, String>)
    ensures
        match token {
            Some(t) => r == Ok::<String, String>(t),
            None => r matches Err(message) && message@ == "GITHUB_TOKEN not set"@,
        },
{
    match token {
        Some(t) => Ok(t),
        None => Err("GITHUB_TOKEN not set".to_owned()),
    }
}

/// The value of the authorization header for a token.
pub fn authorization(token: &str) -> (value: String)
    ensures
        value@ == "Bearer "@ + token@,
{
    let mut value = "Bearer ".to_owned();
    value.append(token);
    value
}

/// The records of `repos` whose owner is `login`, in their order.
pub open spec fn owned_by(repos: Seq<RepoView>, login: Seq<char>) -> Seq<RepoView> {
    repos.filter(|r: RepoView| r.owner == login)
}

/// Keeps the repositories that `user` owns and drops the others. What stays
/// keeps its order.
pub fn retain_owned(repos: Vec<Repo>, user: &GitHubUser) -> (owned: Vec<Repo>)
    ensures
        records(owned@) == owned_by(records(repos@), user@),
{
    let mut owned: Vec<Repo> = Vec::new();
    let mut i: usize = 0;
    while i < repos.len()
        invariant
            i <= repos.len(),
            records(owned@) == owned_by(records(repos@).take(i as int), user@),
        decreases repos.len() - i,
    {
        let ghost seen = records(repos@).take(i as int);
        let ghost next = records(repos@).take(i + 1);
        proof {
            assert(next =~= seen.push(repos@[i as int]@));
            lemma_owned_by_push(seen, repos@[i as int]@, user@);
        }
        if repos[i].owner.login == user.login {
            let ghost kept = owned@;
            owned.push(repos[i].clone());
            assert(records(owned@) =~= records(kept).push(repos@[i as int]@));
        }
        i += 1;
    }
    assert(records(repos@).take(repos@.len() as int) =~= records(repos@));
    owned
}

/// Filtering a list that grew by one record either appends that record or
/// leaves the result as it was.
pub proof fn lemma_owned_by_push(repos: Seq<RepoView>, last: RepoView, login: Seq<char>)
    ensures
        owned_by(repos.push(last), login) == if last.owner == login {
            owned_by(repos, login).push(last)
        } else {
            owned_by(repos, login)
        },
{
    reveal(Seq::filter);
    assert(repos.push(last).drop_last() =~= repos);
}

} // verus!
