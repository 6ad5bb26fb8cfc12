use portfolio_tui::github::{
    authorization, copy_repos, copy_text, credential, retain_owned, GitHubUser, Repo, RepoOwner,
};

fn owned(name: &str, owner: &str) -> Repo {
    Repo {
        name: name.to_string(),
        html_url: format!("https://example.org/{}", name),
        description: None,
        owner: RepoOwner { login: owner.to_string() },
    }
}

fn names(repos: &Vec<Repo>) -> Vec<String> {
    repos.iter().map(|r| r.name.clone()).collect()
}

#[test]
fn retain_owned_keeps_own_repos_in_order() {
    let user = GitHubUser { login: "me".to_string() };
    let repos = vec![
        owned("one", "me"),
        owned("two", "other"),
        owned("three", "me"),
        owned("four", "Me"),
        owned("five", "me"),
    ];
    let kept = retain_owned(repos, &user);
    assert_eq!(names(&kept), vec!["one", "three", "five"]);
    assert_eq!(kept[1].html_url, "https://example.org/three");
    assert_eq!(kept[1].owner.login, "me");
}

#[test]
fn retain_owned_of_nothing_is_nothing() {
    let user = GitHubUser { login: "me".to_string() };
    assert!(retain_owned(Vec::new(), &user).is_empty());
}

#[test]
fn retain_owned_may_drop_everything() {
    let user = GitHubUser { login: "me".to_string() };
    let kept = retain_owned(vec![owned("one", "a"), owned("two", "b")], &user);
    assert!(kept.is_empty());
}

#[test]
fn retain_owned_may_keep_everything() {
    let user = GitHubUser { login: "me".to_string() };
    let kept = retain_owned(vec![owned("one", "me"), owned("two", "me")], &user);
    assert_eq!(names(&kept), vec!["one", "two"]);
}

#[test]
fn credential_passes_a_token_on() {
    assert_eq!(credential(Some("abc".to_string())), Ok("abc".to_string()));
    assert_eq!(credential(Some(String::new())), Ok(String::new()));
}

#[test]
fn credential_reports_a_missing_token() {
    assert_eq!(credential(None), Err("GITHUB_TOKEN not set".to_string()));
}

#[test]
fn authorization_is_a_bearer_value() {
    assert_eq!(authorization("abc"), "Bearer abc");
    assert_eq!(authorization(""), "Bearer ");
}

#[test]
fn copies_hold_the_same_text() {
    assert_eq!(copy_text(&None), None);
    assert_eq!(copy_text(&Some("x".to_string())), Some("x".to_string()));
    let repos = vec![owned("one", "me"), owned("two", "you")];
    let copy = copy_repos(&repos);
    assert_eq!(names(&copy), vec!["one", "two"]);
    assert_eq!(copy[1].owner.login, "you");
    let single = repos[0].clone();
    assert_eq!(single.name, "one");
    assert_eq!(single.html_url, "https://example.org/one");
    assert_eq!(single.description, None);
    let user = GitHubUser { login: "me".to_string() };
    assert_eq!(user.clone().login, "me");
}
