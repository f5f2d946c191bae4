use cnctd_git::account::{GitAccount, GitUser};
use cnctd_git::api::rest::{GitRest, Method, RemoteStage, RequestBody};
use cnctd_git::repo::GitRepo;
use cnctd_git::{GitError, GitProvider};

fn personal() -> GitAccount {
    GitAccount::new(
        GitProvider::GitHub,
        "t0k3n",
        GitUser { login: "alice".to_string() },
        vec!["https://github.com/acme".to_string(), "https://github.com/initech".to_string()],
    )
    .unwrap()
}

fn organization() -> GitAccount {
    let mut account = personal();
    assert!(account.set_default_url("https://github.com/initech"));
    account
}

fn on(provider: GitProvider) -> GitAccount {
    GitAccount {
        provider,
        login: "alice".to_string(),
        token: "t0k3n".to_string(),
        personal_url: provider.namespace_url("alice"),
        org_urls: Vec::new(),
        default_url: provider.namespace_url("alice"),
    }
}

#[test]
fn entry_point_is_the_github_api() {
    assert_eq!(GitRest::new().base_url, "https://api.github.com");
}

#[test]
fn personal_repository_is_created_at_the_user_endpoint() {
    let request = GitRest::create_repo(&personal(), "widgets", "", false).unwrap();
    assert_eq!(request.method, Method::Post);
    assert_eq!(request.url, "https://api.github.com/user/repos");
    assert_eq!(request.token, "t0k3n");
    assert_eq!(
        request.body,
        RequestBody::CreateRepo {
            name: "widgets".to_string(),
            description: String::new(),
            private: false,
        }
    );
}

#[test]
fn organization_repository_is_created_at_the_organization_endpoint() {
    let request = GitRest::create_repo(&organization(), "widgets", "w", true).unwrap();
    assert_eq!(request.url, "https://api.github.com/orgs/initech/repos");
}

#[test]
fn repository_is_read_under_its_namespace() {
    let mine = GitRest::get_repo(&personal(), "widgets").unwrap();
    assert_eq!(mine.method, Method::Get);
    assert_eq!(mine.url, "https://api.github.com/repos/alice/widgets");
    assert_eq!(mine.body, RequestBody::Empty);
    let theirs = GitRest::get_repo(&organization(), "widgets").unwrap();
    assert_eq!(theirs.url, "https://api.github.com/repos/initech/widgets");
    assert_eq!(theirs.token, "t0k3n");
}

#[test]
fn repo_url_names_namespace_and_repository() {
    assert_eq!(GitRest::repo_url(&personal(), "w"), "https://api.github.com/repos/alice/w");
}

#[test]
fn release_is_created_at_the_releases_endpoint() {
    let request = GitRest::create_release(
        &organization(),
        "widgets",
        "v1.2.0",
        "main",
        "Spring release",
        "Fixes and features",
        false,
        true,
    )
    .unwrap();
    assert_eq!(request.method, Method::Post);
    assert_eq!(request.url, "https://api.github.com/repos/initech/widgets/releases");
    assert_eq!(
        request.body,
        RequestBody::CreateRelease {
            tag_name: "v1.2.0".to_string(),
            target_commitish: "main".to_string(),
            name: "Spring release".to_string(),
            body: "Fixes and features".to_string(),
            draft: false,
            prerelease: true,
        }
    );
}

#[test]
fn coordinator_orders_the_release_arguments_by_name() {
    let request = GitRepo::new_release(
        &personal(),
        "widgets",
        "Spring release",
        "v1.2.0",
        "main",
        "Fixes and features",
        true,
        false,
    )
    .unwrap();
    assert_eq!(request.url, "https://api.github.com/repos/alice/widgets/releases");
    assert_eq!(
        request.body,
        RequestBody::CreateRelease {
            tag_name: "v1.2.0".to_string(),
            target_commitish: "main".to_string(),
            name: "Spring release".to_string(),
            body: "Fixes and features".to_string(),
            draft: true,
            prerelease: false,
        }
    );
}

#[test]
fn latest_release_is_read_at_its_endpoint() {
    let request = GitRest::get_latest_release(&personal(), "widgets").unwrap();
    assert_eq!(request.method, Method::Get);
    assert_eq!(request.url, "https://api.github.com/repos/alice/widgets/releases/latest");
    let request = GitRepo::get_latest_release(&organization(), "widgets").unwrap();
    assert_eq!(request.url, "https://api.github.com/repos/initech/widgets/releases/latest");
}

#[test]
fn coordinator_sends_a_missing_description_as_empty() {
    let request = GitRepo::new(&personal(), "widgets", None, true).unwrap();
    assert_eq!(
        request.body,
        RequestBody::CreateRepo {
            name: "widgets".to_string(),
            description: String::new(),
            private: true,
        }
    );
    let request = GitRepo::new(&personal(), "widgets", Some("tools"), true).unwrap();
    assert_eq!(
        request.body,
        RequestBody::CreateRepo {
            name: "widgets".to_string(),
            description: "tools".to_string(),
            private: true,
        }
    );
}

#[test]
fn coordinator_reads_a_repository_like_the_client() {
    assert_eq!(GitRepo::get(&personal(), "w"), GitRest::get_repo(&personal(), "w"));
}

#[test]
fn every_remote_operation_is_refused_for_gitlab_and_bitbucket() {
    for provider in [GitProvider::GitLab, GitProvider::Bitbucket] {
        let account = on(provider);
        let refused = Err(GitError::ProviderUnsupported);
        assert_eq!(GitUser::get(&provider, "t"), refused);
        assert_eq!(GitRest::org_urls(&provider, "t"), refused);
        assert_eq!(GitRest::create_repo(&account, "w", "", false), refused);
        assert_eq!(GitRest::get_repo(&account, "w"), refused);
        assert_eq!(
            GitRest::create_release(&account, "w", "v1", "main", "n", "b", false, false),
            refused
        );
        assert_eq!(GitRest::get_latest_release(&account, "w"), refused);
        assert_eq!(GitRepo::new(&account, "w", None, false), refused);
        assert_eq!(GitRepo::get(&account, "w"), refused);
        assert_eq!(
            GitRepo::new_release(&account, "w", "n", "v1", "main", "b", false, false),
            refused
        );
        assert_eq!(GitRepo::get_latest_release(&account, "w"), refused);
    }
}

#[test]
fn organizations_are_listed_at_the_orgs_endpoint() {
    let request = GitRest::org_urls(&GitProvider::GitHub, "t0k3n").unwrap();
    assert_eq!(request.method, Method::Get);
    assert_eq!(request.url, "https://api.github.com/user/orgs");
    assert_eq!(request.token, "t0k3n");
}

#[test]
fn organization_urls_are_made_from_logins() {
    let urls = GitRest::org_urls_from_logins(&vec!["acme".to_string(), "initech".to_string()]);
    assert_eq!(urls, vec!["https://github.com/acme", "https://github.com/initech"]);
    assert!(GitRest::org_urls_from_logins(&Vec::new()).is_empty());
}

#[test]
fn organization_urls_are_read_from_the_answer() {
    let orgs: Vec<serde_json::Value> = serde_json::from_str(
        r#"[{"login": "acme", "id": 1}, {"id": 2, "login": "initech", "url": "https://x/"}]"#,
    )
    .unwrap();
    assert_eq!(
        GitRest::org_urls_from_response(&orgs),
        Ok(vec!["https://github.com/acme".to_string(), "https://github.com/initech".to_string()])
    );
    assert_eq!(GitRest::org_urls_from_response(&Vec::new()), Ok(Vec::new()));
}

#[test]
fn organization_without_login_makes_the_answer_malformed() {
    let orgs: Vec<serde_json::Value> =
        serde_json::from_str(r#"[{"login": "acme"}, {"id": 2}]"#).unwrap();
    assert_eq!(GitRest::org_urls_from_response(&orgs), Err(GitError::MalformedResponse));
}

#[test]
fn organization_whose_login_is_no_string_makes_the_answer_malformed() {
    let orgs: Vec<serde_json::Value> = serde_json::from_str(r#"[{"login": 7}]"#).unwrap();
    assert_eq!(GitRest::org_urls_from_response(&orgs), Err(GitError::MalformedResponse));
    let orgs: Vec<serde_json::Value> = serde_json::from_str(r#"["acme"]"#).unwrap();
    assert_eq!(GitRest::org_urls_from_response(&orgs), Err(GitError::MalformedResponse));
}

#[test]
fn remote_failures_are_told_apart_by_stage() {
    assert_eq!(GitRest::call_failure(RemoteStage::Transport), GitError::RemoteCallFailed);
    assert_eq!(GitRest::call_failure(RemoteStage::Decode), GitError::MalformedResponse);
}
