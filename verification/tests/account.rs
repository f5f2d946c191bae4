use cnctd_git::account::{GitAccount, GitUser};
use cnctd_git::api::rest::{GitRest, Method, RequestBody};
use cnctd_git::{GitError, GitProvider};

fn alice() -> GitAccount {
    GitAccount::new(
        GitProvider::GitHub,
        "t0k3n",
        GitUser { login: "alice".to_string() },
        vec!["https://github.com/acme".to_string()],
    )
    .unwrap()
}

#[test]
fn new_account_addresses_its_personal_namespace() {
    let account = alice();
    assert_eq!(account.provider, GitProvider::GitHub);
    assert_eq!(account.login, "alice");
    assert_eq!(account.token, "t0k3n");
    assert_eq!(account.personal_url, "https://github.com/alice");
    assert_eq!(account.org_urls, vec!["https://github.com/acme".to_string()]);
    assert_eq!(account.default_url, "https://github.com/alice");
}

#[test]
fn new_account_is_not_an_organization() {
    assert!(!alice().url_is_org());
}

#[test]
fn account_becomes_an_organization_once_an_org_url_is_default() {
    let mut account = alice();
    let org = account.org_urls[0].clone();
    assert!(account.set_default_url(&org));
    assert!(account.url_is_org());
    assert_eq!(account.default_url, "https://github.com/acme");
}

#[test]
fn reassigning_the_field_directly_is_seen_too() {
    let mut account = alice();
    account.default_url = account.org_urls[0].clone();
    assert!(account.url_is_org());
}

#[test]
fn default_can_return_to_the_personal_namespace() {
    let mut account = alice();
    assert!(account.set_default_url("https://github.com/acme"));
    assert!(account.set_default_url("https://github.com/alice"));
    assert!(!account.url_is_org());
}

#[test]
fn unknown_namespace_is_not_accepted_as_default() {
    let mut account = alice();
    let before = account.clone();
    assert!(!account.set_default_url("https://github.com/mallory"));
    assert_eq!(account, before);
}

#[test]
fn organization_slug_is_the_last_segment_of_the_default_url() {
    let mut account = alice();
    account.default_url = "https://github.com/acme".to_string();
    assert_eq!(account.get_org_from_url(), "acme");
}

#[test]
fn slug_of_the_personal_namespace_is_the_login() {
    assert_eq!(alice().get_org_from_url(), "alice");
}

#[test]
fn namespace_is_the_login_or_the_organization() {
    let mut account = alice();
    assert_eq!(account.namespace(), "alice");
    assert!(account.set_default_url("https://github.com/acme"));
    assert_eq!(account.namespace(), "acme");
}

#[test]
fn account_is_shown_as_its_login() {
    assert_eq!(alice().to_string(), "alice");
}

#[test]
fn account_of_an_organization_creates_repositories_at_the_organization() {
    let mut account = alice();
    assert_eq!(account.personal_url, "https://github.com/alice");
    assert_eq!(account.org_urls, vec!["https://github.com/acme".to_string()]);
    assert_eq!(account.default_url, "https://github.com/alice");
    assert!(account.set_default_url("https://github.com/acme"));
    let request = GitRest::create_repo(&account, "widgets", "all the widgets", true).unwrap();
    assert_eq!(request.method, Method::Post);
    assert_eq!(request.url, "https://api.github.com/orgs/acme/repos");
    assert_ne!(request.url, "https://api.github.com/user/repos");
    assert_eq!(request.token, "t0k3n");
    assert_eq!(
        request.body,
        RequestBody::CreateRepo {
            name: "widgets".to_string(),
            description: "all the widgets".to_string(),
            private: true,
        }
    );
}

#[test]
fn account_creation_is_refused_for_gitlab_and_bitbucket() {
    for provider in [GitProvider::GitLab, GitProvider::Bitbucket] {
        let account =
            GitAccount::new(provider, "t", GitUser { login: "alice".to_string() }, Vec::new());
        assert_eq!(account, Err(GitError::ProviderUnsupported));
    }
}

#[test]
fn identity_request_reads_the_user_endpoint() {
    let request = GitUser::get(&GitProvider::GitHub, "t0k3n").unwrap();
    assert_eq!(request.method, Method::Get);
    assert_eq!(request.url, "https://api.github.com/user");
    assert_eq!(request.token, "t0k3n");
    assert_eq!(request.body, RequestBody::Empty);
}

#[test]
fn identity_request_is_refused_for_gitlab_and_bitbucket() {
    assert_eq!(GitUser::get(&GitProvider::GitLab, "t"), Err(GitError::ProviderUnsupported));
    assert_eq!(GitUser::get(&GitProvider::Bitbucket, "t"), Err(GitError::ProviderUnsupported));
}

#[test]
fn namespace_urls_follow_each_provider() {
    assert_eq!(GitProvider::GitHub.namespace_url("alice"), "https://github.com/alice");
    assert_eq!(GitProvider::GitLab.namespace_url("alice"), "https://gitlab.com/alice");
    assert_eq!(GitProvider::Bitbucket.namespace_url("alice"), "https://bitbucket.org/alice");
}

#[test]
fn only_github_is_supported() {
    assert!(GitProvider::GitHub.is_supported());
    assert!(!GitProvider::GitLab.is_supported());
    assert!(!GitProvider::Bitbucket.is_supported());
}

#[test]
fn every_error_has_its_message() {
    assert_eq!(GitError::ProviderUnsupported.message(), "provider not supported yet");
    assert_eq!(GitError::RepositoryNotFound.message(), "no repository found at this path");
    assert_eq!(GitError::AlreadyInitialized.message(), "repository already has history");
    assert_eq!(
        GitError::IdentityUnavailable.message(),
        "no committer name and e-mail configured"
    );
    assert_eq!(GitError::RemoteAlreadyExists.message(), "remote already exists");
    assert_eq!(GitError::PushRejected.message(), "push rejected by the remote");
    assert_eq!(GitError::RemoteCallFailed.message(), "remote call failed");
    assert_eq!(GitError::MalformedResponse.message(), "malformed response");
    assert_eq!(GitError::Engine("index is locked".to_string()).message(), "index is locked");
}
