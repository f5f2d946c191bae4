//! The requests that address a hosting provider's REST interface.

use vstd::prelude::*;
use crate::account::{GitAccount, GitAccountView};
use crate::text::texts;
use crate::{GitError, GitProvider};

verus! {

/// How a request is sent.
#[derive(Debug, Clone, Copy, PartialEq, Eq, Structural)]
pub enum Method {
    Get,
    Post,
}

/// The part of a remote call that failed.
#[derive(Debug, Clone, Copy, PartialEq, Eq, Structural)]
pub enum RemoteStage {
    /// The call itself: the provider was not reached or refused it.
    Transport,
    /// Reading the answer as the record that was asked for.
    Decode,
}

/// What a request carries.
#[derive(Debug, Clone, PartialEq, Eq)]
pub enum RequestBody {
    Empty,
    CreateRepo { name: String, description: String, private: bool },
    CreateRelease {
        tag_name: String,
        target_commitish: String,
        name: String,
        body: String,
        draft: bool,
        prerelease: bool,
    },
}

/// What a `RequestBody` holds, as mathematical values.
pub enum RequestBodyView {
    Empty,
    CreateRepo { name: Seq<char>, description: Seq<char>, private: bool },
    CreateRelease {
        tag_name: Seq<char>,
        target_commitish: Seq<char>,
        name: Seq<char>,
        body: Seq<char>,
        draft: bool,
        prerelease: bool,
    },
}

impl View for RequestBody {
    type V = RequestBodyView;

    open spec fn view(&self) -> RequestBodyView {
        match *self {
            RequestBody::Empty => RequestBodyView::Empty,
            RequestBody::CreateRepo { name, description, private } => RequestBodyView::CreateRepo {
                name: name@,
                description: description@,
                private,
            },
            RequestBody::CreateRelease {
                tag_name,
                target_commitish,
                name,
                body,
                draft,
                prerelease,
            } => RequestBodyView::CreateRelease {
                tag_name: tag_name@,
                target_commitish: target_commitish@,
                name: name@,
                body: body@,
                draft,
                prerelease,
            },
        }
    }
}

/// One authenticated call of the provider's interface.
#[derive(Debug, Clone, PartialEq, Eq)]
pub struct RestRequest {
    pub method: Method,
    pub url: String,
    /// The token that authorises the call.
    pub token: String,
    pub body: RequestBody,
}

/// What a `RestRequest` holds, as mathematical values.
pub struct RestRequestView {
    pub method: Method,
    pub url: Seq<char>,
    pub token: Seq<char>,
    pub body: RequestBodyView,
}

impl View for RestRequest {
    type V = RestRequestView;

    open spec fn view(&self) -> RestRequestView {
        RestRequestView {
            method: self.method,
            url: self.url@,
            token: self.token@,
            body: self.body@,
        }
    }
}

/// A request that reads `url`.
pub open spec fn spec_get(url: Seq<char>, token: Seq<char>) -> RestRequestView {
    RestRequestView { method: Method::Get, url, token, body: RequestBodyView::Empty }
}

/// A request that sends `body` to `url`.
pub open spec fn spec_post(
    url: Seq<char>,
    token: Seq<char>,
    body: RequestBodyView,
) -> RestRequestView {
    RestRequestView { method: Method::Post, url, token, body }
}

/// The origin of GitHub's REST interface.
pub open spec fn api_root() -> Seq<char> {
    "https://api.github.com"@
}

/// Whether `built` is what `expected` describes: the same request by its
/// view, or the same error.
pub open spec fn is_request(
    built: Result<RestRequest, GitError>,
    expected: Result<RestRequestView, GitError>,
) -> bool {
    match built {
        Ok(request) => expected == Ok::<RestRequestView, GitError>(request@),
        Err(error) => expected == Err::<RestRequestView, GitError>(error),
    }
}

/// The request that reads `url` on a supported provider; no request on any
/// other.
pub open spec fn spec_read(provider: GitProvider, url: Seq<char>, token: Seq<char>) -> Result<
    RestRequestView,
    GitError,
> {
    if provider.is_supported() {
        Ok(spec_get(url, token))
    } else {
        Err(GitError::ProviderUnsupported)
    }
}

/// The request that asks whose token this is.
pub open spec fn spec_user_request(provider: GitProvider, token: Seq<char>) -> Result<
    RestRequestView,
    GitError,
> {
    spec_read(provider, "https://api.github.com/user"@, token)
}

/// The request that lists the organizations of the token's user.
pub open spec fn spec_orgs_request(provider: GitProvider, token: Seq<char>) -> Result<
    RestRequestView,
    GitError,
> {
    spec_read(provider, "https://api.github.com/user/orgs"@, token)
}

/// Where a repository is created: under the organization where the default
/// namespace is one, else under the user.
pub open spec fn spec_create_repo_url(account: GitAccountView) -> Seq<char> {
    if account.is_org() {
        api_root() + "/orgs/"@ + account.org_slug() + "/repos"@
    } else {
        api_root() + "/user/repos"@
    }
}

/// Where the repository `repo` of the account's default namespace is read.
pub open spec fn spec_repo_url(account: GitAccountView, repo: Seq<char>) -> Seq<char> {
    api_root() + "/repos/"@ + account.namespace() + "/"@ + repo
}

/// Where the releases of `repo` are created.
pub open spec fn spec_releases_url(account: GitAccountView, repo: Seq<char>) -> Seq<char> {
    spec_repo_url(account, repo) + "/releases"@
}

/// Where the latest release of `repo` is read.
pub open spec fn spec_latest_release_url(account: GitAccountView, repo: Seq<char>) -> Seq<char> {
    spec_repo_url(account, repo) + "/releases/latest"@
}

/// The request that creates the repository `name`.
pub open spec fn spec_create_repo(
    account: GitAccountView,
    name: Seq<char>,
    description: Seq<char>,
    private: bool,
) -> Result<RestRequestView, GitError> {
    if account.provider.is_supported() {
        Ok(
            spec_post(
                spec_create_repo_url(account),
                account.token,
                RequestBodyView::CreateRepo { name, description, private },
            ),
        )
    } else {
        Err(GitError::ProviderUnsupported)
    }
}

/// The request that reads the repository `repo`.
pub open spec fn spec_get_repo(account: GitAccountView, repo: Seq<char>) -> Result<
    RestRequestView,
    GitError,
> {
    spec_read(account.provider, spec_repo_url(account, repo), account.token)
}

/// The request that publishes a release of `repo`.
pub open spec fn spec_create_release(
    account: GitAccountView,
    repo: Seq<char>,
    release: RequestBodyView,
) -> Result<RestRequestView, GitError> {
    if account.provider.is_supported() {
        Ok(spec_post(spec_releases_url(account, repo), account.token, release))
    } else {
        Err(GitError::ProviderUnsupported)
    }
}

/// The request that reads the latest release of `repo`.
pub open spec fn spec_get_latest_release(account: GitAccountView, repo: Seq<char>) -> Result<
    RestRequestView,
    GitError,
> {
    spec_read(account.provider, spec_latest_release_url(account, repo), account.token)
}

/// The URLs of the organizations with the given logins, in order.
pub open spec fn spec_org_urls(logins: Seq<Seq<char>>) -> Seq<Seq<char>> {
    Seq::new(logins.len(), |i: int| GitProvider::GitHub.spec_namespace_url(logins[i]))
}

/// `serde_json::Value`, a JSON value, carried through as it was received.
#[verifier::external_type_specification]
#[verifier::external_body]
pub struct ExJsonValue(serde_json::Value);

/// The members of a JSON object whose values are strings, by key. A value
/// that is no object has none.
pub uninterp spec fn json_text_members(value: serde_json::Value) -> Map<Seq<char>, Seq<char>>;

/// `serde_json::Value`'s index by a string key, followed by `Value::as_str`.
/// The index yields the member of that key where the value is an object that
/// has one, and null in every other case; `as_str` yields the text of a JSON
/// string and nothing for any other value. So the result is the text of the
/// member `key` where `value` is an object whose member `key` is a string.
#[verifier::external_body]
fn text_member(value: &serde_json::Value, key: &str) -> (text: Option<String>)
    ensures
        text matches Some(found) ==> json_text_members(*value).contains_key(key@)
            && json_text_members(*value)[key@] == found@,
        text is None ==> !json_text_members(*value).contains_key(key@),
{
    match value[key].as_str() {
        Some(found) => Some(found.to_owned()),
        None => None,
    }
}

/// Whether every entry of `orgs` names its login.
pub open spec fn all_name_login(orgs: Seq<serde_json::Value>) -> bool {
    forall|i: int|
        0 <= i < orgs.len() ==> json_text_members(#[trigger] orgs[i]).contains_key("login"@)
}

/// The logins that the entries of `orgs` name, in order.
pub open spec fn spec_logins(orgs: Seq<serde_json::Value>) -> Seq<Seq<char>> {
    Seq::new(orgs.len(), |i: int| json_text_members(orgs[i])["login"@])
}

/// The entry point of the provider's REST interface.
#[derive(Debug, Clone, PartialEq, Eq)]
pub struct GitRest {
    pub base_url: String,
}

impl GitRest {
    /// The entry point of GitHub's interface.
    pub fn new() -> (rest: GitRest)
        ensures
            rest.base_url@ == api_root(),
    {
        GitRest { base_url: String::from_str("https://api.github.com") }
    }

    /// The error that stands for a failure of a remote call at `stage`: a
    /// call that did not go through failed, and an answer that cannot be read
    /// is malformed.
    pub fn call_failure(stage: RemoteStage) -> (error: GitError)
        ensures
            error == match stage {
                RemoteStage::Transport => GitError::RemoteCallFailed,
                RemoteStage::Decode => GitError::MalformedResponse,
            },
    {
        match stage {
            RemoteStage::Transport => GitError::RemoteCallFailed,
            RemoteStage::Decode => GitError::MalformedResponse,
        }
    }

    /// A request that reads `url` with `token`.
    pub fn get_request(url: &str, token: &str) -> (request: RestRequest)
        ensures
            request@ == spec_get(url@, token@),
    {
        RestRequest {
            method: Method::Get,
            url: String::from_str(url),
            token: String::from_str(token),
            body: RequestBody::Empty,
        }
    }
    /// A request that sends `body` to `url` with `token`.
    pub fn post_request(url: String, token: &str, body: RequestBody) -> (request: RestRequest)
        ensures
            request@ == spec_post(url@, token@, body@),
    {
        RestRequest { method: Method::Post, url, token: String::from_str(token), body }
    }

    /// The request that lists the organizations of the token's user. Fails
    /// with `ProviderUnsupported` for every provider but GitHub.
    pub fn org_urls(provider: &GitProvider, token: &str) -> (request: Result<RestRequest, GitError>)
        ensures
            is_request(request, spec_orgs_request(*provider, token@)),
    {
        match provider {
            GitProvider::GitHub => Ok(
                Self::get_request("https://api.github.com/user/orgs", token),
            ),
            _ => Err(GitError::ProviderUnsupported),
        }
    }

    /// The namespace URL of each organization, from their logins and in
    /// their order.
    pub fn org_urls_from_logins(logins: &Vec<String>) -> (urls: Vec<String>)
        ensures
            texts(urls@) == spec_org_urls(texts(logins@)),
    {
        let mut urls: Vec<String> = Vec::new();
        let mut i: usize = 0;
        while i < logins.len()
            invariant
                i <= logins.len(),
                urls@.len() == i,
                forall|j: int|
                    0 <= j < i ==> urls@[j]@ == GitProvider::GitHub.spec_namespace_url(
                        logins@[j]@,
                    ),
            decreases logins.len() - i,
        {
            urls.push(GitProvider::GitHub.namespace_url(logins[i].as_str()));
            i += 1;
        }
        assert(texts(urls@) =~= spec_org_urls(texts(logins@)));
        urls
    }

    /// The namespace URL of each organization that the provider listed, in
    /// the order of the list. Fails with `MalformedResponse` exactly where an
    /// entry has no member `login` that is a string.
    pub fn org_urls_from_response(orgs: &Vec<serde_json::Value>) -> (urls: Result<
        Vec<String>,
        GitError,
    >)
        ensures
            !all_name_login(orgs@) ==> urls == Err::<Vec<String>, GitError>(
                GitError::MalformedResponse,
            ),
            all_name_login(orgs@) ==> (urls matches Ok(listed) && texts(listed@) == spec_org_urls(
                spec_logins(orgs@),
            )),
    {
        let mut logins: Vec<String> = Vec::new();
        let mut i: usize = 0;
        while i < orgs.len()
            invariant
                i <= orgs.len(),
                logins@.len() == i,
                forall|j: int|
                    0 <= j < i ==> json_text_members(#[trigger] orgs@[j]).contains_key("login"@),
                forall|j: int|
                    0 <= j < i ==> logins@[j]@ == json_text_members(orgs@[j])["login"@],
            decreases orgs.len() - i,
        {
            match text_member(&orgs[i], "login") {
                Some(login) => {
                    logins.push(login);
                },
                None => {
                    return Err(GitError::MalformedResponse);
                },
            }
            i += 1;
        }
        assert(texts(logins@) =~= spec_logins(orgs@));
        Ok(Self::org_urls_from_logins(&logins))
    }

    /// The URL under which the repository `repo_name` of the account's
    /// default namespace is read.
    pub fn repo_url(git_account: &GitAccount, repo_name: &str) -> (url: String)
        ensures
            url@ == spec_repo_url(git_account@, repo_name@),
    {
        let mut url = Self::new().base_url;
        url.append("/repos/");
        url.append(git_account.namespace().as_str());
        url.append("/");
        url.append(repo_name);
        url
    }

    /// The request that creates the repository `repo_name`: it goes to the
    /// organization's endpoint where the account's default namespace is an
    /// organization, and to the user's own otherwise. Fails with
    /// `ProviderUnsupported` for every provider but GitHub.
    pub fn create_repo(
        git_account: &GitAccount,
        repo_name: &str,
        description: &str,
        is_private: bool,
    ) -> (request: Result<RestRequest, GitError>)
        ensures
            is_request(
                request,
                spec_create_repo(git_account@, repo_name@, description@, is_private),
            ),
    {
        match git_account.provider {
            GitProvider::GitHub => {
                let mut url = Self::new().base_url;
                if git_account.url_is_org() {
                    url.append("/orgs/");
                    url.append(git_account.get_org_from_url().as_str());
                    url.append("/repos");
                } else {
                    url.append("/user/repos");
                }
                let payload = RequestBody::CreateRepo {
                    name: String::from_str(repo_name),
                    description: String::from_str(description),
                    private: is_private,
                };
                Ok(Self::post_request(url, git_account.token.as_str(), payload))
            },
            _ => Err(GitError::ProviderUnsupported),
        }
    }

    /// The request that reads the repository `repo_name` of the account's
    /// default namespace. Fails with `ProviderUnsupported` for every provider
    /// but GitHub.
    pub fn get_repo(git_account: &GitAccount, repo_name: &str) -> (request: Result<
        RestRequest,
        GitError,
    >)
        ensures
            is_request(request, spec_get_repo(git_account@, repo_name@)),
    {
        match git_account.provider {
            GitProvider::GitHub => {
                let url = Self::repo_url(git_account, repo_name);
                Ok(Self::get_request(url.as_str(), git_account.token.as_str()))
            },
            _ => Err(GitError::ProviderUnsupported),
        }
    }

    /// The request that publishes a release of `repo_name`. Fails with
    /// `ProviderUnsupported` for every provider but GitHub.
    pub fn create_release(
        git_account: &GitAccount,
        repo_name: &str,
        tag_name: &str,
        target_commitish: &str,
        name: &str,
        body: &str,
        draft: bool,
        prerelease: bool,
    ) -> (request: Result<RestRequest, GitError>)
        ensures
            is_request(
                request,
                spec_create_release(
                    git_account@,
                    repo_name@,
                    RequestBodyView::CreateRelease {
                        tag_name: tag_name@,
                        target_commitish: target_commitish@,
                        name: name@,
                        body: body@,
                        draft,
                        prerelease,
                    },
                ),
            ),
    {
        match git_account.provider {
            GitProvider::GitHub => {
                let mut url = Self::repo_url(git_account, repo_name);
                url.append("/releases");
                let payload = RequestBody::CreateRelease {
                    tag_name: String::from_str(tag_name),
                    target_commitish: String::from_str(target_commitish),
                    name: String::from_str(name),
                    body: String::from_str(body),
                    draft,
                    prerelease,
                };
                Ok(Self::post_request(url, git_account.token.as_str(), payload))
            },
            _ => Err(GitError::ProviderUnsupported),
        }
    }

    /// The request that reads the latest release of `repo_name`. Fails with
    /// `ProviderUnsupported` for every provider but GitHub.
    pub fn get_latest_release(git_account: &GitAccount, repo_name: &str) -> (request: Result<
        RestRequest,
        GitError,
    >)
        ensures
            is_request(request, spec_get_latest_release(git_account@, repo_name@)),
    {
        match git_account.provider {
            GitProvider::GitHub => {
                let mut url = Self::repo_url(git_account, repo_name);
                url.append("/releases/latest");
                Ok(Self::get_request(url.as_str(), git_account.token.as_str()))
            },
            _ => Err(GitError::ProviderUnsupported),
        }
    }
}


/// For every provider but GitHub, each operation that needs the remote is
/// refused as unsupported, and no request is made for it.
pub proof fn lemma_unsupported_provider_is_refused(
    account: GitAccountView,
    token: Seq<char>,
    repo: Seq<char>,
    description: Seq<char>,
    private: bool,
    release: RequestBodyView,
)
    requires
        account.provider != GitProvider::GitHub,
    ensures
        spec_user_request(account.provider, token) == Err::<RestRequestView, GitError>(
            GitError::ProviderUnsupported,
        ),
        spec_orgs_request(account.provider, token) == Err::<RestRequestView, GitError>(
            GitError::ProviderUnsupported,
        ),
        spec_create_repo(account, repo, description, private) == Err::<RestRequestView, GitError>(
            GitError::ProviderUnsupported,
        ),
        spec_get_repo(account, repo) == Err::<RestRequestView, GitError>(
            GitError::ProviderUnsupported,
        ),
        spec_create_release(account, repo, release) == Err::<RestRequestView, GitError>(
            GitError::ProviderUnsupported,
        ),
        spec_get_latest_release(account, repo) == Err::<RestRequestView, GitError>(
            GitError::ProviderUnsupported,
        ),
{
}

/// An account whose default namespace is the organization `org` creates its
/// repositories at that organization's endpoint, not at the user's own, and
/// addresses them under the organization's name.
pub proof fn lemma_org_default_targets_org_endpoint(
    account: GitAccountView,
    org: Seq<char>,
    repo: Seq<char>,
)
    requires
        !org.contains('/'),
        account.default_url == GitProvider::GitHub.spec_namespace_url(org),
        account.is_org(),
    ensures
        spec_create_repo_url(account) == api_root() + "/orgs/"@ + org + "/repos"@,
        spec_repo_url(account, repo) == api_root() + "/repos/"@ + org + "/"@ + repo,
{
    crate::lemma_namespace_url_ends_in_login(GitProvider::GitHub, org);
}

/// An account whose default namespace is its personal one creates its
/// repositories at the user's own endpoint and addresses them under its
/// login.
pub proof fn lemma_personal_default_targets_user_endpoint(account: GitAccountView, repo: Seq<char>)
    requires
        !account.is_org(),
    ensures
        spec_create_repo_url(account) == api_root() + "/user/repos"@,
        spec_repo_url(account, repo) == api_root() + "/repos/"@ + account.login + "/"@ + repo,
{
}

} // verus!
