//! An authenticated identity on a hosting provider and the namespace it
//! currently addresses.

use vstd::prelude::*;
use crate::api::rest::{is_request, spec_user_request, GitRest, RestRequest};
use crate::text::{contains_text, holds_text, last_segment, last_segment_of, texts};
use crate::{GitError, GitProvider};

verus! {

/// The identity that a token belongs to, as the provider reports it.
#[derive(Debug, Clone, PartialEq, Eq)]
pub struct GitUser {
    pub login: String,
}

/// An identity on one provider: its login and token, the URL of its personal
/// namespace, the URLs of the organizations it belongs to, and the one of
/// these that repositories are currently created under.
#[derive(Debug, Clone, PartialEq, Eq)]
pub struct GitAccount {
    pub provider: GitProvider,
    pub login: String,
    pub token: String,
    pub personal_url: String,
    pub org_urls: Vec<String>,
    pub default_url: String,
}

/// What a `GitAccount` holds, as mathematical values.
pub struct GitAccountView {
    pub provider: GitProvider,
    pub login: Seq<char>,
    pub token: Seq<char>,
    pub personal_url: Seq<char>,
    pub org_urls: Seq<Seq<char>>,
    pub default_url: Seq<char>,
}

impl GitAccountView {
    /// The default namespace is the personal one or one of the
    /// organizations.
    pub open spec fn wf(self) -> bool {
        self.default_url == self.personal_url || holds_text(self.org_urls, self.default_url)
    }

    /// Whether `url` may be chosen as the default namespace.
    pub open spec fn offers(self, url: Seq<char>) -> bool {
        url == self.personal_url || holds_text(self.org_urls, url)
    }

    /// Whether the default namespace is one of the organizations.
    pub open spec fn is_org(self) -> bool {
        holds_text(self.org_urls, self.default_url)
    }

    /// The last path segment of the default namespace's URL.
    pub open spec fn org_slug(self) -> Seq<char> {
        last_segment(self.default_url)
    }

    /// The owner under which repositories are addressed: the organization's
    /// slug where the default namespace is an organization, else the login.
    pub open spec fn namespace(self) -> Seq<char> {
        if self.is_org() {
            self.org_slug()
        } else {
            self.login
        }
    }

    /// The account with `url` as its default namespace.
    pub open spec fn with_default(self, url: Seq<char>) -> GitAccountView {
        GitAccountView { default_url: url, ..self }
    }
}

impl View for GitAccount {
    type V = GitAccountView;

    open spec fn view(&self) -> GitAccountView {
        GitAccountView {
            provider: self.provider,
            login: self.login@,
            token: self.token@,
            personal_url: self.personal_url@,
            org_urls: texts(self.org_urls@),
            default_url: self.default_url@,
        }
    }
}

impl GitUser {
    /// The request that asks the provider whose token this is. Fails with
    /// `ProviderUnsupported` for every provider but GitHub.
    pub fn get(provider: &GitProvider, token: &str) -> (request: Result<RestRequest, GitError>)
        ensures
            is_request(request, spec_user_request(*provider, token@)),
    {
        match provider {
            GitProvider::GitHub => Ok(GitRest::get_request("https://api.github.com/user", token)),
            _ => Err(GitError::ProviderUnsupported),
        }
    }
}

impl GitAccount {
    /// The account as it stands right after the provider named its user and
    /// organizations.
    pub open spec fn spec_new(
        provider: GitProvider,
        token: Seq<char>,
        login: Seq<char>,
        org_urls: Seq<Seq<char>>,
    ) -> GitAccountView {
        GitAccountView {
            provider,
            login,
            token,
            personal_url: provider.spec_namespace_url(login),
            org_urls,
            default_url: provider.spec_namespace_url(login),
        }
    }

    /// The account of `user` on `provider`, with the personal namespace as
    /// the default one. Fails with `ProviderUnsupported` for every provider
    /// but GitHub.
    pub fn new(
        provider: GitProvider,
        token: &str,
        user: GitUser,
        org_urls: Vec<String>,
    ) -> (account: Result<GitAccount, GitError>)
        ensures
            !provider.is_supported() ==> account == Err::<GitAccount, GitError>(
                GitError::ProviderUnsupported,
            ),
            provider.is_supported() ==> {
                &&& account matches Ok(created)
                &&& created@ == Self::spec_new(provider, token@, user.login@, texts(org_urls@))
                &&& created@.wf()
            },
    {
        if !provider.is_supported() {
            return Err(GitError::ProviderUnsupported);
        }
        let personal_url = provider.namespace_url(user.login.as_str());
        Ok(
            GitAccount {
                provider,
                login: user.login,
                token: String::from_str(token),
                personal_url: personal_url.clone(),
                org_urls,
                default_url: personal_url,
            },
        )
    }

    /// The text that stands for the account where it is shown: its login.
    pub fn to_string(&self) -> (shown: String)
        ensures
            shown@ == self@.login,
    {
        self.login.clone()
    }

    /// Whether the default namespace is one of the organizations.
    pub fn url_is_org(&self) -> (is_org: bool)
        ensures
            is_org == self@.is_org(),
    {
        contains_text(&self.org_urls, &self.default_url)
    }

    /// The last path segment of the default namespace's URL: the slug of the
    /// organization where the default namespace is one, and the login where
    /// it is the personal namespace.
    pub fn get_org_from_url(&self) -> (slug: String)
        ensures
            slug@ == self@.org_slug(),
    {
        last_segment_of(self.default_url.as_str())
    }

    /// The owner under which repositories are addressed.
    pub fn namespace(&self) -> (owner: String)
        ensures
            owner@ == self@.namespace(),
    {
        if self.url_is_org() {
            self.get_org_from_url()
        } else {
            self.login.clone()
        }
    }

    /// Makes `url` the default namespace where it is the personal URL or one
    /// of the organizations' and says so; leaves the account as it is where
    /// it is neither.
    pub fn set_default_url(&mut self, url: &str) -> (changed: bool)
        ensures
            changed == old(self)@.offers(url@),
            changed ==> final(self)@ == old(self)@.with_default(url@),
            !changed ==> *final(self) == *old(self),
            changed ==> final(self)@.wf(),
            old(self)@.wf() ==> final(self)@.wf(),
    {
        let wanted = String::from_str(url);
        if wanted == self.personal_url || contains_text(&self.org_urls, &wanted) {
            self.default_url = wanted;
            true
        } else {
            false
        }
    }
}


/// Right after its creation an account addresses its personal namespace,
/// which is no organization as long as no organization has the URL of the
/// personal namespace.
pub proof fn lemma_new_account_is_personal(
    provider: GitProvider,
    token: Seq<char>,
    login: Seq<char>,
    org_urls: Seq<Seq<char>>,
)
    requires
        !holds_text(org_urls, provider.spec_namespace_url(login)),
    ensures
        GitAccount::spec_new(provider, token, login, org_urls).wf(),
        !GitAccount::spec_new(provider, token, login, org_urls).is_org(),
        GitAccount::spec_new(provider, token, login, org_urls).namespace() == login,
{
}

/// Any of the organizations' URLs may be made the default namespace, and the
/// default namespace is an organization from then on.
pub proof fn lemma_org_default_is_org(account: GitAccountView, at: int)
    requires
        0 <= at < account.org_urls.len(),
    ensures
        account.offers(account.org_urls[at]),
        account.with_default(account.org_urls[at]).wf(),
        account.with_default(account.org_urls[at]).is_org(),
{
}

} // verus!
