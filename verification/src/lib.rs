//! Decisions behind a provider-agnostic repository lifecycle: which remote
//! endpoint an account addresses, what a local commit or push is made of, and
//! in which order the steps of a workflow run.
//!
//! The crate performs no network or disk access. Every operation either
//! computes a value that describes the work to be done (a request, a plan, a
//! list of steps) or interprets what came back from it.

use vstd::prelude::*;

pub mod account;
pub mod api;
pub mod repo;
pub mod text;
pub mod timestamp;
pub mod workflow;

verus! {

/// The hosting services an account can belong to.
#[derive(Debug, Clone, Copy, PartialEq, Eq, Structural)]
pub enum GitProvider {
    GitHub,
    GitLab,
    Bitbucket,
}

impl GitProvider {
    /// Remote operations are defined for GitHub only.
    pub open spec fn spec_is_supported(self) -> bool {
        self == GitProvider::GitHub
    }

    /// Whether remote operations are defined for this provider.
    #[verifier::when_used_as_spec(spec_is_supported)]
    pub fn is_supported(self) -> (supported: bool)
        ensures
            supported == self.spec_is_supported(),
    {
        match self {
            GitProvider::GitHub => true,
            _ => false,
        }
    }

    /// The web origin under which the provider keeps its namespaces.
    pub open spec fn spec_web_root(self) -> Seq<char> {
        match self {
            GitProvider::GitHub => "https://github.com/"@,
            GitProvider::GitLab => "https://gitlab.com/"@,
            GitProvider::Bitbucket => "https://bitbucket.org/"@,
        }
    }

    /// The web origin under which the provider keeps its namespaces, with its
    /// closing slash.
    pub fn web_root(self) -> (root: &'static str)
        ensures
            root@ == self.spec_web_root(),
    {
        match self {
            GitProvider::GitHub => "https://github.com/",
            GitProvider::GitLab => "https://gitlab.com/",
            GitProvider::Bitbucket => "https://bitbucket.org/",
        }
    }

    /// The URL of the namespace that `login` owns on this provider.
    pub open spec fn spec_namespace_url(self, login: Seq<char>) -> Seq<char> {
        self.spec_web_root() + login
    }

    /// The URL of the namespace that `login` owns on this provider: the
    /// provider's web origin followed by the login.
    pub fn namespace_url(self, login: &str) -> (url: String)
        ensures
            url@ == self.spec_namespace_url(login@),
    {
        let mut url = String::from_str(self.web_root());
        url.append(login);
        url
    }
}

/// The last path segment of a namespace URL is the login it was made from,
/// for a login that holds no `/`.
pub proof fn lemma_namespace_url_ends_in_login(provider: GitProvider, login: Seq<char>)
    requires
        !login.contains('/'),
    ensures
        crate::text::last_segment(provider.spec_namespace_url(login)) == login,
{
    reveal_strlit("https://github.com/");
    reveal_strlit("https://gitlab.com/");
    reveal_strlit("https://bitbucket.org/");
    crate::text::lemma_last_segment_of_join(provider.spec_web_root(), login);
}

/// Why an operation did not succeed.
#[derive(Debug, Clone, PartialEq, Eq)]
pub enum GitError {
    /// The provider has no remote behaviour defined.
    ProviderUnsupported,
    /// The local path holds no repository.
    RepositoryNotFound,
    /// The repository at the path already has history.
    AlreadyInitialized,
    /// No committer name and e-mail are configured.
    IdentityUnavailable,
    /// A remote of that name is already registered.
    RemoteAlreadyExists,
    /// The remote refused the push.
    PushRejected,
    /// The hosting service could not be reached or answered with a failure.
    RemoteCallFailed,
    /// The answer lacks a field or holds a timestamp that cannot be read.
    MalformedResponse,
    /// Any other failure of the version-control engine, with its own words.
    Engine(String),
}

impl GitError {
    /// The text shown to a user for each kind of error.
    pub open spec fn spec_message(self) -> Seq<char> {
        match self {
            GitError::ProviderUnsupported => "provider not supported yet"@,
            GitError::RepositoryNotFound => "no repository found at this path"@,
            GitError::AlreadyInitialized => "repository already has history"@,
            GitError::IdentityUnavailable => "no committer name and e-mail configured"@,
            GitError::RemoteAlreadyExists => "remote already exists"@,
            GitError::PushRejected => "push rejected by the remote"@,
            GitError::RemoteCallFailed => "remote call failed"@,
            GitError::MalformedResponse => "malformed response"@,
            GitError::Engine(detail) => detail@,
        }
    }

    /// The text shown to a user; an engine failure is shown in the engine's
    /// own words.
    pub fn message(&self) -> (text: String)
        ensures
            text@ == self.spec_message(),
    {
        match self {
            GitError::ProviderUnsupported => String::from_str("provider not supported yet"),
            GitError::RepositoryNotFound => String::from_str("no repository found at this path"),
            GitError::AlreadyInitialized => String::from_str("repository already has history"),
            GitError::IdentityUnavailable => String::from_str(
                "no committer name and e-mail configured",
            ),
            GitError::RemoteAlreadyExists => String::from_str("remote already exists"),
            GitError::PushRejected => String::from_str("push rejected by the remote"),
            GitError::RemoteCallFailed => String::from_str("remote call failed"),
            GitError::MalformedResponse => String::from_str("malformed response"),
            GitError::Engine(detail) => detail.clone(),
        }
    }
}

} // verus!
