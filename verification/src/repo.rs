//! Remote repository records and the workflows that tie local and remote
//! operations together.

use vstd::prelude::*;
use crate::account::GitAccount;
use crate::api::local::Branch;
use crate::api::rest::{
    is_request, spec_create_release, spec_create_repo, spec_get_latest_release, spec_get_repo,
    GitRest, RequestBodyView, RestRequest,
};
use crate::timestamp::{from_str_to_naive_datetime, rfc3339_instant, Timestamp};
use crate::workflow::{reaches, run_result, FileWrite, LocalStep, Workflow};
use crate::GitError;

pub use gitignores::Root as ProjectType;

verus! {

/// A release as the provider sends it, its instants still as text.
#[derive(Debug, Clone, PartialEq, Eq)]
pub struct ReleaseRecord {
    pub url: String,
    pub html_url: String,
    pub assets_url: String,
    pub upload_url: String,
    pub tag_name: String,
    pub name: String,
    pub body: String,
    pub draft: bool,
    pub prerelease: bool,
    pub created_at: String,
    pub published_at: String,
}

/// A published release of a repository.
#[derive(Debug, Clone, PartialEq, Eq)]
pub struct GitRelease {
    pub url: String,
    pub html_url: String,
    pub assets_url: String,
    pub upload_url: String,
    pub tag_name: String,
    pub name: String,
    pub body: String,
    pub draft: bool,
    pub prerelease: bool,
    pub created_at: Timestamp,
    pub published_at: Timestamp,
}

/// A repository as the provider sends it, its instants still as text.
#[derive(Debug, Clone, PartialEq, Eq)]
pub struct RepoRecord {
    /// The numeric id, where the answer holds one.
    pub id: Option<usize>,
    pub name: String,
    pub full_name: String,
    pub private: bool,
    pub description: Option<String>,
    pub url: String,
    pub html_url: String,
    pub created_at: String,
    pub updated_at: String,
}

/// A repository on the hosting provider.
#[derive(Debug, Clone, PartialEq, Eq)]
pub struct GitRepo {
    pub id: usize,
    pub name: String,
    pub full_name: String,
    pub private: bool,
    pub description: Option<String>,
    pub url: String,
    pub html_url: String,
    pub created_at: Timestamp,
    pub updated_at: Timestamp,
}

impl GitRelease {
    /// The release that `record` describes once its two instants are read.
    pub open spec fn spec_with_timestamps(
        record: ReleaseRecord,
        created_at: Result<Timestamp, GitError>,
        published_at: Result<Timestamp, GitError>,
    ) -> Result<GitRelease, GitError> {
        match (created_at, published_at) {
            (Ok(created_at), Ok(published_at)) => Ok(
                GitRelease {
                    url: record.url,
                    html_url: record.html_url,
                    assets_url: record.assets_url,
                    upload_url: record.upload_url,
                    tag_name: record.tag_name,
                    name: record.name,
                    body: record.body,
                    draft: record.draft,
                    prerelease: record.prerelease,
                    created_at,
                    published_at,
                },
            ),
            _ => Err(GitError::MalformedResponse),
        }
    }

    /// The release that `record` describes, given what reading its two
    /// instants yielded. Fails with `MalformedResponse` exactly where either
    /// could not be read.
    pub fn with_timestamps(
        record: ReleaseRecord,
        created_at: Result<Timestamp, GitError>,
        published_at: Result<Timestamp, GitError>,
    ) -> (release: Result<GitRelease, GitError>)
        ensures
            release == Self::spec_with_timestamps(record, created_at, published_at),
    {
        match (created_at, published_at) {
            (Ok(created_at), Ok(published_at)) => Ok(
                GitRelease {
                    url: record.url,
                    html_url: record.html_url,
                    assets_url: record.assets_url,
                    upload_url: record.upload_url,
                    tag_name: record.tag_name,
                    name: record.name,
                    body: record.body,
                    draft: record.draft,
                    prerelease: record.prerelease,
                    created_at,
                    published_at,
                },
            ),
            _ => Err(GitError::MalformedResponse),
        }
    }

    /// The release that `record` describes. Fails with `MalformedResponse`
    /// exactly where one of its instants is not RFC 3339.
    pub fn from_record(record: ReleaseRecord) -> (release: Result<GitRelease, GitError>)
        ensures
            release == Self::spec_with_timestamps(
                record,
                spec_timestamp(record.created_at@),
                spec_timestamp(record.published_at@),
            ),
    {
        let created_at = from_str_to_naive_datetime(record.created_at.as_str());
        let published_at = from_str_to_naive_datetime(record.published_at.as_str());
        Self::with_timestamps(record, created_at, published_at)
    }
}

/// What reading `text` as an instant yields.
pub open spec fn spec_timestamp(text: Seq<char>) -> Result<Timestamp, GitError> {
    match rfc3339_instant(text) {
        Some((seconds, nanos)) => Ok(Timestamp { seconds, nanos }),
        None => Err(GitError::MalformedResponse),
    }
}

impl GitRepo {
    /// The repository that `record` describes once its two instants are
    /// read.
    pub open spec fn spec_with_timestamps(
        record: RepoRecord,
        created_at: Result<Timestamp, GitError>,
        updated_at: Result<Timestamp, GitError>,
    ) -> Result<GitRepo, GitError> {
        match (record.id, created_at, updated_at) {
            (Some(id), Ok(created_at), Ok(updated_at)) => Ok(
                GitRepo {
                    id,
                    name: record.name,
                    full_name: record.full_name,
                    private: record.private,
                    description: record.description,
                    url: record.url,
                    html_url: record.html_url,
                    created_at,
                    updated_at,
                },
            ),
            _ => Err(GitError::MalformedResponse),
        }
    }

    /// The repository that `record` describes, given what reading its two
    /// instants yielded. Fails with `MalformedResponse` exactly where the
    /// record has no id or either instant could not be read.
    pub fn with_timestamps(
        record: RepoRecord,
        created_at: Result<Timestamp, GitError>,
        updated_at: Result<Timestamp, GitError>,
    ) -> (repo: Result<GitRepo, GitError>)
        ensures
            repo == Self::spec_with_timestamps(record, created_at, updated_at),
    {
        match (record.id, created_at, updated_at) {
            (Some(id), Ok(created_at), Ok(updated_at)) => Ok(
                GitRepo {
                    id,
                    name: record.name,
                    full_name: record.full_name,
                    private: record.private,
                    description: record.description,
                    url: record.url,
                    html_url: record.html_url,
                    created_at,
                    updated_at,
                },
            ),
            _ => Err(GitError::MalformedResponse),
        }
    }

    /// The repository that `record` describes. Fails with
    /// `MalformedResponse` exactly where the record has no id or one of its
    /// instants is not RFC 3339.
    pub fn from_record(record: RepoRecord) -> (repo: Result<GitRepo, GitError>)
        ensures
            repo == Self::spec_with_timestamps(
                record,
                spec_timestamp(record.created_at@),
                spec_timestamp(record.updated_at@),
            ),
    {
        let created_at = from_str_to_naive_datetime(record.created_at.as_str());
        let updated_at = from_str_to_naive_datetime(record.updated_at.as_str());
        Self::with_timestamps(record, created_at, updated_at)
    }
}

/// `gitignores::Root`, the kinds of project that an ignore template is kept
/// for.
#[verifier::external_type_specification]
#[verifier::external_body]
pub struct ExProjectType(gitignores::Root);

/// The ignore patterns that are kept for a kind of project.
pub uninterp spec fn ignore_template(project_type: gitignores::Root) -> Seq<char>;

/// `gitignores::Root`'s `to_string`: the crate's `Display` for `Root` writes
/// what `GitIgnore::contents` returns for the variant, a text fixed when the
/// crate was built.
#[verifier::external_body]
fn template_text(project_type: gitignores::Root) -> (text: String)
    ensures
        text@ == ignore_template(project_type),
{
    project_type.to_string()
}

/// What lies directly above a path, read in the path syntax of the platform
/// that the library is built for; nothing where the path ends in a root or is
/// empty.
pub uninterp spec fn path_parent(path: Seq<char>) -> Option<Seq<char>>;

/// `std::path::Path::parent` on the path that `path` spells: the path
/// without its final component, if there is one. It reads the text of the
/// path only and never the disk. The contract names the result and claims
/// nothing else of it.
#[verifier::external_body]
fn parent_dir(path: &str) -> (parent: Option<String>)
    ensures
        parent matches Some(dir) ==> path_parent(path@) == Some(dir@),
        parent is None ==> path_parent(path@) is None,
{
    match std::path::Path::new(path).parent() {
        Some(dir) => Some(dir.to_string_lossy().into_owned()),
        None => None,
    }
}

/// Where the search for the root of a repository stands.
#[derive(Debug, Clone, PartialEq, Eq)]
pub enum RootSearch {
    /// Whether `dir` holds an entry named `marker` decides how it goes on.
    Probe { dir: String, marker: String },
    /// `dir` is the root.
    Found { dir: String },
    /// No directory above the starting path is a root.
    NotFound,
}

/// The name of the entry that marks the root of a repository.
pub open spec fn root_marker() -> Seq<char> {
    ".git"@
}

/// How the search goes on above a directory that is no root.
pub open spec fn spec_search_above(parent: Option<Seq<char>>, search: RootSearch) -> bool {
    match parent {
        Some(above) => search matches RootSearch::Probe { dir, marker } && dir@ == above
            && marker@ == root_marker(),
        None => search == RootSearch::NotFound,
    }
}

/// The file that creating a repository leaves for its first real commit.
pub open spec fn readme_path(path: Seq<char>) -> Seq<char> {
    path + "/README.md"@
}

/// Where the ignore file of a project directory lies.
pub open spec fn gitignore_path(project_dir: Seq<char>) -> Seq<char> {
    project_dir + "/.gitignore"@
}

/// The ignore file's text: the template, then a line that excludes `.env`.
pub open spec fn gitignore_contents(template: Seq<char>) -> Seq<char> {
    template + "\n.env\n"@
}

/// The steps that create a repository at `path`: the store with its first
/// commit, then an empty `README.md` that is left uncommitted.
pub open spec fn is_init(steps: Seq<LocalStep>, path: Seq<char>) -> bool {
    &&& steps.len() == 2
    &&& steps[0] matches LocalStep::Init { path: at } && at@ == path
    &&& steps[1] matches LocalStep::WriteFile(readme) && readme.path@ == readme_path(path)
        && readme.contents@.len() == 0
}

/// The steps that bring a remote up to date: stage everything, commit it,
/// push the branch.
pub open spec fn is_sync(
    steps: Seq<LocalStep>,
    path: Seq<char>,
    message: Seq<char>,
    local_branch: Branch,
    remote_branch: Branch,
    token: Seq<char>,
) -> bool {
    &&& steps.len() == 3
    &&& steps[0] matches LocalStep::AddAll { path: at } && at@ == path
    &&& steps[1] matches LocalStep::Commit { path: at, message: text } && at@ == path && text@
        == message
    &&& steps[2] matches LocalStep::Push {
        path: at,
        local_branch: local,
        remote_branch: remote,
        token: secret,
    } && at@ == path && local == local_branch && remote == remote_branch && secret@ == token
}

/// The steps that attach a submodule: add it, then update all submodules.
pub open spec fn is_submodule_attach(
    steps: Seq<LocalStep>,
    repo_path: Seq<char>,
    remote_url: Seq<char>,
    local_path: Seq<char>,
) -> bool {
    &&& steps.len() == 2
    &&& steps[0] matches LocalStep::SubmoduleAdd { repo_path: at, remote_url: url, local_path: sub }
        && at@ == repo_path && url@ == remote_url && sub@ == local_path
    &&& steps[1] matches LocalStep::SubmoduleUpdate { repo_path: at } && at@ == repo_path
}

impl GitRepo {
    /// The request that creates the repository `repo_name` under the
    /// account's default namespace; a missing description is sent as an empty
    /// one. Fails with `ProviderUnsupported` for every provider but GitHub.
    pub fn new(
        git_account: &GitAccount,
        repo_name: &str,
        description: Option<&str>,
        is_private: bool,
    ) -> (request: Result<RestRequest, GitError>)
        ensures
            is_request(
                request,
                spec_create_repo(
                    git_account@,
                    repo_name@,
                    match description {
                        Some(text) => text@,
                        None => Seq::<char>::empty(),
                    },
                    is_private,
                ),
            ),
    {
        let text = match description {
            Some(text) => text,
            None => {
                proof {
                    reveal_strlit("");
                    assert(""@ =~= Seq::<char>::empty());
                }
                ""
            },
        };
        GitRest::create_repo(git_account, repo_name, text, is_private)
    }

    /// The request that reads the repository `repo_name`. Fails with
    /// `ProviderUnsupported` for every provider but GitHub.
    pub fn get(git_account: &GitAccount, repo_name: &str) -> (request: Result<
        RestRequest,
        GitError,
    >)
        ensures
            is_request(request, spec_get_repo(git_account@, repo_name@)),
    {
        GitRest::get_repo(git_account, repo_name)
    }

    /// The steps that create a repository at `path`: the store with its
    /// first commit on `main`, then an empty `README.md` in `path` that is
    /// left uncommitted.
    pub fn init(path: &str) -> (workflow: Workflow)
        ensures
            is_init(workflow.steps@, path@),
    {
        let mut readme = String::from_str(path);
        readme.append("/README.md");
        let mut steps: Vec<LocalStep> = Vec::new();
        steps.push(LocalStep::Init { path: String::from_str(path) });
        steps.push(LocalStep::WriteFile(FileWrite { path: readme, contents: String::new() }));
        Workflow { steps }
    }

    /// The request that publishes a release of `repo_name`. Fails with
    /// `ProviderUnsupported` for every provider but GitHub.
    pub fn new_release(
        git_account: &GitAccount,
        repo_name: &str,
        name: &str,
        tag_name: &str,
        target_commitish: &str,
        body: &str,
        draft: bool,
        prerelease: bool,
    ) -> (request: Result<RestRequest, GitError>)
        ensures
            is_request(
                request,
                spec_create_release(
                    git_account@,
                    repo_name@,
                    RequestBodyView::CreateRelease {
                        tag_name: tag_name@,
                        target_commitish: target_commitish@,
                        name: name@,
                        body: body@,
                        draft,
                        prerelease,
                    },
                ),
            ),
    {
        GitRest::create_release(
            git_account,
            repo_name,
            tag_name,
            target_commitish,
            name,
            body,
            draft,
            prerelease,
        )
    }

    /// The request that reads the latest release of `repo_name`. Fails with
    /// `ProviderUnsupported` for every provider but GitHub.
    pub fn get_latest_release(git_account: &GitAccount, repo_name: &str) -> (request: Result<
        RestRequest,
        GitError,
    >)
        ensures
            is_request(request, spec_get_latest_release(git_account@, repo_name@)),
    {
        GitRest::get_latest_release(git_account, repo_name)
    }

    /// The steps that bring the remote up to date with the working tree at
    /// `path`: stage everything, commit it with `message`, push
    /// `local_branch` as `remote_branch`.
    pub fn update(
        path: &str,
        message: &str,
        local_branch: Branch,
        remote_branch: Branch,
        token: &str,
    ) -> (workflow: Workflow)
        ensures
            is_sync(workflow.steps@, path@, message@, local_branch, remote_branch, token@),
    {
        let mut steps: Vec<LocalStep> = Vec::new();
        steps.push(LocalStep::AddAll { path: String::from_str(path) });
        steps.push(
            LocalStep::Commit { path: String::from_str(path), message: String::from_str(message) },
        );
        steps.push(
            LocalStep::Push {
                path: String::from_str(path),
                local_branch,
                remote_branch,
                token: String::from_str(token),
            },
        );
        Workflow { steps }
    }

    /// The steps of the first commit: a sync with the message
    /// `initial commit` that pushes `main` as `main`.
    pub fn first_commit(path: &str, token: &str) -> (workflow: Workflow)
        ensures
            is_sync(
                workflow.steps@,
                path@,
                "initial commit"@,
                Branch::Main,
                Branch::Main,
                token@,
            ),
    {
        Self::update(path, "initial commit", Branch::Main, Branch::Main, token)
    }

    /// The steps that attach `remote_url` as a submodule at `local_path`:
    /// add it, then update every submodule.
    pub fn add_submodule(repo_path: &str, remote_url: &str, local_path: &str) -> (workflow:
        Workflow)
        ensures
            is_submodule_attach(workflow.steps@, repo_path@, remote_url@, local_path@),
    {
        let mut steps: Vec<LocalStep> = Vec::new();
        steps.push(
            LocalStep::SubmoduleAdd {
                repo_path: String::from_str(repo_path),
                remote_url: String::from_str(remote_url),
                local_path: String::from_str(local_path),
            },
        );
        steps.push(LocalStep::SubmoduleUpdate { repo_path: String::from_str(repo_path) });
        Workflow { steps }
    }

    /// The one step that registers `url` as the origin of the repository at
    /// `repo_path`.
    pub fn remote_add_origin(repo_path: &str, url: &str) -> (workflow: Workflow)
        ensures
            workflow.steps@.len() == 1,
            workflow.steps@[0] matches LocalStep::RemoteAddOrigin { repo_path: at, url: target }
                && at@ == repo_path@ && target@ == url@,
    {
        let mut steps: Vec<LocalStep> = Vec::new();
        steps.push(
            LocalStep::RemoteAddOrigin {
                repo_path: String::from_str(repo_path),
                url: String::from_str(url),
            },
        );
        Workflow { steps }
    }

    /// The ignore file of `project_dir` for a given template: it lies at
    /// `.gitignore` in that directory, replaces what is there, and holds the
    /// template followed by a line that excludes `.env`.
    pub fn gitignore_file(project_dir: &str, template: String) -> (file: FileWrite)
        ensures
            file.path@ == gitignore_path(project_dir@),
            file.contents@ == gitignore_contents(template@),
    {
        let mut path = String::from_str(project_dir);
        path.append("/.gitignore");
        let mut contents = template;
        contents.append("\n.env\n");
        FileWrite { path, contents }
    }

    /// The ignore file of `project_dir` for a kind of project: the patterns
    /// kept for that kind, followed by a line that excludes `.env`.
    pub fn add_gitignore(project_dir: &str, project_type: ProjectType) -> (file: FileWrite)
        ensures
            file.path@ == gitignore_path(project_dir@),
            file.contents@ == gitignore_contents(ignore_template(project_type)),
    {
        Self::gitignore_file(project_dir, template_text(project_type))
    }

    /// How the search goes on above a directory that is no root: its parent
    /// is examined next, and without a parent nothing is found.
    pub fn search_above(parent: Option<String>) -> (search: RootSearch)
        ensures
            spec_search_above(
                match parent {
                    Some(above) => Some(above@),
                    None => None,
                },
                search,
            ),
    {
        match parent {
            Some(dir) => RootSearch::Probe { dir, marker: String::from_str(".git") },
            None => RootSearch::NotFound,
        }
    }

    /// Begins the search for the root of the repository that
    /// `starting_path` lies in. The first directory examined is the parent of
    /// `starting_path`: the path itself is never examined, so it is never the
    /// answer, even where it is a root.
    pub fn find_git_root(starting_path: &str) -> (search: RootSearch)
        ensures
            spec_search_above(path_parent(starting_path@), search),
    {
        Self::search_above(parent_dir(starting_path))
    }

    /// Goes on with the search after `dir` was examined: `dir` is the root
    /// where it holds the marker, and otherwise the search moves to its
    /// parent.
    pub fn find_git_root_from(dir: String, has_marker: bool) -> (search: RootSearch)
        ensures
            has_marker ==> search == (RootSearch::Found { dir }),
            !has_marker ==> spec_search_above(path_parent(dir@), search),
    {
        if has_marker {
            RootSearch::Found { dir }
        } else {
            Self::search_above(parent_dir(dir.as_str()))
        }
    }
}

/// In a sync, a commit that fails ends the run with its error and the push
/// is never attempted; the staging before it stays done.
pub proof fn lemma_sync_stops_at_failed_commit(
    steps: Seq<LocalStep>,
    path: Seq<char>,
    message: Seq<char>,
    local_branch: Branch,
    remote_branch: Branch,
    token: Seq<char>,
    outcomes: Seq<Result<(), GitError>>,
)
    requires
        is_sync(steps, path, message, local_branch, remote_branch, token),
        outcomes.len() == steps.len(),
        outcomes[0] is Ok,
        outcomes[1] is Err,
    ensures
        steps[1] is Commit,
        steps[2] is Push,
        reaches(outcomes, 1),
        !reaches(outcomes, 2),
        run_result(outcomes) == outcomes[1],
{
    assert(reaches(outcomes, 1));
    crate::workflow::lemma_failure_ends_run(outcomes, 1);
}

} // verus!
