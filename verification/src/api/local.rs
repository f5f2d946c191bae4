//! What each operation on a local working tree consists of.
//!
//! The functions here decide; they do not touch the disk. A caller reads the
//! state they ask for from the version-control engine (the configured
//! committer, the commit that `HEAD` resolves to, the registered remotes),
//! hands it over, and carries out the plan it gets back.

use vstd::prelude::*;
use crate::GitError;
use crate::text::{contains_text, holds_text, spec_without_prefix, texts, without_prefix};

verus! {

/// A branch of the repository.
#[derive(Debug, Clone, PartialEq, Eq)]
pub enum Branch {
    Main,
    Development,
    Feature(String),
}

impl Branch {
    /// The ref name of the branch: `main`, `development`, or `feature/`
    /// followed by the feature's name.
    pub open spec fn spec_name(self) -> Seq<char> {
        match self {
            Branch::Main => "main"@,
            Branch::Development => "development"@,
            Branch::Feature(name) => "feature/"@ + name@,
        }
    }

    /// The ref name of the branch.
    pub fn as_str(&self) -> (name: String)
        ensures
            name@ == self.spec_name(),
    {
        match self {
            Branch::Main => String::from_str("main"),
            Branch::Development => String::from_str("development"),
            Branch::Feature(name) => {
                let mut full = String::from_str("feature/");
                full.append(name.as_str());
                full
            },
        }
    }
}

/// Two branches have the same ref name only where they are the same branch.
pub proof fn lemma_branch_name_tells_branch(a: Branch, b: Branch)
    requires
        a.spec_name() == b.spec_name(),
    ensures
        match (a, b) {
            (Branch::Main, Branch::Main) => true,
            (Branch::Development, Branch::Development) => true,
            (Branch::Feature(first), Branch::Feature(second)) => first@ == second@,
            _ => false,
        },
{
    reveal_strlit("main");
    reveal_strlit("development");
    reveal_strlit("feature/");
    let prefix = "feature/"@;
    match (a, b) {
        (Branch::Feature(first), Branch::Feature(second)) => {
            assert(first@ =~= (prefix + first@).skip(8));
            assert(second@ =~= (prefix + second@).skip(8));
        },
        (Branch::Feature(name), _) => {
            assert((prefix + name@)[0] == 'f');
            assert("main"@[0] == 'm' && "development"@[0] == 'd');
        },
        (_, Branch::Feature(name)) => {
            assert((prefix + name@)[0] == 'f');
            assert("main"@[0] == 'm' && "development"@[0] == 'd');
        },
        _ => {
            assert("main"@.len() == 4 && "development"@.len() == 11);
        },
    }
}

/// The identity that commits are attributed to.
#[derive(Debug, Clone, PartialEq, Eq)]
pub struct GitLocal {
    pub name: String,
    pub email: String,
}

/// A user name and password handed to the remote in plain text.
#[derive(Debug, Clone, PartialEq, Eq)]
pub struct Credential {
    pub username: String,
    pub password: String,
}

/// A commit to create from the tree that the index currently describes.
#[derive(Debug, Clone, PartialEq, Eq)]
pub struct CommitPlan {
    /// The ref that is moved to the new commit.
    pub update_ref: String,
    pub author: GitLocal,
    pub committer: GitLocal,
    pub message: String,
    /// The ids of the parent commits, in order.
    pub parents: Vec<String>,
}

/// A local branch to rename.
#[derive(Debug, Clone, PartialEq, Eq)]
pub struct BranchRename {
    pub from: String,
    pub to: String,
}

/// What initialising a repository consists of once the store exists.
#[derive(Debug, Clone, PartialEq, Eq)]
pub struct InitPlan {
    pub commit: CommitPlan,
    /// The rename that leaves the first commit on `main`, where one is needed.
    pub rename: Option<BranchRename>,
}

/// A remote to register.
#[derive(Debug, Clone, PartialEq, Eq)]
pub struct RemotePlan {
    pub name: String,
    pub url: String,
}

/// A push of one local branch to one ref of a remote.
#[derive(Debug, Clone, PartialEq, Eq)]
pub struct PushPlan {
    pub remote: String,
    pub refspec: String,
    pub credential: Credential,
}

/// A submodule to register, check out and update.
#[derive(Debug, Clone, PartialEq, Eq)]
pub struct SubmodulePlan {
    pub url: String,
    pub path: String,
    /// Whether the submodule's store is linked from the parent's.
    pub use_gitlink: bool,
    /// Whether the update initialises the submodule first.
    pub init: bool,
}

/// One registered submodule to update to its recorded commit.
#[derive(Debug, Clone, PartialEq, Eq)]
pub struct SubmoduleUpdate {
    pub name: String,
    /// Whether the update initialises the submodule first.
    pub init: bool,
}

/// How an entry of the working tree differs from the last commit.
#[derive(Debug, Clone, Copy, PartialEq, Eq, Structural)]
pub enum ChangeKind {
    Unchanged,
    New,
    Modified,
    Deleted,
}

/// An entry of the working tree and its state.
#[derive(Debug, Clone, PartialEq, Eq)]
pub struct StatusEntry {
    pub path: String,
    pub change: ChangeKind,
}

/// Whether an entry differs from the last commit.
pub open spec fn is_changed(entry: StatusEntry) -> bool {
    entry.change != ChangeKind::Unchanged
}

/// The step of an operation at which the version-control engine failed.
#[derive(Debug, Clone, Copy, PartialEq, Eq, Structural)]
pub enum EngineStage {
    /// Opening the repository at the given path.
    Open,
    /// Sending a branch to the remote.
    Push,
    /// Any other step.
    Other,
}

/// Whether `rename` is what leaves the branch behind `head_ref` under the
/// name `main`: the branch is renamed unless `head_ref` is no local branch or
/// names `main` already.
pub open spec fn is_rename_to_main(rename: Option<BranchRename>, head_ref: Seq<char>) -> bool {
    match spec_without_prefix(head_ref, "refs/heads/"@) {
        Some(branch) => if branch == "main"@ {
            rename is None
        } else {
            rename matches Some(planned) && planned.from@ == branch && planned.to@ == "main"@
        },
        None => rename is None,
    }
}

/// The name of the remote that every operation addresses.
pub open spec fn origin() -> Seq<char> {
    "origin"@
}

/// The ref spec that sends `local` to the remote under the name of `remote`.
pub open spec fn push_refspec(local: Branch, remote: Branch) -> Seq<char> {
    "refs/heads/"@ + local.spec_name() + ":refs/heads/"@ + remote.spec_name()
}

impl GitLocal {
    /// A second value of the same identity.
    pub fn duplicate(&self) -> (copy: GitLocal)
        ensures
            copy == *self,
    {
        GitLocal { name: self.name.clone(), email: self.email.clone() }
    }

    /// The committer identity, where both a name and an e-mail are
    /// configured.
    pub open spec fn spec_signature(name: Option<String>, email: Option<String>) -> Option<
        GitLocal,
    > {
        match (name, email) {
            (Some(name), Some(email)) => Some(GitLocal { name, email }),
            _ => None,
        }
    }

    /// The committer identity from the configured name and e-mail. Fails with
    /// `IdentityUnavailable` where either is missing.
    pub fn get_signature(name: Option<String>, email: Option<String>) -> (signature: Result<
        GitLocal,
        GitError,
    >)
        ensures
            signature == match Self::spec_signature(name, email) {
                Some(identity) => Ok::<GitLocal, GitError>(identity),
                None => Err(GitError::IdentityUnavailable),
            },
    {
        match name {
            Some(name) => match email {
                Some(email) => Ok(GitLocal { name, email }),
                None => Err(GitError::IdentityUnavailable),
            },
            None => Err(GitError::IdentityUnavailable),
        }
    }

    /// The error that stands for a failure of the engine at `stage`: a
    /// repository that cannot be opened is not found, a push that fails was
    /// rejected, and anything else is passed on in the engine's words.
    pub fn engine_failure(stage: EngineStage, detail: String) -> (error: GitError)
        ensures
            error == match stage {
                EngineStage::Open => GitError::RepositoryNotFound,
                EngineStage::Push => GitError::PushRejected,
                EngineStage::Other => GitError::Engine(detail),
            },
    {
        match stage {
            EngineStage::Open => GitError::RepositoryNotFound,
            EngineStage::Push => GitError::PushRejected,
            EngineStage::Other => GitError::Engine(detail),
        }
    }

    /// The commit that records the staged tree: `HEAD` moves to it, the
    /// configured identity is both its author and its committer, and its only
    /// parent is the commit that `HEAD` resolved to. Where `HEAD` resolved to
    /// nothing, it is a first commit without parents. An unchanged tree is
    /// committed like any other.
    ///
    /// Fails with `IdentityUnavailable` exactly where the name or the e-mail
    /// is missing.
    pub fn commit(
        name: Option<String>,
        email: Option<String>,
        head: Option<String>,
        message: &str,
    ) -> (plan: Result<CommitPlan, GitError>)
        ensures
            Self::spec_signature(name, email) is None ==> plan == Err::<CommitPlan, GitError>(
                GitError::IdentityUnavailable,
            ),
            Self::spec_signature(name, email) matches Some(identity) ==> {
                &&& plan matches Ok(commit)
                &&& commit.update_ref@ == "HEAD"@
                &&& commit.author == identity
                &&& commit.committer == identity
                &&& commit.message@ == message@
                &&& commit.parents@ == match head {
                    Some(id) => seq![id],
                    None => Seq::<String>::empty(),
                }
            },
    {
        let identity = match Self::get_signature(name, email) {
            Ok(identity) => identity,
            Err(error) => {
                return Err(error);
            },
        };
        let mut parents: Vec<String> = Vec::new();
        if let Some(id) = head {
            parents.push(id);
            assert(parents@ =~= seq![id]);
        }
        Ok(
            CommitPlan {
                update_ref: String::from_str("HEAD"),
                author: identity.duplicate(),
                committer: identity,
                message: String::from_str(message),
                parents,
            },
        )
    }

    /// What initialising a repository consists of, once its store exists:
    /// one empty commit without parents, made by the configured identity,
    /// and the rename that leaves it on `main` where the store began on a
    /// branch of another name.
    ///
    /// `head` is the commit that `HEAD` resolves to, if any, and `head_ref`
    /// the full name of the ref that `HEAD` points at, such as
    /// `refs/heads/master`. Fails with `IdentityUnavailable` where the name or
    /// the e-mail is missing, and otherwise with `AlreadyInitialized` where
    /// the store already has history.
    pub fn init(
        name: Option<String>,
        email: Option<String>,
        head: Option<String>,
        head_ref: &str,
    ) -> (plan: Result<InitPlan, GitError>)
        ensures
            Self::spec_signature(name, email) is None ==> plan == Err::<InitPlan, GitError>(
                GitError::IdentityUnavailable,
            ),
            Self::spec_signature(name, email) is Some && head is Some ==> plan == Err::<
                InitPlan,
                GitError,
            >(GitError::AlreadyInitialized),
            head is None ==> (Self::spec_signature(name, email) matches Some(identity) ==> {
                &&& plan matches Ok(init)
                &&& init.commit.update_ref@ == "HEAD"@
                &&& init.commit.author == identity
                &&& init.commit.committer == identity
                &&& init.commit.message@ == "Initial empty commit"@
                &&& init.commit.parents@.len() == 0
                &&& is_rename_to_main(init.rename, head_ref@)
            }),
    {
        let commit = match Self::commit(name, email, None, "Initial empty commit") {
            Ok(commit) => commit,
            Err(error) => {
                return Err(error);
            },
        };
        if head.is_some() {
            return Err(GitError::AlreadyInitialized);
        }
        Ok(InitPlan { commit, rename: Self::rename_to_main(head_ref) })
    }

    /// The rename that puts the branch behind `head_ref` under the name
    /// `main`: none where the ref is no local branch or is `main` already.
    pub fn rename_to_main(head_ref: &str) -> (rename: Option<BranchRename>)
        ensures
            is_rename_to_main(rename, head_ref@),
    {
        match without_prefix(head_ref, "refs/heads/") {
            Some(from) => {
                let to = String::from_str("main");
                if from == to {
                    None
                } else {
                    Some(BranchRename { from, to })
                }
            },
            None => None,
        }
    }

    /// The remote to register for `url`: it is named `origin`. Fails with
    /// `RemoteAlreadyExists` exactly where `remotes`, the names already
    /// registered, holds `origin`.
    pub fn remote_add_origin(remotes: &Vec<String>, url: &str) -> (plan: Result<
        RemotePlan,
        GitError,
    >)
        ensures
            holds_text(texts(remotes@), origin()) ==> plan == Err::<RemotePlan, GitError>(
                GitError::RemoteAlreadyExists,
            ),
            !holds_text(texts(remotes@), origin()) ==> {
                &&& plan matches Ok(remote)
                &&& remote.name@ == origin()
                &&& remote.url@ == url@
            },
    {
        let name = String::from_str("origin");
        if contains_text(remotes, &name) {
            Err(GitError::RemoteAlreadyExists)
        } else {
            Ok(RemotePlan { name, url: String::from_str(url) })
        }
    }

    /// The path patterns to stage so that every change of the working tree,
    /// untracked files included, enters the next commit: the one pattern `*`.
    pub fn add_all() -> (pathspecs: Vec<String>)
        ensures
            texts(pathspecs@) == seq!["*"@],
    {
        let mut pathspecs: Vec<String> = Vec::new();
        pathspecs.push(String::from_str("*"));
        assert(texts(pathspecs@) =~= seq!["*"@]);
        pathspecs
    }

    /// The push that sends `local_branch` to `origin` under the name of
    /// `remote_branch`. The token is the password of a plain-text credential
    /// whose user name is empty.
    pub fn push(local_branch: Branch, remote_branch: Branch, token: &str) -> (plan: PushPlan)
        ensures
            plan.remote@ == origin(),
            plan.refspec@ == push_refspec(local_branch, remote_branch),
            plan.credential.username@ == Seq::<char>::empty(),
            plan.credential.password@ == token@,
    {
        let mut refspec = String::from_str("refs/heads/");
        refspec.append(local_branch.as_str().as_str());
        refspec.append(":refs/heads/");
        refspec.append(remote_branch.as_str().as_str());
        PushPlan {
            remote: String::from_str("origin"),
            refspec,
            credential: Credential { username: String::new(), password: String::from_str(token) },
        }
    }

    /// The submodule to attach for `remote_url` at `path`: it is registered
    /// with a link to its store, its checkout is finalised, and it is then
    /// updated, being initialised first.
    pub fn submodule_add(remote_url: &str, path: &str) -> (plan: SubmodulePlan)
        ensures
            plan.url@ == remote_url@,
            plan.path@ == path@,
            plan.use_gitlink,
            plan.init,
    {
        SubmodulePlan {
            url: String::from_str(remote_url),
            path: String::from_str(path),
            use_gitlink: true,
            init: true,
        }
    }

    /// The entries that differ from the last commit, in the order in which
    /// the engine listed them; entries without a change are left out.
    pub fn status(entries: &Vec<StatusEntry>) -> (changes: Vec<StatusEntry>)
        ensures
            changes@ == entries@.filter(|entry: StatusEntry| is_changed(entry)),
    {
        let ghost changed = |entry: StatusEntry| is_changed(entry);
        let mut changes: Vec<StatusEntry> = Vec::new();
        let mut i: usize = 0;
        proof {
            reveal(Seq::filter);
            assert(entries@.take(0) =~= Seq::<StatusEntry>::empty());
        }
        while i < entries.len()
            invariant
                i <= entries.len(),
                changed == |entry: StatusEntry| is_changed(entry),
                changes@ == entries@.take(i as int).filter(changed),
            decreases entries.len() - i,
        {
            proof {
                reveal(Seq::filter);
                assert(entries@.take(i + 1).drop_last() =~= entries@.take(i as int));
            }
            match entries[i].change {
                ChangeKind::Unchanged => {},
                change => {
                    changes.push(StatusEntry { path: entries[i].path.clone(), change });
                },
            }
            i += 1;
        }
        assert(entries@.take(i as int) =~= entries@);
        changes
    }

    /// One update for every registered submodule, in the order of `names`,
    /// each initialising its submodule first.
    pub fn submodule_update(names: &Vec<String>) -> (updates: Vec<SubmoduleUpdate>)
        ensures
            updates@.len() == names@.len(),
            forall|i: int|
                0 <= i < names@.len() ==> updates@[i] == (SubmoduleUpdate {
                    name: names@[i],
                    init: true,
                }),
    {
        let mut updates: Vec<SubmoduleUpdate> = Vec::new();
        let mut i: usize = 0;
        while i < names.len()
            invariant
                i <= names.len(),
                updates@.len() == i,
                forall|j: int|
                    0 <= j < i ==> updates@[j] == (SubmoduleUpdate { name: names@[j], init: true }),
            decreases names.len() - i,
        {
            updates.push(SubmoduleUpdate { name: names[i].clone(), init: true });
            i += 1;
        }
        updates
    }
}

} // verus!
