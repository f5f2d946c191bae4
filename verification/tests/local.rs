use cnctd_git::api::local::{
    Branch, BranchRename, ChangeKind, EngineStage, GitLocal, StatusEntry, SubmoduleUpdate,
};
use cnctd_git::GitError;

fn name() -> Option<String> {
    Some("Alice".to_string())
}

fn email() -> Option<String> {
    Some("alice@example.org".to_string())
}

fn alice() -> GitLocal {
    GitLocal { name: "Alice".to_string(), email: "alice@example.org".to_string() }
}

#[test]
fn signature_needs_name_and_email() {
    assert_eq!(GitLocal::get_signature(name(), email()), Ok(alice()));
    assert_eq!(GitLocal::get_signature(None, email()), Err(GitError::IdentityUnavailable));
    assert_eq!(GitLocal::get_signature(name(), None), Err(GitError::IdentityUnavailable));
    assert_eq!(GitLocal::get_signature(None, None), Err(GitError::IdentityUnavailable));
}

#[test]
fn commit_has_head_as_its_only_parent() {
    let plan = GitLocal::commit(name(), email(), Some("9fceb02".to_string()), "fix typo").unwrap();
    assert_eq!(plan.update_ref, "HEAD");
    assert_eq!(plan.author, alice());
    assert_eq!(plan.committer, alice());
    assert_eq!(plan.message, "fix typo");
    assert_eq!(plan.parents, vec!["9fceb02".to_string()]);
}

#[test]
fn first_commit_has_no_parent() {
    let plan = GitLocal::commit(name(), email(), None, "start").unwrap();
    assert!(plan.parents.is_empty());
    assert_eq!(plan.message, "start");
}

#[test]
fn commit_without_identity_is_refused() {
    let head = Some("9fceb02".to_string());
    assert_eq!(
        GitLocal::commit(None, email(), head.clone(), "m"),
        Err(GitError::IdentityUnavailable)
    );
    assert_eq!(GitLocal::commit(name(), None, head, "m"), Err(GitError::IdentityUnavailable));
}

#[test]
fn init_makes_one_empty_commit_and_renames_master_to_main() {
    let plan = GitLocal::init(name(), email(), None, "refs/heads/master").unwrap();
    assert_eq!(plan.commit.update_ref, "HEAD");
    assert_eq!(plan.commit.message, "Initial empty commit");
    assert_eq!(plan.commit.author, alice());
    assert_eq!(plan.commit.committer, alice());
    assert!(plan.commit.parents.is_empty());
    assert_eq!(
        plan.rename,
        Some(BranchRename { from: "master".to_string(), to: "main".to_string() })
    );
}

#[test]
fn init_on_main_needs_no_rename() {
    let plan = GitLocal::init(name(), email(), None, "refs/heads/main").unwrap();
    assert_eq!(plan.rename, None);
}

#[test]
fn init_of_a_repository_with_history_is_refused() {
    let again = GitLocal::init(name(), email(), Some("9fceb02".to_string()), "refs/heads/main");
    assert_eq!(again, Err(GitError::AlreadyInitialized));
}

#[test]
fn init_without_identity_is_refused_first() {
    assert_eq!(
        GitLocal::init(None, email(), None, "refs/heads/master"),
        Err(GitError::IdentityUnavailable)
    );
    assert_eq!(
        GitLocal::init(name(), None, Some("9fceb02".to_string()), "refs/heads/master"),
        Err(GitError::IdentityUnavailable)
    );
}

#[test]
fn origin_is_registered_once() {
    let plan = GitLocal::remote_add_origin(&vec!["upstream".to_string()], "https://x/y.git");
    let plan = plan.unwrap();
    assert_eq!(plan.name, "origin");
    assert_eq!(plan.url, "https://x/y.git");
    let again = GitLocal::remote_add_origin(
        &vec!["upstream".to_string(), "origin".to_string()],
        "https://x/y.git",
    );
    assert_eq!(again, Err(GitError::RemoteAlreadyExists));
    assert!(GitLocal::remote_add_origin(&Vec::new(), "u").is_ok());
}

#[test]
fn everything_is_staged_by_one_pattern() {
    assert_eq!(GitLocal::add_all(), vec!["*".to_string()]);
}

#[test]
fn push_names_both_refs_and_carries_the_token_as_password() {
    let plan = GitLocal::push(Branch::Main, Branch::Feature("x".to_string()), "t0k3n");
    assert_eq!(plan.remote, "origin");
    assert_eq!(plan.refspec, "refs/heads/main:refs/heads/feature/x");
    assert_eq!(plan.credential.username, "");
    assert_eq!(plan.credential.password, "t0k3n");
    let plan = GitLocal::push(Branch::Development, Branch::Development, "");
    assert_eq!(plan.refspec, "refs/heads/development:refs/heads/development");
}

#[test]
fn submodule_is_linked_and_initialised() {
    let plan = GitLocal::submodule_add("https://x/lib.git", "vendor/lib");
    assert_eq!(plan.url, "https://x/lib.git");
    assert_eq!(plan.path, "vendor/lib");
    assert!(plan.use_gitlink);
    assert!(plan.init);
}

#[test]
fn every_submodule_is_updated_in_order() {
    let updates = GitLocal::submodule_update(&vec!["a".to_string(), "b".to_string()]);
    assert_eq!(
        updates,
        vec![
            SubmoduleUpdate { name: "a".to_string(), init: true },
            SubmoduleUpdate { name: "b".to_string(), init: true },
        ]
    );
    assert!(GitLocal::submodule_update(&Vec::new()).is_empty());
}

#[test]
fn engine_failures_are_told_apart_by_stage() {
    let detail = "object not found".to_string();
    assert_eq!(
        GitLocal::engine_failure(EngineStage::Open, detail.clone()),
        GitError::RepositoryNotFound
    );
    assert_eq!(GitLocal::engine_failure(EngineStage::Push, detail.clone()), GitError::PushRejected);
    assert_eq!(
        GitLocal::engine_failure(EngineStage::Other, detail.clone()),
        GitError::Engine(detail)
    );
}

#[test]
fn identity_can_be_duplicated() {
    assert_eq!(alice().duplicate(), alice());
}

#[test]
fn only_a_local_branch_other_than_main_is_renamed() {
    assert_eq!(
        GitLocal::rename_to_main("refs/heads/trunk"),
        Some(BranchRename { from: "trunk".to_string(), to: "main".to_string() })
    );
    assert_eq!(
        GitLocal::rename_to_main("refs/heads/feature/x"),
        Some(BranchRename { from: "feature/x".to_string(), to: "main".to_string() })
    );
    assert_eq!(GitLocal::rename_to_main("refs/heads/main"), None);
    assert_eq!(GitLocal::rename_to_main("refs/tags/v1"), None);
    assert_eq!(GitLocal::rename_to_main("master"), None);
    assert_eq!(GitLocal::rename_to_main(""), None);
}

fn entry(path: &str, change: ChangeKind) -> StatusEntry {
    StatusEntry { path: path.to_string(), change }
}

#[test]
fn status_lists_only_what_changed_and_keeps_the_order() {
    let entries = vec![
        entry("README.md", ChangeKind::Unchanged),
        entry("src/new.rs", ChangeKind::New),
        entry("Cargo.toml", ChangeKind::Modified),
        entry("LICENSE", ChangeKind::Unchanged),
        entry("old.txt", ChangeKind::Deleted),
    ];
    assert_eq!(
        GitLocal::status(&entries),
        vec![
            entry("src/new.rs", ChangeKind::New),
            entry("Cargo.toml", ChangeKind::Modified),
            entry("old.txt", ChangeKind::Deleted),
        ]
    );
}

#[test]
fn status_of_a_clean_tree_is_empty() {
    assert!(GitLocal::status(&Vec::new()).is_empty());
    assert!(GitLocal::status(&vec![entry("a", ChangeKind::Unchanged)]).is_empty());
}
