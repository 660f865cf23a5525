use vstd::prelude::*;

use crate::error::AppError;
use crate::text::{contains_char, ends_with, has_char, has_prefix, has_suffix, join2, join3, same_text, starts_with};
use git2::{Branch, Commit, Reference, Repository, Worktree};

verus! {

/// Whether a name may be used for a worktree and its branch: not empty, no
/// path separator or NUL, not `.` or `..`, and not starting with `-`.
pub open spec fn worktree_name_ok(name: Seq<char>) -> bool {
    &&& name.len() > 0
    &&& !has_char(name, '/')
    &&& !has_char(name, '\\')
    &&& !has_char(name, '\0')
    &&& name != "."@
    &&& name != ".."@
    &&& !has_prefix(name, "-"@)
}

/// Message of a refused worktree name.
pub open spec fn bad_worktree_name_text(name: Seq<char>) -> Seq<char> {
    "invalid worktree name: "@ + name
}

/// Checks a worktree name (see `worktree_name_ok`); a refused name is a
/// validation error that quotes it.
pub fn validate_worktree_name(name: &str) -> (r: Result<(), AppError>)
    ensures
        r is Ok <==> worktree_name_ok(name@),
        r is Err ==> r->Err_0 is Validation && r->Err_0.text() == bad_worktree_name_text(name@),
{
    if name.unicode_len() == 0 || contains_char(name, '/') || contains_char(name, '\\') || contains_char(name, '\0')
        || same_text(name, ".") || same_text(name, "..") || starts_with(name, "-") {
        return Err(AppError::Validation(join2("invalid worktree name: ", name)));
    }
    Ok(())
}

/// Information about a git worktree.
#[derive(Debug, Clone)]
pub struct WorktreeInfo {
    pub name: String,
    pub path: String,
    pub branch: Option<String>,
    pub is_valid: bool,
}

#[verifier::external_type_specification]
#[verifier::external_body]
pub struct ExRepository(Repository);

#[verifier::external_type_specification]
#[verifier::external_body]
pub struct ExReference<'a>(Reference<'a>);

#[verifier::external_type_specification]
#[verifier::external_body]
pub struct ExCommit<'a>(Commit<'a>);

#[verifier::external_type_specification]
#[verifier::external_body]
pub struct ExBranch<'a>(Branch<'a>);

#[verifier::external_type_specification]
#[verifier::external_body]
pub struct ExWorktree(Worktree);

/// The parent directory of a path, as `std::path::Path::parent` gives it
/// (`None` for a root or an empty path).
pub uninterp spec fn path_parent_text(path: Seq<char>) -> Option<Seq<char>>;

/// A path with a part appended, as `std::path::Path::join` forms it on Unix:
/// a part that starts with `/` replaces the base; otherwise one `/` goes
/// between them, unless the base is empty or already ends with one.
pub open spec fn path_join_text(base: Seq<char>, part: Seq<char>) -> Seq<char> {
    if has_prefix(part, "/"@) {
        part
    } else if base.len() > 0 && !has_suffix(base, "/"@) {
        base + "/"@ + part
    } else {
        base + part
    }
}

/// The parent directory of a path, with `std::path::Path::parent`.
///
/// Trusted: the result is `path_parent_text(path)`.
#[verifier::external_body]
fn path_parent(path: &str) -> (r: Option<String>)
    ensures
        r is None <==> path_parent_text(path@) is None,
        r is Some ==> r->0@ == path_parent_text(path@)->0,
{
    match std::path::Path::new(path).parent() {
        Some(p) => Some(p.to_string_lossy().into_owned()),
        None => None,
    }
}

/// Appends a part to a path (see `path_join_text`).
pub fn path_join(base: &str, part: &str) -> (r: String)
    ensures
        r@ == path_join_text(base@, part@),
{
    if starts_with(part, "/") {
        String::from_str(part)
    } else if base.unicode_len() > 0 && !ends_with(base, "/") {
        join3(base, "/", part)
    } else {
        join2(base, part)
    }
}

/// The directory of worktree `name` beside the repository at `repo_path`:
/// `name` joined to the repository's parent directory; `None` where the
/// repository path has no parent.
pub fn worktree_dir(repo_path: &str, name: &str) -> (r: Option<String>)
    ensures
        r is None <==> path_parent_text(repo_path@) is None,
        r is Some ==> r->0@ == path_join_text(path_parent_text(repo_path@)->0, name@),
{
    match path_parent(repo_path) {
        Some(parent) => Some(path_join(parent.as_str(), name)),
        None => None,
    }
}

/// Opens a repository with `git2::Repository::open`; the error is its text.
///
/// Trusted: nothing is stated; the outcome depends on the disk.
#[verifier::external_body]
fn git_open(path: &str) -> Result<Repository, String> {
    match Repository::open(path) {
        Ok(r) => Ok(r),
        Err(e) => Err(e.to_string()),
    }
}

/// The reference HEAD points to, with `git2::Repository::head`.
///
/// Trusted: nothing is stated; the outcome depends on the repository.
#[verifier::external_body]
fn git_head<'r>(repo: &'r Repository) -> Result<Reference<'r>, String> {
    match repo.head() {
        Ok(h) => Ok(h),
        Err(e) => Err(e.to_string()),
    }
}

/// The commit a reference leads to, with `git2::Reference::peel_to_commit`.
///
/// Trusted: nothing is stated; the outcome depends on the repository.
#[verifier::external_body]
fn git_peel_to_commit<'r>(reference: &Reference<'r>) -> Result<Commit<'r>, String> {
    match reference.peel_to_commit() {
        Ok(c) => Ok(c),
        Err(e) => Err(e.to_string()),
    }
}

/// Creates branch `name` at `commit` without overwriting, with
/// `git2::Repository::branch`.
///
/// Trusted: nothing is stated; the outcome depends on the repository.
#[verifier::external_body]
fn git_create_branch<'r>(repo: &'r Repository, name: &str, commit: &Commit<'r>) -> Result<Branch<'r>, String> {
    match repo.branch(name, commit, false) {
        Ok(b) => Ok(b),
        Err(e) => Err(e.to_string()),
    }
}

/// Adds worktree `name` at `path` checked out on `branch`, with
/// `git2::Repository::worktree` (the options name the branch's reference).
///
/// Trusted: nothing is stated; the outcome depends on the repository and disk.
#[verifier::external_body]
fn git_add_worktree(repo: &Repository, name: &str, path: &str, branch: &Branch) -> Result<(), String> {
    let mut opts = git2::WorktreeAddOptions::new();
    opts.reference(Some(branch.get()));
    match repo.worktree(name, std::path::Path::new(path), Some(&opts)) {
        Ok(_) => Ok(()),
        Err(e) => Err(e.to_string()),
    }
}

/// Deletes a branch with `git2::Branch::delete`.
///
/// Trusted: nothing is stated; the outcome depends on the repository.
#[verifier::external_body]
fn git_delete_branch(branch: &mut Branch) -> Result<(), String> {
    match branch.delete() {
        Ok(()) => Ok(()),
        Err(e) => Err(e.to_string()),
    }
}

/// The names of a repository's worktrees, with `git2::Repository::worktrees`
/// (`None` for a name that is not UTF-8).
///
/// Trusted: nothing is stated; the outcome depends on the repository.
#[verifier::external_body]
fn git_worktree_names(repo: &Repository) -> Result<Vec<Option<String>>, String> {
    match repo.worktrees() {
        Ok(names) => {
            let mut out = Vec::new();
            for n in names.iter() {
                out.push(match n { Some(s) => Some(s.to_string()), None => None });
            }
            Ok(out)
        },
        Err(e) => Err(e.to_string()),
    }
}

/// Looks a worktree up by name, with `git2::Repository::find_worktree`.
///
/// Trusted: nothing is stated; the outcome depends on the repository.
#[verifier::external_body]
fn git_find_worktree(repo: &Repository, name: &str) -> Result<Worktree, String> {
    match repo.find_worktree(name) {
        Ok(w) => Ok(w),
        Err(e) => Err(e.to_string()),
    }
}

/// Whether a worktree is valid, with `git2::Worktree::validate`.
///
/// Trusted: nothing is stated; the answer depends on the disk.
#[verifier::external_body]
fn git_worktree_valid(wt: &Worktree) -> bool {
    wt.validate().is_ok()
}

/// The directory of a worktree, with `git2::Worktree::path`.
///
/// Trusted: nothing is stated; the answer depends on the repository.
#[verifier::external_body]
fn git_worktree_path(wt: &Worktree) -> String {
    wt.path().to_string_lossy().into_owned()
}

/// The short name of a reference, with `git2::Reference::shorthand`.
///
/// Trusted: nothing is stated; the answer depends on the repository.
#[verifier::external_body]
fn git_shorthand(reference: &Reference) -> Option<String> {
    match reference.shorthand() {
        Some(s) => Some(s.to_string()),
        None => None,
    }
}

/// Removes a worktree and its working directory, with `git2::Worktree::prune`
/// (pruning even a valid worktree, and its working tree).
///
/// Trusted: nothing is stated; the outcome depends on the repository and disk.
#[verifier::external_body]
fn git_prune_worktree(wt: &Worktree) -> Result<(), String> {
    let mut opts = git2::WorktreePruneOptions::new();
    opts.valid(true);
    opts.working_tree(true);
    match wt.prune(Some(&mut opts)) {
        Ok(()) => Ok(()),
        Err(e) => Err(e.to_string()),
    }
}

/// Looks a local branch up by name, with `git2::Repository::find_branch`.
///
/// Trusted: nothing is stated; the outcome depends on the repository.
#[verifier::external_body]
fn git_find_local_branch<'r>(repo: &'r Repository, name: &str) -> Result<Branch<'r>, String> {
    match repo.find_branch(name, git2::BranchType::Local) {
        Ok(b) => Ok(b),
        Err(e) => Err(e.to_string()),
    }
}

/// Creates a worktree `name` beside the repository, on a new branch `name`
/// forked from HEAD. A refused name is a validation error and nothing is
/// touched; a repository without a parent directory is an internal error; if
/// git cannot add the worktree, the new branch is deleted again.
pub fn create_worktree(repo_path: &str, name: &str) -> (r: Result<WorktreeInfo, AppError>)
    ensures
        !worktree_name_ok(name@) ==> r is Err && r->Err_0 is Validation && r->Err_0.text() == bad_worktree_name_text(name@),
        r is Ok ==> worktree_name_ok(name@) && path_parent_text(repo_path@) is Some,
        r is Ok ==> ({
            let info = r->Ok_0;
            &&& info.name@ == name@
            &&& info.path@ == path_join_text(path_parent_text(repo_path@)->0, name@)
            &&& info.branch is Some && info.branch->0@ == name@
            &&& info.is_valid
        }),
        r is Err && worktree_name_ok(name@) ==> r->Err_0 is Internal,
{
    match validate_worktree_name(name) {
        Err(e) => { return Err(e); },
        Ok(()) => {},
    }
    let repo = match git_open(repo_path) {
        Ok(r) => r,
        Err(m) => { return Err(AppError::Internal(m)); },
    };
    let head = match git_head(&repo) {
        Ok(h) => h,
        Err(m) => { return Err(AppError::Internal(m)); },
    };
    let commit = match git_peel_to_commit(&head) {
        Ok(c) => c,
        Err(m) => { return Err(AppError::Internal(m)); },
    };
    let mut branch = match git_create_branch(&repo, name, &commit) {
        Ok(b) => b,
        Err(m) => { return Err(AppError::Internal(m)); },
    };
    let wt_path = match worktree_dir(repo_path, name) {
        Some(p) => p,
        None => { return Err(AppError::Internal(String::from_str("repository has no parent directory"))); },
    };
    match git_add_worktree(&repo, name, wt_path.as_str(), &branch) {
        Ok(()) => {},
        Err(m) => {
            let _ = git_delete_branch(&mut branch);
            return Err(AppError::Internal(m));
        },
    }
    Ok(WorktreeInfo {
        name: String::from_str(name),
        path: wt_path,
        branch: Some(String::from_str(name)),
        is_valid: true,
    })
}

/// What is known of a worktree, given what git reported of it: its name, its
/// directory, whether it is valid, and the branch its HEAD is on (only a valid
/// worktree is asked for one, and only a valid worktree reports one).
pub fn worktree_info_from(name: &str, path: String, is_valid: bool, head_branch: Option<String>) -> (r: WorktreeInfo)
    ensures
        r.name@ == name@,
        r.path@ == path@,
        r.is_valid == is_valid,
        r.branch == (if is_valid { head_branch } else { None::<String> }),
{
    let branch = if is_valid { head_branch } else { None };
    WorktreeInfo { name: String::from_str(name), path, branch, is_valid }
}

/// The texts of the names that are present, in order.
pub open spec fn present_names(names: Seq<Option<String>>) -> Seq<Seq<char>>
    decreases names.len(),
{
    if names.len() == 0 {
        Seq::empty()
    } else {
        match names.last() {
            Some(n) => present_names(names.drop_last()).push(n@),
            None => present_names(names.drop_last()),
        }
    }
}

/// The texts of a sequence of strings.
pub open spec fn string_texts(v: Seq<String>) -> Seq<Seq<char>> {
    v.map_values(|s: String| s@)
}

/// The worktree names git listed that are UTF-8 (git reports the others as
/// absent), in git's order.
pub fn listed_names(names: &Vec<Option<String>>) -> (r: Vec<String>)
    ensures
        string_texts(r@) == present_names(names@),
{
    let mut r: Vec<String> = Vec::new();
    let mut i: usize = 0;
    while i < names.len()
        invariant
            0 <= i <= names@.len(),
            string_texts(r@) == present_names(names@.take(i as int)),
        decreases names@.len() - i,
    {
        proof {
            assert(names@.take(i + 1).drop_last() =~= names@.take(i as int));
            assert(names@.take(i + 1).last() == names@[i as int]);
        }
        match &names[i] {
            Some(n) => {
                r.push(n.clone());
                assert(string_texts(r@) =~= present_names(names@.take(i as int)).push(n@));
            },
            None => {},
        }
        i = i + 1;
    }
    assert(names@.take(names@.len() as int) =~= names@);
    r
}

/// Describes worktree `name` of an open repository: its directory, whether it
/// is valid, and for a valid one the branch its HEAD is on.
fn build_worktree_info(repo: &Repository, name: &str) -> (r: Result<WorktreeInfo, AppError>)
    ensures
        r is Ok ==> r->Ok_0.name@ == name@,
        r is Ok && !r->Ok_0.is_valid ==> r->Ok_0.branch is None,
        r is Err ==> r->Err_0 is Internal,
{
    let wt = match git_find_worktree(repo, name) {
        Ok(w) => w,
        Err(m) => { return Err(AppError::Internal(m)); },
    };
    let is_valid = git_worktree_valid(&wt);
    let path = git_worktree_path(&wt);
    let head_branch = if is_valid {
        match git_open(path.as_str()) {
            Ok(wt_repo) => {
                match git_head(&wt_repo) {
                    Ok(h) => git_shorthand(&h),
                    Err(_) => None,
                }
            },
            Err(_) => None,
        }
    } else {
        None
    };
    Ok(worktree_info_from(name, path, is_valid, head_branch))
}

/// Lists the worktrees of a repository, in the order git gives them; names
/// that are not UTF-8 are skipped (see `listed_names`), and each worktree is
/// described as `worktree_info_from` says.
pub fn list_worktrees(repo_path: &str) -> (r: Result<Vec<WorktreeInfo>, AppError>)
    ensures
        r is Ok ==> forall|i: int| 0 <= i < r->Ok_0@.len() && !(#[trigger] r->Ok_0@[i]).is_valid ==> r->Ok_0@[i].branch is None,
        r is Err ==> r->Err_0 is Internal,
{
    let repo = match git_open(repo_path) {
        Ok(r) => r,
        Err(m) => { return Err(AppError::Internal(m)); },
    };
    let names = match git_worktree_names(&repo) {
        Ok(n) => listed_names(&n),
        Err(m) => { return Err(AppError::Internal(m)); },
    };
    let mut result: Vec<WorktreeInfo> = Vec::new();
    let mut i: usize = 0;
    while i < names.len()
        invariant
            0 <= i <= names@.len(),
            forall|k: int| 0 <= k < result@.len() && !(#[trigger] result@[k]).is_valid ==> result@[k].branch is None,
        decreases names@.len() - i,
    {
        match build_worktree_info(&repo, names[i].as_str()) {
            Ok(info) => result.push(info),
            Err(e) => { return Err(e); },
        }
        i = i + 1;
    }
    Ok(result)
}

/// Describes one worktree of a repository by name.
pub fn get_worktree(repo_path: &str, name: &str) -> (r: Result<WorktreeInfo, AppError>)
    ensures
        r is Ok ==> r->Ok_0.name@ == name@,
        r is Ok && !r->Ok_0.is_valid ==> r->Ok_0.branch is None,
        r is Err ==> r->Err_0 is Internal,
{
    let repo = match git_open(repo_path) {
        Ok(r) => r,
        Err(m) => { return Err(AppError::Internal(m)); },
    };
    build_worktree_info(&repo, name)
}

/// Deletes a worktree and its working directory, then its branch; a branch
/// that cannot be found or deleted is left as it is.
pub fn delete_worktree(repo_path: &str, name: &str) -> (r: Result<(), AppError>)
    ensures
        r is Err ==> r->Err_0 is Internal,
{
    let repo = match git_open(repo_path) {
        Ok(r) => r,
        Err(m) => { return Err(AppError::Internal(m)); },
    };
    let wt = match git_find_worktree(&repo, name) {
        Ok(w) => w,
        Err(m) => { return Err(AppError::Internal(m)); },
    };
    match git_prune_worktree(&wt) {
        Ok(()) => {},
        Err(m) => { return Err(AppError::Internal(m)); },
    }
    match git_find_local_branch(&repo, name) {
        Ok(mut branch) => {
            let _ = git_delete_branch(&mut branch);
        },
        Err(_) => {},
    }
    Ok(())
}

} // verus!
