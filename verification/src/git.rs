//! The rules for operating the git server: whether its user is set up, and
//! how repositories are named.

use vstd::prelude::*;
use crate::error::{checked, AppError, AppErrorView};
use crate::text::{
    chain, chain3, contains_text, has_part, has_prefix, lines_view, split_at, split_on,
    starts_with,
};

verus! {

/// What can be asked of the git server.
#[derive(Debug)]
pub enum Operation {
    Init { target: String },
    Migrate { target: String },
    Mirror { target: String },
}

/// Whether a line of the user database is that of the git user: it begins
/// with `git` and names `/home/git`.
pub open spec fn is_git_user(row: Seq<char>) -> bool {
    has_prefix(row, "git"@) && has_part(row, "/home/git"@)
}

/// Whether the user database has a line for the git user.
pub open spec fn lists_git_user(passwd: Seq<char>) -> bool {
    exists|i: int|
        0 <= i < split_on(passwd, '\n').len() && is_git_user(#[trigger] split_on(passwd, '\n')[i])
}

/// Whether the user database has a line for the git user.
pub fn has_git_user(passwd: &str) -> (r: bool)
    ensures
        r == lists_git_user(passwd@),
{
    let rows = split_at(passwd, '\n');
    let ghost all = split_on(passwd@, '\n');
    let mut i: usize = 0;
    while i < rows.len()
        invariant
            i <= rows@.len(),
            lines_view(rows@) == all,
            all == split_on(passwd@, '\n'),
            forall|k: int| 0 <= k < i ==> !is_git_user(#[trigger] all[k]),
        decreases rows@.len() - i,
    {
        assert(all[i as int] == rows@[i as int]@);
        if starts_with(rows[i].as_str(), "git") && contains_text(rows[i].as_str(), "/home/git") {
            return true;
        }
        i += 1;
    }
    false
}

/// Refuses to go on where the git server is not set up: the directory of
/// the repositories must exist, and the git user must be in the user
/// database.
pub fn assert_service_installed(root_present: bool, passwd: &str) -> (r: Result<(), AppError>)
    ensures
        checked(r) == if !root_present {
            Err::<(), AppErrorView>(AppErrorView::ServiceError("git root directory not found."@))
        } else if !lists_git_user(passwd@) {
            Err::<(), AppErrorView>(AppErrorView::ServiceError("invalid git user."@))
        } else {
            Ok::<(), AppErrorView>(())
        },
{
    if !root_present {
        return Err(AppError::ServiceError("git root directory not found.".to_owned()));
    }
    if has_git_user(passwd) {
        Ok(())
    } else {
        Err(AppError::ServiceError("invalid git user.".to_owned()))
    }
}

/// The directory of the repository `name` below the directory of the
/// repositories.
pub fn repository_dir(name: &str) -> (r: String)
    ensures
        r@ == "/srv/git/"@ + name@,
{
    chain("/srv/git/", name)
}

/// The name of the repository that a remote address ends in: what follows
/// its last slash.
pub fn mirror_target(remote_target: &str) -> (r: String)
    ensures
        r@ == split_on(remote_target@, '/').last(),
{
    let mut parts = split_at(remote_target, '/');
    match parts.pop() {
        Some(last) => last,
        None => String::new(),
    }
}

/// Refuses to make a repository that exists already. `present` says whether
/// the directory of `name` exists.
pub fn assert_repository_is_new(name: &str, present: bool) -> (r: Result<(), AppError>)
    ensures
        checked(r) == if !present {
            Ok::<(), AppErrorView>(())
        } else {
            Err::<(), AppErrorView>(AppErrorView::ServiceError(name@ + " already exists."@))
        },
{
    if !present {
        Ok(())
    } else {
        Err(AppError::ServiceError(chain(name, " already exists.")))
    }
}

/// Refuses to mirror a repository that does not exist. `present` says
/// whether the directory of `name` exists.
pub fn assert_repository_exists(name: &str, present: bool) -> (r: Result<(), AppError>)
    ensures
        checked(r) == if present {
            Ok::<(), AppErrorView>(())
        } else {
            Err::<(), AppErrorView>(AppErrorView::ServiceError(name@ + " does not exist."@))
        },
{
    if present {
        Ok(())
    } else {
        Err(AppError::ServiceError(chain(name, " does not exist.")))
    }
}

/// The address of the repository `target` at `remote`.
pub fn remote_address(remote: &str, target: &str) -> (r: String)
    ensures
        r@ == remote@ + "/"@ + target@,
{
    chain3(remote, "/", target)
}

} // verus!
