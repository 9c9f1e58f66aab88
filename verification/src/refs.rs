//! Which ref of the component repository is propagated, and at which commit.
use crate::args::Args;
use crate::commit_id::CommitId;
use crate::error::{Error, ErrorView};
use crate::protocol::{Head, HeadView};
use crate::text::strip_prefix;
use vstd::prelude::*;

verus! {

/// The prefix that the full name of every local branch starts with.
pub open spec fn heads_prefix() -> Seq<char> {
    "refs/heads/"@
}

/// Whether a full ref name is that of a local branch.
pub open spec fn names_branch(git_ref: Seq<char>) -> bool {
    heads_prefix().is_prefix_of(git_ref)
}

/// The shorthand of a branch: its full name without the prefix.
pub open spec fn branch_of(git_ref: Seq<char>) -> Seq<char> {
    git_ref.skip(heads_prefix().len() as int)
}

/// The full name of the branch with the given shorthand.
pub open spec fn ref_of_branch(branch: Seq<char>) -> Seq<char> {
    heads_prefix() + branch
}

/// The shorthand of the branch that a full ref name stands for, where it
/// stands for one.
pub open spec fn branch_name(git_ref: Seq<char>) -> Result<Seq<char>, ErrorView> {
    if names_branch(git_ref) {
        Ok(branch_of(git_ref))
    } else {
        Err(ErrorView::NotABranch)
    }
}

/// The view of a branch name that was asked for.
pub open spec fn name_result_view(result: Result<&str, Error>) -> Result<Seq<char>, ErrorView> {
    match result {
        Ok(name) => Ok(name@),
        Err(e) => Err(e@),
    }
}

/// The shorthand of the branch that a full ref name stands for.
/// A name that does not start with `refs/heads/` is no branch.
pub fn get_branch_name_from_ref(git_ref: &str) -> (name: Result<&str, Error>)
    ensures
        name_result_view(name) == branch_name(git_ref@),
{
    match strip_prefix(git_ref, "refs/heads/") {
        Some(branch) => Ok(branch),
        None => Err(Error::NotABranch),
    }
}

/// The ref that a run propagates: the one that the caller gave, as it was
/// given, else the full name of the branch that the component's head is on.
pub open spec fn resolved_ref(given: Option<Seq<char>>, head: HeadView) -> Result<
    Seq<char>,
    ErrorView,
> {
    match given {
        Some(name) => Ok(name),
        None => match head.name {
            Some(name) => if head.is_branch {
                Ok(name)
            } else {
                Err(ErrorView::NotABranch)
            },
            None => Err(ErrorView::NotABranch),
        },
    }
}

/// The view of a resolved ref.
pub open spec fn ref_result_view(result: Result<String, Error>) -> Result<Seq<char>, ErrorView> {
    match result {
        Ok(name) => Ok(name@),
        Err(e) => Err(e@),
    }
}

/// Resolves the ref to propagate. A ref given by the caller is used verbatim,
/// whatever it is and whatever the head is on; without one the component's
/// head decides, and a detached head is refused.
pub fn git_ref(args: &Args, head: &Head) -> (name: Result<String, Error>)
    ensures
        ref_result_view(name) == resolved_ref(args@.git_ref, head@),
{
    match &args.git_ref {
        Some(given) => Ok(given.clone()),
        None => match &head.name {
            Some(name) => {
                if head.is_branch {
                    Ok(name.clone())
                } else {
                    Err(Error::NotABranch)
                }
            },
            None => Err(Error::NotABranch),
        },
    }
}

/// The commit to propagate: the one that the ref resolves to, which must be
/// the one that is checked out.
pub open spec fn checked_out_commit(head: Seq<u8>, resolved: Seq<u8>) -> Result<
    Seq<u8>,
    ErrorView,
> {
    if resolved == head {
        Ok(resolved)
    } else {
        Err(ErrorView::RefMismatch)
    }
}

/// The view of a resolved commit.
pub open spec fn commit_result_view(result: Result<CommitId, Error>) -> Result<
    Seq<u8>,
    ErrorView,
> {
    match result {
        Ok(id) => Ok(id@),
        Err(e) => Err(e@),
    }
}

/// Checks that the ref to propagate points at the commit that the component's
/// head is on, and gives that commit.
pub fn head_id(head: CommitId, resolved: CommitId) -> (id: Result<CommitId, Error>)
    ensures
        commit_result_view(id) == checked_out_commit(head@, resolved@),
{
    if resolved.same(&head) {
        Ok(resolved)
    } else {
        Err(Error::RefMismatch)
    }
}

} // verus!
