//! The ways in which a run of the pipeline fails.
use vstd::prelude::*;
use vstd::string::*;

verus! {

/// Why a run of the pipeline stopped. Every kind is fatal.
#[derive(Debug, Clone, PartialEq, Eq)]
pub enum Error {
    /// No ref was given and the component's head is detached, or the ref to
    /// propagate does not name a branch.
    NotABranch,
    /// The ref to propagate does not point at the commit that is checked out.
    RefMismatch,
    /// The composite repository could not be cloned.
    CloneFailed(String),
    /// The branch of the composite clone could not be prepared.
    CompositeCheckoutFailed(String),
    /// No nested sub-repository holds the commit to propagate.
    SubmoduleNotFound,
    /// The located nested repository no longer holds the commit.
    CommitNotFound,
    /// The message or the identities of the propagated commit cannot be reused verbatim.
    InvalidCommitMetadata,
    /// The composite repository's head is detached at push time.
    CompositeNotOnBranch,
    /// The remote rejected the push, or the transport failed.
    PushFailed(String),
    /// A backend operation failed at a point that has no kind of its own.
    Backend(String),
}

/// The mathematical value of an [`Error`].
pub enum ErrorView {
    NotABranch,
    RefMismatch,
    CloneFailed(Seq<char>),
    CompositeCheckoutFailed(Seq<char>),
    SubmoduleNotFound,
    CommitNotFound,
    InvalidCommitMetadata,
    CompositeNotOnBranch,
    PushFailed(Seq<char>),
    Backend(Seq<char>),
}

impl View for Error {
    type V = ErrorView;

    open spec fn view(&self) -> ErrorView {
        match self {
            Error::NotABranch => ErrorView::NotABranch,
            Error::RefMismatch => ErrorView::RefMismatch,
            Error::CloneFailed(m) => ErrorView::CloneFailed(m@),
            Error::CompositeCheckoutFailed(m) => ErrorView::CompositeCheckoutFailed(m@),
            Error::SubmoduleNotFound => ErrorView::SubmoduleNotFound,
            Error::CommitNotFound => ErrorView::CommitNotFound,
            Error::InvalidCommitMetadata => ErrorView::InvalidCommitMetadata,
            Error::CompositeNotOnBranch => ErrorView::CompositeNotOnBranch,
            Error::PushFailed(m) => ErrorView::PushFailed(m@),
            Error::Backend(m) => ErrorView::Backend(m@),
        }
    }
}

impl ErrorView {
    /// The text shown to the user for this failure. What the backend reported
    /// is kept verbatim.
    pub open spec fn text(self) -> Seq<char> {
        match self {
            ErrorView::NotABranch => "No branch name given and HEAD is not a branch"@,
            ErrorView::RefMismatch => "HEAD is not on the given branch"@,
            ErrorView::CloneFailed(m) => "Cloning the composite repository failed: "@ + m,
            ErrorView::CompositeCheckoutFailed(m) => "Preparing the composite branch failed: "@
                + m,
            ErrorView::SubmoduleNotFound => "No submodule found"@,
            ErrorView::CommitNotFound => "The submodule does not hold the commit"@,
            ErrorView::InvalidCommitMetadata => "The commit's message or identities cannot be reused"@,
            ErrorView::CompositeNotOnBranch => "Composite repository is not on a branch"@,
            ErrorView::PushFailed(m) => m,
            ErrorView::Backend(m) => m,
        }
    }
}

impl Error {
    /// A copy of this failure, with every text as it is.
    pub fn duplicate(&self) -> (copy: Error)
        ensures
            copy@ == self@,
    {
        match self {
            Error::NotABranch => Error::NotABranch,
            Error::RefMismatch => Error::RefMismatch,
            Error::CloneFailed(m) => Error::CloneFailed(m.clone()),
            Error::CompositeCheckoutFailed(m) => Error::CompositeCheckoutFailed(m.clone()),
            Error::SubmoduleNotFound => Error::SubmoduleNotFound,
            Error::CommitNotFound => Error::CommitNotFound,
            Error::InvalidCommitMetadata => Error::InvalidCommitMetadata,
            Error::CompositeNotOnBranch => Error::CompositeNotOnBranch,
            Error::PushFailed(m) => Error::PushFailed(m.clone()),
            Error::Backend(m) => Error::Backend(m.clone()),
        }
    }

    /// The text shown to the user for this failure.
    pub fn message(&self) -> (text: String)
        ensures
            text@ == self@.text(),
    {
        match self {
            Error::NotABranch => String::from_str("No branch name given and HEAD is not a branch"),
            Error::RefMismatch => String::from_str("HEAD is not on the given branch"),
            Error::CloneFailed(m) => String::from_str(
                "Cloning the composite repository failed: ",
            ).concat(m.as_str()),
            Error::CompositeCheckoutFailed(m) => String::from_str(
                "Preparing the composite branch failed: ",
            ).concat(m.as_str()),
            Error::SubmoduleNotFound => String::from_str("No submodule found"),
            Error::CommitNotFound => String::from_str("The submodule does not hold the commit"),
            Error::InvalidCommitMetadata => String::from_str(
                "The commit's message or identities cannot be reused",
            ),
            Error::CompositeNotOnBranch => String::from_str(
                "Composite repository is not on a branch",
            ),
            Error::PushFailed(m) => m.clone(),
            Error::Backend(m) => m.clone(),
        }
    }
}

/// The mathematical value of a run's result.
pub open spec fn result_view(result: Result<(), Error>) -> Result<(), ErrorView> {
    match result {
        Ok(_) => Ok(()),
        Err(e) => Err(e@),
    }
}

} // verus!
