//! The conversation between the pipeline and the version-control backend.
//!
//! The pipeline asks for one operation at a time with a [`Request`]; whoever
//! drives it performs the operation and hands back a [`Response`]. All values
//! are plain data, so that a driver only converts to and from its backend.
use crate::commit_id::CommitId;
use crate::error::{Error, ErrorView};
use crate::text::{optional_text, texts};
use vstd::prelude::*;

verus! {

/// Which of the two repositories a request is about.
#[derive(Debug, Clone, Copy, PartialEq, Eq, Structural)]
pub enum Repo {
    /// The repository whose commit is propagated; it is only read.
    Component,
    /// The temporary clone of the aggregating repository.
    Composite,
}

/// What a repository's head currently is.
#[derive(Debug, Clone, PartialEq, Eq)]
pub struct Head {
    /// Full name of the reference behind the head, if it is valid UTF-8.
    pub name: Option<String>,
    /// Whether that reference is a local branch.
    pub is_branch: bool,
    /// The commit that the head resolves to.
    pub commit: CommitId,
}

/// The mathematical value of a [`Head`].
pub struct HeadView {
    pub name: Option<Seq<char>>,
    pub is_branch: bool,
    pub commit: Seq<u8>,
}

impl View for Head {
    type V = HeadView;

    open spec fn view(&self) -> HeadView {
        HeadView { name: optional_text(self.name), is_branch: self.is_branch, commit: self.commit@ }
    }
}

/// Who wrote or committed a commit, and when.
#[derive(Debug, Clone, PartialEq, Eq)]
pub struct Identity {
    pub name: String,
    pub email: String,
    /// Seconds since the epoch.
    pub seconds: i64,
    /// Offset of the time zone, in minutes.
    pub offset_minutes: i32,
}

/// The mathematical value of an [`Identity`].
pub struct IdentityView {
    pub name: Seq<char>,
    pub email: Seq<char>,
    pub seconds: i64,
    pub offset_minutes: i32,
}

impl View for Identity {
    type V = IdentityView;

    open spec fn view(&self) -> IdentityView {
        IdentityView {
            name: self.name@,
            email: self.email@,
            seconds: self.seconds,
            offset_minutes: self.offset_minutes,
        }
    }
}

/// The view of an optional identity.
pub open spec fn optional_identity(identity: Option<Identity>) -> Option<IdentityView> {
    match identity {
        Some(i) => Some(i@),
        None => None,
    }
}

/// What the pipeline reuses of the commit that it propagates. A part is
/// absent when the backend cannot give it as valid UTF-8.
#[derive(Debug, Clone, PartialEq, Eq)]
pub struct CommitMetadata {
    pub message: Option<String>,
    pub author: Option<Identity>,
    pub committer: Option<Identity>,
}

/// The mathematical value of [`CommitMetadata`].
pub struct CommitMetadataView {
    pub message: Option<Seq<char>>,
    pub author: Option<IdentityView>,
    pub committer: Option<IdentityView>,
}

impl View for CommitMetadata {
    type V = CommitMetadataView;

    open spec fn view(&self) -> CommitMetadataView {
        CommitMetadataView {
            message: optional_text(self.message),
            author: optional_identity(self.author),
            committer: optional_identity(self.committer),
        }
    }
}

/// One backend operation that the pipeline asks for.
#[derive(Debug, Clone, PartialEq, Eq)]
pub enum Request {
    /// Open the component repository at a path.
    OpenComponent { path: String },
    /// Read the head of a repository. Answered with [`Response::Head`].
    ReadHead { repository: Repo },
    /// Resolve a reference of the component repository to its commit.
    /// Answered with [`Response::Commit`].
    LookupRef { name: String },
    /// Clone the composite repository, with its nested repositories, into a
    /// fresh temporary directory.
    CloneComposite { url: String, headers: Vec<String> },
    /// Look for a remote-tracking branch of the composite repository.
    /// Answered with [`Response::Commit`], or [`Response::Missing`] when
    /// there is no such branch.
    FindRemoteBranch { name: String },
    /// Create a local branch of the composite repository at a commit, without
    /// moving one that is there already. Answered with [`Response::Exists`]
    /// when it is.
    CreateBranch { name: String, at: CommitId },
    /// Point the composite repository's head at a reference.
    SetHead { ref_name: String },
    /// Materialize the composite repository's working tree from its head.
    CheckoutHead,
    /// List the paths of the nested repositories of the composite repository.
    /// Answered with [`Response::Submodules`].
    ListSubmodules,
    /// Initialize and update one nested repository, open it and look for a
    /// commit in its object store. Answered with [`Response::Exists`] or
    /// [`Response::Missing`].
    ProbeSubmodule { path: String, commit: CommitId },
    /// Read a commit of a nested repository. Answered with
    /// [`Response::Metadata`], or [`Response::Missing`].
    ReadCommit { path: String, commit: CommitId },
    /// Detach the head of a nested repository to a commit and stage the new
    /// pin in the composite repository's index.
    PatchSubmodule { path: String, commit: CommitId },
    /// Write the staged index as a tree and commit it on top of the current
    /// tip of the composite repository's head, as its only parent.
    CreateCommit { message: String, author: Identity, committer: Identity },
    /// Push one refspec to the remote `origin`, without forcing.
    Push { refspec: String, headers: Vec<String> },
}

/// The mathematical value of a [`Request`].
pub enum RequestView {
    OpenComponent { path: Seq<char> },
    ReadHead { repository: Repo },
    LookupRef { name: Seq<char> },
    CloneComposite { url: Seq<char>, headers: Seq<Seq<char>> },
    FindRemoteBranch { name: Seq<char> },
    CreateBranch { name: Seq<char>, at: Seq<u8> },
    SetHead { ref_name: Seq<char> },
    CheckoutHead,
    ListSubmodules,
    ProbeSubmodule { path: Seq<char>, commit: Seq<u8> },
    ReadCommit { path: Seq<char>, commit: Seq<u8> },
    PatchSubmodule { path: Seq<char>, commit: Seq<u8> },
    CreateCommit { message: Seq<char>, author: IdentityView, committer: IdentityView },
    Push { refspec: Seq<char>, headers: Seq<Seq<char>> },
}

impl View for Request {
    type V = RequestView;

    open spec fn view(&self) -> RequestView {
        match self {
            Request::OpenComponent { path } => RequestView::OpenComponent { path: path@ },
            Request::ReadHead { repository } => RequestView::ReadHead { repository: *repository },
            Request::LookupRef { name } => RequestView::LookupRef { name: name@ },
            Request::CloneComposite { url, headers } => RequestView::CloneComposite {
                url: url@,
                headers: texts(headers@),
            },
            Request::FindRemoteBranch { name } => RequestView::FindRemoteBranch { name: name@ },
            Request::CreateBranch { name, at } => RequestView::CreateBranch {
                name: name@,
                at: at@,
            },
            Request::SetHead { ref_name } => RequestView::SetHead { ref_name: ref_name@ },
            Request::CheckoutHead => RequestView::CheckoutHead,
            Request::ListSubmodules => RequestView::ListSubmodules,
            Request::ProbeSubmodule { path, commit } => RequestView::ProbeSubmodule {
                path: path@,
                commit: commit@,
            },
            Request::ReadCommit { path, commit } => RequestView::ReadCommit {
                path: path@,
                commit: commit@,
            },
            Request::PatchSubmodule { path, commit } => RequestView::PatchSubmodule {
                path: path@,
                commit: commit@,
            },
            Request::CreateCommit { message, author, committer } => RequestView::CreateCommit {
                message: message@,
                author: author@,
                committer: committer@,
            },
            Request::Push { refspec, headers } => RequestView::Push {
                refspec: refspec@,
                headers: texts(headers@),
            },
        }
    }
}

impl RequestView {
    /// Whether the operation works on the composite repository. The others
    /// only read the component repository.
    pub open spec fn is_composite_side(self) -> bool {
        match self {
            RequestView::OpenComponent { .. } => false,
            RequestView::ReadHead { repository } => repository == Repo::Composite,
            RequestView::LookupRef { .. } => false,
            _ => true,
        }
    }

    /// Whether the operation may use the network.
    pub open spec fn is_network(self) -> bool {
        self is CloneComposite || self is ProbeSubmodule || self is Push
    }

    /// Whether the operation stages the pin of a nested repository.
    pub open spec fn stages_pin(self) -> bool {
        self is PatchSubmodule
    }

    /// Whether the operation changes the index of the composite repository:
    /// a checkout rewrites it with the working tree, and a patch stages a
    /// pin in it.
    pub open spec fn mutates_index(self) -> bool {
        self is CheckoutHead || self is PatchSubmodule
    }

    /// Whether the operation adds a commit to the composite repository.
    pub open spec fn creates_commit(self) -> bool {
        self is CreateCommit
    }
}

/// What the backend answers to a [`Request`].
#[derive(Debug, Clone, PartialEq, Eq)]
pub enum Response {
    /// The operation was performed and has nothing to report.
    Done,
    /// The operation failed; the text is the backend's own.
    Failed(String),
    /// What was looked for is not there.
    Missing,
    /// What was looked for, or was to be created, is there.
    Exists,
    /// The head that was read.
    Head(Head),
    /// The commit that a reference or a branch resolves to.
    Commit(CommitId),
    /// The paths of the nested repositories, in the backend's order.
    Submodules(Vec<String>),
    /// The reusable parts of the commit that was read.
    Metadata(CommitMetadata),
}

/// The mathematical value of a [`Response`].
pub enum ResponseView {
    Done,
    Failed(Seq<char>),
    Missing,
    Exists,
    Head(HeadView),
    Commit(Seq<u8>),
    Submodules(Seq<Seq<char>>),
    Metadata(CommitMetadataView),
}

impl View for Response {
    type V = ResponseView;

    open spec fn view(&self) -> ResponseView {
        match self {
            Response::Done => ResponseView::Done,
            Response::Failed(m) => ResponseView::Failed(m@),
            Response::Missing => ResponseView::Missing,
            Response::Exists => ResponseView::Exists,
            Response::Head(h) => ResponseView::Head(h@),
            Response::Commit(c) => ResponseView::Commit(c@),
            Response::Submodules(paths) => ResponseView::Submodules(texts(paths@)),
            Response::Metadata(m) => ResponseView::Metadata(m@),
        }
    }
}

/// The text that stands for an answer which the pipeline did not expect.
pub open spec fn unexpected_answer() -> Seq<char> {
    "unexpected answer from the backend"@
}

impl ResponseView {
    /// What an error says of an answer that does not let the pipeline go on:
    /// the backend's own text for a failure, a fixed text for any other.
    pub open spec fn detail(self) -> Seq<char> {
        match self {
            ResponseView::Failed(m) => m,
            _ => unexpected_answer(),
        }
    }
}

impl Response {
    /// What an error says of this answer when it does not let the pipeline go
    /// on.
    pub fn detail(self) -> (text: String)
        ensures
            text@ == self@.detail(),
    {
        match self {
            Response::Failed(m) => m,
            _ => "unexpected answer from the backend".to_owned(),
        }
    }
}

/// What the pipeline does next: ask for an operation, or stop.
#[derive(Debug, PartialEq, Eq)]
pub enum Step {
    /// The operation to perform; its answer goes to the next step.
    Ask(Request),
    /// The run is over, with this result.
    Finish(Result<(), Error>),
}

/// The mathematical value of a [`Step`].
pub enum StepView {
    Ask(RequestView),
    Finish(Result<(), ErrorView>),
}

impl View for Step {
    type V = StepView;

    open spec fn view(&self) -> StepView {
        match self {
            Step::Ask(request) => StepView::Ask(request@),
            Step::Finish(result) => StepView::Finish(crate::error::result_view(*result)),
        }
    }
}

} // verus!
