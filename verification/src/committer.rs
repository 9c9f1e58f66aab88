//! The commit that records the new pin in the composite repository. A run
//! that gets this far always asks for the commit, also when the nested
//! repository was pinned to that commit before: it does not look for an
//! empty change.
use crate::args::{Args, ArgsView};
use crate::commit_id::{hex_text, CommitId};
use crate::error::{Error, ErrorView};
use crate::machine::{
    ask, asking, halt, halted, seen, Pipeline, PipelineView, Stage, StageView, Target, TargetView,
};
use crate::protocol::{
    CommitMetadata, CommitMetadataView, Repo, Request, RequestView, Response, ResponseView, Step,
    StepView,
};
use vstd::prelude::*;
use vstd::string::*;

verus! {

/// The first line of the new commit's message: which nested repository was
/// repointed, and to which commit.
pub open spec fn commit_headline(path: Seq<char>, commit: Seq<u8>) -> Seq<char> {
    "Update submodule "@ + path + " to "@ + hex_text(commit)
}

/// The new commit's message: the headline, a separator line, and the message
/// of the propagated commit as it is.
pub open spec fn commit_message(path: Seq<char>, commit: Seq<u8>, propagated: Seq<char>) -> Seq<
    char,
> {
    commit_headline(path, commit) + "\n---\n"@ + propagated
}

/// The request for the new commit. It reuses the message and both identities
/// of the propagated commit; when one of them cannot be had there is no
/// request, and nothing is put in its place.
pub open spec fn commit_request(path: Seq<char>, commit: Seq<u8>, metadata: CommitMetadataView)
    -> Result<RequestView, ErrorView> {
    if metadata.message is Some && metadata.author is Some && metadata.committer is Some {
        Ok(
            RequestView::CreateCommit {
                message: commit_message(path, commit, metadata.message->0),
                author: metadata.author->0,
                committer: metadata.committer->0,
            },
        )
    } else {
        Err(ErrorView::InvalidCommitMetadata)
    }
}

/// The view of a request that may have been refused.
pub open spec fn request_result_view(result: Result<Request, Error>) -> Result<
    RequestView,
    ErrorView,
> {
    match result {
        Ok(request) => Ok(request@),
        Err(e) => Err(e@),
    }
}

/// After the new commit was to be created: the head is read once more,
/// before anything is pushed.
pub open spec fn committed(args: ArgsView, target: TargetView, answer: ResponseView) -> (
    PipelineView,
    StepView,
) {
    match answer {
        ResponseView::Done => asking(
            args,
            StageView::CheckingHead { target },
            RequestView::ReadHead { repository: Repo::Composite },
        ),
        _ => halted(args, ErrorView::Backend(answer.detail())),
    }
}

/// Builds the request for the commit that records the new pin of the nested
/// repository at `path`.
pub fn commit(path: &str, id: &CommitId, metadata: CommitMetadata) -> (request: Result<
    Request,
    Error,
>)
    ensures
        request_result_view(request) == commit_request(path@, id@, metadata@),
{
    let CommitMetadata { message, author, committer } = metadata;
    match (message, author, committer) {
        (Some(propagated), Some(author), Some(committer)) => {
            let hex = id.hex();
            let mut text = String::from_str("Update submodule ");
            text.append(path);
            text.append(" to ");
            text.append(hex.as_str());
            text.append("\n---\n");
            text.append(propagated.as_str());
            Ok(Request::CreateCommit { message: text, author, committer })
        },
        _ => Err(Error::InvalidCommitMetadata),
    }
}

/// Goes on after the new commit was to be created.
pub fn on_committed(args: Args, target: Target, answer: Response) -> (next: (Pipeline, Step))
    ensures
        seen(next) == committed(args@, target@, answer@),
{
    match answer {
        Response::Done => ask(
            args,
            Stage::CheckingHead { target },
            Request::ReadHead { repository: Repo::Composite },
        ),
        other => {
            let detail = other.detail();
            halt(args, Error::Backend(detail))
        },
    }
}

} // verus!
