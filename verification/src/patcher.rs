//! Repointing the located nested repository to the commit to propagate.
use crate::args::{Args, ArgsView};
use crate::committer::{commit, commit_request};
use crate::error::{Error, ErrorView};
use crate::machine::{
    ask, asking, halt, halted, seen, Pipeline, PipelineView, Stage, StageView, Target, TargetView,
};
use crate::protocol::{
    CommitMetadata, CommitMetadataView, Request, RequestView, Response, ResponseView, Step,
    StepView,
};
use vstd::prelude::*;

verus! {

/// After the commit was to be read in the located nested repository. That
/// the probe found it there does not settle it: the object store may have
/// changed since. With the commit at hand the nested repository is repointed.
pub open spec fn commit_resolved(
    args: ArgsView,
    target: TargetView,
    path: Seq<char>,
    answer: ResponseView,
) -> (PipelineView, StepView) {
    match answer {
        ResponseView::Metadata(metadata) => asking(
            args,
            StageView::Patching { target, path, metadata },
            RequestView::PatchSubmodule { path, commit: target.commit },
        ),
        ResponseView::Missing => halted(args, ErrorView::CommitNotFound),
        _ => halted(args, ErrorView::Backend(answer.detail())),
    }
}

/// After the nested repository was to be repointed and its pin staged: the
/// commit that records it is asked for.
pub open spec fn patched(
    args: ArgsView,
    target: TargetView,
    path: Seq<char>,
    metadata: CommitMetadataView,
    answer: ResponseView,
) -> (PipelineView, StepView) {
    match answer {
        ResponseView::Done => match commit_request(path, target.commit, metadata) {
            Ok(request) => asking(args, StageView::Committing { target }, request),
            Err(e) => halted(args, e),
        },
        ResponseView::Missing => halted(args, ErrorView::CommitNotFound),
        _ => halted(args, ErrorView::Backend(answer.detail())),
    }
}

/// Goes on after the commit was to be read in the located nested repository.
pub fn on_commit_resolved(args: Args, target: Target, path: String, answer: Response) -> (next: (
    Pipeline,
    Step,
))
    ensures
        seen(next) == commit_resolved(args@, target@, path@, answer@),
{
    match answer {
        Response::Metadata(metadata) => {
            let asked = path.clone();
            let commit = target.commit;
            ask(
                args,
                Stage::Patching { target, path, metadata },
                Request::PatchSubmodule { path: asked, commit },
            )
        },
        Response::Missing => halt(args, Error::CommitNotFound),
        other => {
            let detail = other.detail();
            halt(args, Error::Backend(detail))
        },
    }
}

/// Goes on after the nested repository was to be repointed.
pub fn on_patched(
    args: Args,
    target: Target,
    path: String,
    metadata: CommitMetadata,
    answer: Response,
) -> (next: (Pipeline, Step))
    ensures
        seen(next) == patched(args@, target@, path@, metadata@, answer@),
{
    match answer {
        Response::Done => match commit(path.as_str(), &target.commit, metadata) {
            Ok(request) => ask(args, Stage::Committing { target }, request),
            Err(e) => halt(args, e),
        },
        Response::Missing => halt(args, Error::CommitNotFound),
        other => {
            let detail = other.detail();
            halt(args, Error::Backend(detail))
        },
    }
}

} // verus!
