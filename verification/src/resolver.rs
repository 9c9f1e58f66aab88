//! The component side of a run: which branch is propagated, at which commit.
//! Nothing here touches the composite repository.
use crate::args::{Args, ArgsView};
use crate::commit_id::CommitId;
use crate::error::{Error, ErrorView};
use crate::machine::{
    ask, asking, halt, halted, seen, Pipeline, PipelineView, Stage, StageView, Target, TargetView,
};
use crate::protocol::{Repo, Request, RequestView, Response, ResponseView, Step, StepView};
use crate::refs::{
    branch_name, checked_out_commit, get_branch_name_from_ref, git_ref, head_id, names_branch,
    resolved_ref,
};
use crate::text::clone_texts;
use vstd::prelude::*;

verus! {

/// How a run begins. A ref given by the caller that names no branch is
/// refused before anything is asked of the backend.
pub open spec fn begun(args: ArgsView) -> (PipelineView, StepView) {
    if args.git_ref is Some && !names_branch(args.git_ref->0) {
        halted(args, ErrorView::NotABranch)
    } else {
        asking(
            args,
            StageView::OpeningComponent,
            RequestView::OpenComponent { path: args.repository },
        )
    }
}

/// After the component repository was to be opened.
pub open spec fn opened(args: ArgsView, answer: ResponseView) -> (PipelineView, StepView) {
    match answer {
        ResponseView::Done => asking(
            args,
            StageView::ReadingHead,
            RequestView::ReadHead { repository: Repo::Component },
        ),
        _ => halted(args, ErrorView::Backend(answer.detail())),
    }
}

/// After the component's head was to be read: the ref to propagate is
/// resolved, and its commit is asked for. A ref that names no branch stops
/// the run here, before anything is done on the composite repository.
pub open spec fn head_read(args: ArgsView, answer: ResponseView) -> (PipelineView, StepView) {
    match answer {
        ResponseView::Head(head) => match resolved_ref(args.git_ref, head) {
            Ok(name) => if names_branch(name) {
                asking(
                    args,
                    StageView::ResolvingRef { git_ref: name, head: head.commit },
                    RequestView::LookupRef { name },
                )
            } else {
                halted(args, ErrorView::NotABranch)
            },
            Err(e) => halted(args, e),
        },
        _ => halted(args, ErrorView::Backend(answer.detail())),
    }
}

/// After the ref to propagate was to be resolved: it must point at the commit
/// that is checked out. Only then does the composite side begin, with the
/// clone.
pub open spec fn ref_resolved(
    args: ArgsView,
    git_ref: Seq<char>,
    head: Seq<u8>,
    answer: ResponseView,
) -> (PipelineView, StepView) {
    match answer {
        ResponseView::Commit(resolved) => match checked_out_commit(head, resolved) {
            Ok(commit) => match branch_name(git_ref) {
                Ok(branch) => asking(
                    args,
                    StageView::Cloning { target: TargetView { branch, commit } },
                    RequestView::CloneComposite {
                        url: args.composite_repository,
                        headers: args.custom_headers,
                    },
                ),
                Err(e) => halted(args, e),
            },
            Err(e) => halted(args, e),
        },
        _ => halted(args, ErrorView::Backend(answer.detail())),
    }
}

/// Begins a run.
pub fn begin(args: Args) -> (next: (Pipeline, Step))
    ensures
        seen(next) == begun(args@),
{
    let refused = match &args.git_ref {
        Some(given) => match get_branch_name_from_ref(given.as_str()) {
            Ok(_) => false,
            Err(_) => true,
        },
        None => false,
    };
    if refused {
        halt(args, Error::NotABranch)
    } else {
        let path = args.repository.clone();
        ask(args, Stage::OpeningComponent, Request::OpenComponent { path })
    }
}

/// Goes on after the component repository was to be opened.
pub fn on_opened(args: Args, answer: Response) -> (next: (Pipeline, Step))
    ensures
        seen(next) == opened(args@, answer@),
{
    match answer {
        Response::Done => ask(
            args,
            Stage::ReadingHead,
            Request::ReadHead { repository: Repo::Component },
        ),
        other => {
            let detail = other.detail();
            halt(args, Error::Backend(detail))
        },
    }
}

/// Goes on after the component's head was to be read.
pub fn on_head_read(args: Args, answer: Response) -> (next: (Pipeline, Step))
    ensures
        seen(next) == head_read(args@, answer@),
{
    match answer {
        Response::Head(head) => match git_ref(&args, &head) {
            Ok(name) => {
                let is_branch = match get_branch_name_from_ref(name.as_str()) {
                    Ok(_) => true,
                    Err(_) => false,
                };
                if is_branch {
                    let asked = name.clone();
                    ask(
                        args,
                        Stage::ResolvingRef { git_ref: name, head: head.commit },
                        Request::LookupRef { name: asked },
                    )
                } else {
                    halt(args, Error::NotABranch)
                }
            },
            Err(e) => halt(args, e),
        },
        other => {
            let detail = other.detail();
            halt(args, Error::Backend(detail))
        },
    }
}

/// Goes on after the ref to propagate was to be resolved.
pub fn on_ref_resolved(args: Args, git_ref: String, head: CommitId, answer: Response) -> (next: (
    Pipeline,
    Step,
))
    ensures
        seen(next) == ref_resolved(args@, git_ref@, head@, answer@),
{
    match answer {
        Response::Commit(resolved) => match head_id(head, resolved) {
            Ok(commit) => match get_branch_name_from_ref(git_ref.as_str()) {
                Ok(branch) => {
                    let target = Target { branch: branch.to_owned(), commit };
                    let url = args.composite_repository.clone();
                    let headers = clone_texts(&args.custom_headers);
                    ask(
                        args,
                        Stage::Cloning { target },
                        Request::CloneComposite { url, headers },
                    )
                },
                Err(e) => halt(args, e),
            },
            Err(e) => halt(args, e),
        },
        other => {
            let detail = other.detail();
            halt(args, Error::Backend(detail))
        },
    }
}

} // verus!
