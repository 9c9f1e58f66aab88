//! Preparing the composite clone: a local branch named like the propagated
//! one becomes its head and its working tree.
use crate::args::{Args, ArgsView};
use crate::error::{Error, ErrorView};
use crate::machine::{
    ask, asking, halt, halted, seen, Pipeline, PipelineView, Stage, StageView, Target, TargetView,
};
use crate::protocol::{Repo, Request, RequestView, Response, ResponseView, Step, StepView};
use crate::refs::ref_of_branch;
use vstd::prelude::*;
use vstd::string::*;

verus! {

/// The name of the remote-tracking branch that mirrors a branch of `origin`.
pub open spec fn remote_branch_name(branch: Seq<char>) -> Seq<char> {
    "origin/"@ + branch
}

/// After the composite repository was to be cloned: the basis of the local
/// branch is looked for, first as the remote-tracking branch.
pub open spec fn cloned(args: ArgsView, target: TargetView, answer: ResponseView) -> (
    PipelineView,
    StepView,
) {
    match answer {
        ResponseView::Done => asking(
            args,
            StageView::FindingRemoteBranch { target },
            RequestView::FindRemoteBranch { name: remote_branch_name(target.branch) },
        ),
        _ => halted(args, ErrorView::CloneFailed(answer.detail())),
    }
}

/// After the remote-tracking branch was looked for: its tip is the basis;
/// without such a branch the clone's head is read as the fallback.
pub open spec fn remote_branch_found(args: ArgsView, target: TargetView, answer: ResponseView) -> (
    PipelineView,
    StepView,
) {
    match answer {
        ResponseView::Commit(tip) => asking(
            args,
            StageView::CreatingBranch { target },
            RequestView::CreateBranch { name: target.branch, at: tip },
        ),
        ResponseView::Missing => asking(
            args,
            StageView::ReadingCompositeHead { target },
            RequestView::ReadHead { repository: Repo::Composite },
        ),
        _ => halted(args, ErrorView::CompositeCheckoutFailed(answer.detail())),
    }
}

/// After the clone's head was read as the fallback basis.
pub open spec fn fallback_head_read(args: ArgsView, target: TargetView, answer: ResponseView) -> (
    PipelineView,
    StepView,
) {
    match answer {
        ResponseView::Head(head) => asking(
            args,
            StageView::CreatingBranch { target },
            RequestView::CreateBranch { name: target.branch, at: head.commit },
        ),
        _ => halted(args, ErrorView::CompositeCheckoutFailed(answer.detail())),
    }
}

/// After the local branch was to be created. A branch that is there already
/// is used as it is: the run goes on exactly as after a creation.
pub open spec fn branch_created(args: ArgsView, target: TargetView, answer: ResponseView) -> (
    PipelineView,
    StepView,
) {
    match answer {
        ResponseView::Done | ResponseView::Exists => asking(
            args,
            StageView::SettingHead { target },
            RequestView::SetHead { ref_name: ref_of_branch(target.branch) },
        ),
        _ => halted(args, ErrorView::CompositeCheckoutFailed(answer.detail())),
    }
}

/// After the head was to be set to the local branch.
pub open spec fn head_set(args: ArgsView, target: TargetView, answer: ResponseView) -> (
    PipelineView,
    StepView,
) {
    match answer {
        ResponseView::Done => asking(
            args,
            StageView::CheckingOut { target },
            RequestView::CheckoutHead,
        ),
        _ => halted(args, ErrorView::CompositeCheckoutFailed(answer.detail())),
    }
}

/// After the working tree was to be checked out: the nested repositories are
/// listed next.
pub open spec fn checked_out(args: ArgsView, target: TargetView, answer: ResponseView) -> (
    PipelineView,
    StepView,
) {
    match answer {
        ResponseView::Done => asking(
            args,
            StageView::ListingSubmodules { target },
            RequestView::ListSubmodules,
        ),
        _ => halted(args, ErrorView::CompositeCheckoutFailed(answer.detail())),
    }
}

/// Goes on after the composite repository was to be cloned.
pub fn on_cloned(args: Args, target: Target, answer: Response) -> (next: (Pipeline, Step))
    ensures
        seen(next) == cloned(args@, target@, answer@),
{
    match answer {
        Response::Done => {
            let name = String::from_str("origin/").concat(target.branch.as_str());
            ask(args, Stage::FindingRemoteBranch { target }, Request::FindRemoteBranch { name })
        },
        other => {
            let detail = other.detail();
            halt(args, Error::CloneFailed(detail))
        },
    }
}

/// Goes on after the remote-tracking branch was looked for.
pub fn on_remote_branch_found(args: Args, target: Target, answer: Response) -> (next: (
    Pipeline,
    Step,
))
    ensures
        seen(next) == remote_branch_found(args@, target@, answer@),
{
    match answer {
        Response::Commit(tip) => {
            let name = target.branch.clone();
            ask(args, Stage::CreatingBranch { target }, Request::CreateBranch { name, at: tip })
        },
        Response::Missing => ask(
            args,
            Stage::ReadingCompositeHead { target },
            Request::ReadHead { repository: Repo::Composite },
        ),
        other => {
            let detail = other.detail();
            halt(args, Error::CompositeCheckoutFailed(detail))
        },
    }
}

/// Goes on after the clone's head was read as the fallback basis.
pub fn on_fallback_head_read(args: Args, target: Target, answer: Response) -> (next: (
    Pipeline,
    Step,
))
    ensures
        seen(next) == fallback_head_read(args@, target@, answer@),
{
    match answer {
        Response::Head(head) => {
            let name = target.branch.clone();
            ask(
                args,
                Stage::CreatingBranch { target },
                Request::CreateBranch { name, at: head.commit },
            )
        },
        other => {
            let detail = other.detail();
            halt(args, Error::CompositeCheckoutFailed(detail))
        },
    }
}

/// Goes on after the local branch was to be created.
pub fn on_branch_created(args: Args, target: Target, answer: Response) -> (next: (Pipeline, Step))
    ensures
        seen(next) == branch_created(args@, target@, answer@),
{
    match answer {
        Response::Done | Response::Exists => {
            let ref_name = String::from_str("refs/heads/").concat(target.branch.as_str());
            ask(args, Stage::SettingHead { target }, Request::SetHead { ref_name })
        },
        other => {
            let detail = other.detail();
            halt(args, Error::CompositeCheckoutFailed(detail))
        },
    }
}

/// Goes on after the head was to be set to the local branch.
pub fn on_head_set(args: Args, target: Target, answer: Response) -> (next: (Pipeline, Step))
    ensures
        seen(next) == head_set(args@, target@, answer@),
{
    match answer {
        Response::Done => ask(args, Stage::CheckingOut { target }, Request::CheckoutHead),
        other => {
            let detail = other.detail();
            halt(args, Error::CompositeCheckoutFailed(detail))
        },
    }
}

/// Goes on after the working tree was to be checked out.
pub fn on_checked_out(args: Args, target: Target, answer: Response) -> (next: (Pipeline, Step))
    ensures
        seen(next) == checked_out(args@, target@, answer@),
{
    match answer {
        Response::Done => ask(args, Stage::ListingSubmodules { target }, Request::ListSubmodules),
        other => {
            let detail = other.detail();
            halt(args, Error::CompositeCheckoutFailed(detail))
        },
    }
}

} // verus!
