//! Publishing the updated branch of the composite repository.
use crate::args::{Args, ArgsView};
use crate::committer::request_result_view;
use crate::error::{Error, ErrorView};
use crate::machine::{
    ask, asking, complete, completed, halt, halted, seen, Pipeline, PipelineView, Stage,
    StageView, Target, TargetView,
};
use crate::protocol::{
    Head, HeadView, Request, RequestView, Response, ResponseView, Step, StepView,
};
use crate::text::{clone_texts, texts};
use vstd::prelude::*;
use vstd::string::*;

verus! {

/// The refspec that pushes the ref with the given full name to the ref of
/// the same name. Nothing stands before the name: the push does not force.
pub open spec fn push_refspec(name: Seq<char>) -> Seq<char> {
    name + ":"@ + name
}

/// The request for the push: the branch that the head is on goes to the
/// branch of the same name. A head that is on no branch, or whose branch has
/// no readable name, is refused, and nothing is pushed.
pub open spec fn push_request(head: HeadView, headers: Seq<Seq<char>>) -> Result<
    RequestView,
    ErrorView,
> {
    if head.is_branch && head.name is Some {
        Ok(RequestView::Push { refspec: push_refspec(head.name->0), headers })
    } else {
        Err(ErrorView::CompositeNotOnBranch)
    }
}

/// After the composite repository's head was read before the push.
pub open spec fn push_head_read(args: ArgsView, target: TargetView, answer: ResponseView) -> (
    PipelineView,
    StepView,
) {
    match answer {
        ResponseView::Head(head) => match push_request(head, args.custom_headers) {
            Ok(request) => asking(args, StageView::Pushing { target }, request),
            Err(e) => halted(args, e),
        },
        _ => halted(args, ErrorView::PushFailed(answer.detail())),
    }
}

/// After the push: the run is over. What the remote or the transport
/// reported is kept as it is.
pub open spec fn pushed(args: ArgsView, target: TargetView, answer: ResponseView) -> (
    PipelineView,
    StepView,
) {
    match answer {
        ResponseView::Done => completed(args),
        _ => halted(args, ErrorView::PushFailed(answer.detail())),
    }
}

/// Builds the request that pushes the branch that the head is on, with the
/// caller's transport headers.
pub fn push(head: &Head, headers: &Vec<String>) -> (request: Result<Request, Error>)
    ensures
        request_result_view(request) == push_request(head@, texts(headers@)),
{
    if !head.is_branch {
        return Err(Error::CompositeNotOnBranch);
    }
    match &head.name {
        Some(name) => {
            let mut refspec = name.clone();
            refspec.append(":");
            refspec.append(name.as_str());
            Ok(Request::Push { refspec, headers: clone_texts(headers) })
        },
        None => Err(Error::CompositeNotOnBranch),
    }
}

/// Goes on after the composite repository's head was read before the push.
pub fn on_push_head_read(args: Args, target: Target, answer: Response) -> (next: (Pipeline, Step))
    ensures
        seen(next) == push_head_read(args@, target@, answer@),
{
    match answer {
        Response::Head(head) => match push(&head, &args.custom_headers) {
            Ok(request) => ask(args, Stage::Pushing { target }, request),
            Err(e) => halt(args, e),
        },
        other => {
            let detail = other.detail();
            halt(args, Error::PushFailed(detail))
        },
    }
}

/// Goes on after the push.
pub fn on_pushed(args: Args, target: Target, answer: Response) -> (next: (Pipeline, Step))
    ensures
        seen(next) == pushed(args@, target@, answer@),
{
    match answer {
        Response::Done => complete(args),
        other => {
            let detail = other.detail();
            halt(args, Error::PushFailed(detail))
        },
    }
}

} // verus!
