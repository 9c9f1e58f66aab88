//! Finding the nested repository that holds the commit to propagate. The
//! nested repositories are probed one by one, in the order in which the
//! backend lists them, and the first that holds the commit is taken: which
//! path it sits at plays no part.
use crate::args::{Args, ArgsView};
use crate::error::{Error, ErrorView};
use crate::machine::{
    ask, asking, halt, halted, seen, Pipeline, PipelineView, Stage, StageView, Target, TargetView,
};
use crate::protocol::{Request, RequestView, Response, ResponseView, Step, StepView};
use crate::text::texts;
use vstd::prelude::*;

verus! {

/// After the nested repositories were to be listed: the first one is probed.
/// With none to probe, none holds the commit.
pub open spec fn submodules_listed(args: ArgsView, target: TargetView, answer: ResponseView) -> (
    PipelineView,
    StepView,
) {
    match answer {
        ResponseView::Submodules(paths) => if paths.len() > 0 {
            asking(
                args,
                StageView::Probing { target, paths, cursor: 0 },
                RequestView::ProbeSubmodule { path: paths[0], commit: target.commit },
            )
        } else {
            halted(args, ErrorView::SubmoduleNotFound)
        },
        _ => halted(args, ErrorView::Backend(answer.detail())),
    }
}

/// After the nested repository at `paths[cursor]` was probed. If it holds the
/// commit it is the one to patch, and no other is probed. On any other
/// answer, a failure to open or update it too, it is passed over and the
/// next one is probed; after the last one the commit was found nowhere.
pub open spec fn probed(
    args: ArgsView,
    target: TargetView,
    paths: Seq<Seq<char>>,
    cursor: int,
    answer: ResponseView,
) -> (PipelineView, StepView) {
    if answer is Exists && 0 <= cursor < paths.len() {
        asking(
            args,
            StageView::ResolvingCommit { target, path: paths[cursor] },
            RequestView::ReadCommit { path: paths[cursor], commit: target.commit },
        )
    } else if 0 <= cursor && cursor + 1 < paths.len() {
        asking(
            args,
            StageView::Probing { target, paths, cursor: cursor + 1 },
            RequestView::ProbeSubmodule { path: paths[cursor + 1], commit: target.commit },
        )
    } else {
        halted(args, ErrorView::SubmoduleNotFound)
    }
}

/// Goes on after the nested repositories were to be listed.
pub fn on_submodules_listed(args: Args, target: Target, answer: Response) -> (next: (
    Pipeline,
    Step,
))
    ensures
        seen(next) == submodules_listed(args@, target@, answer@),
{
    match answer {
        Response::Submodules(paths) => {
            if paths.len() > 0 {
                let path = paths[0].clone();
                let commit = target.commit;
                ask(
                    args,
                    Stage::Probing { target, paths, cursor: 0 },
                    Request::ProbeSubmodule { path, commit },
                )
            } else {
                halt(args, Error::SubmoduleNotFound)
            }
        },
        other => {
            let detail = other.detail();
            halt(args, Error::Backend(detail))
        },
    }
}

/// Goes on after one nested repository was probed.
pub fn on_probed(
    args: Args,
    target: Target,
    paths: Vec<String>,
    cursor: usize,
    answer: Response,
) -> (next: (Pipeline, Step))
    ensures
        seen(next) == probed(args@, target@, texts(paths@), cursor as int, answer@),
{
    let holds = match answer {
        Response::Exists => true,
        _ => false,
    };
    if holds && cursor < paths.len() {
        let path = paths[cursor].clone();
        let asked = path.clone();
        let commit = target.commit;
        ask(
            args,
            Stage::ResolvingCommit { target, path },
            Request::ReadCommit { path: asked, commit },
        )
    } else if cursor < paths.len() && cursor + 1 < paths.len() {
        let following: usize = cursor + 1;
        let path = paths[following].clone();
        let commit = target.commit;
        ask(
            args,
            Stage::Probing { target, paths, cursor: following },
            Request::ProbeSubmodule { path, commit },
        )
    } else {
        halt(args, Error::SubmoduleNotFound)
    }
}

} // verus!
