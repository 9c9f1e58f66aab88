//! The pipeline as a whole: its steps in their order.
use crate::args::{Args, ArgsView};
use crate::checkout::{
    branch_created, checked_out, cloned, fallback_head_read, head_set, on_branch_created,
    on_checked_out, on_cloned, on_fallback_head_read, on_head_set, on_remote_branch_found,
    remote_branch_found, remote_branch_name,
};
use crate::committer::{committed, on_committed};
use crate::error::{result_view, Error};
use crate::locator::{on_probed, on_submodules_listed, probed, submodules_listed};
use crate::machine::{complete, halt, seen, Pipeline, PipelineView, Stage, StageView};
use crate::patcher::{commit_resolved, on_commit_resolved, on_patched, patched};
use crate::protocol::{Repo, Request, RequestView, Response, ResponseView, Step, StepView};
use crate::pusher::{on_push_head_read, on_pushed, push_head_read, pushed};
use crate::refs::{names_branch, ref_of_branch};
use crate::resolver::{
    begin, begun, head_read, on_head_read, on_opened, on_ref_resolved, opened, ref_resolved,
};
use vstd::prelude::*;

verus! {

impl PipelineView {
    /// What a run does with the answer to the operation that it asked for.
    /// A run that is over stays as it is, whatever it is told.
    pub open spec fn step(self, answer: ResponseView) -> (PipelineView, StepView) {
        match self.stage {
            StageView::OpeningComponent => opened(self.args, answer),
            StageView::ReadingHead => head_read(self.args, answer),
            StageView::ResolvingRef { git_ref, head } => ref_resolved(
                self.args,
                git_ref,
                head,
                answer,
            ),
            StageView::Cloning { target } => cloned(self.args, target, answer),
            StageView::FindingRemoteBranch { target } => remote_branch_found(
                self.args,
                target,
                answer,
            ),
            StageView::ReadingCompositeHead { target } => fallback_head_read(
                self.args,
                target,
                answer,
            ),
            StageView::CreatingBranch { target } => branch_created(self.args, target, answer),
            StageView::SettingHead { target } => head_set(self.args, target, answer),
            StageView::CheckingOut { target } => checked_out(self.args, target, answer),
            StageView::ListingSubmodules { target } => submodules_listed(
                self.args,
                target,
                answer,
            ),
            StageView::Probing { target, paths, cursor } => probed(
                self.args,
                target,
                paths,
                cursor,
                answer,
            ),
            StageView::ResolvingCommit { target, path } => commit_resolved(
                self.args,
                target,
                path,
                answer,
            ),
            StageView::Patching { target, path, metadata } => patched(
                self.args,
                target,
                path,
                metadata,
                answer,
            ),
            StageView::Committing { target } => committed(self.args, target, answer),
            StageView::CheckingHead { target } => push_head_read(self.args, target, answer),
            StageView::Pushing { target } => pushed(self.args, target, answer),
            StageView::Finished(result) => (self, StepView::Finish(result)),
        }
    }
}

impl Pipeline {
    /// Begins a run: the pipeline in its first stage, and the first step.
    pub fn start(args: Args) -> (next: (Pipeline, Step))
        ensures
            seen(next) == begun(args@),
    {
        begin(args)
    }

    /// Takes the answer to the operation that the last step asked for, and
    /// gives the pipeline in its next stage with the next step.
    pub fn step(self, answer: Response) -> (next: (Pipeline, Step))
        ensures
            seen(next) == self@.step(answer@),
    {
        let Pipeline { args, stage } = self;
        match stage {
            Stage::OpeningComponent => on_opened(args, answer),
            Stage::ReadingHead => on_head_read(args, answer),
            Stage::ResolvingRef { git_ref, head } => on_ref_resolved(args, git_ref, head, answer),
            Stage::Cloning { target } => on_cloned(args, target, answer),
            Stage::FindingRemoteBranch { target } => on_remote_branch_found(args, target, answer),
            Stage::ReadingCompositeHead { target } => on_fallback_head_read(args, target, answer),
            Stage::CreatingBranch { target } => on_branch_created(args, target, answer),
            Stage::SettingHead { target } => on_head_set(args, target, answer),
            Stage::CheckingOut { target } => on_checked_out(args, target, answer),
            Stage::ListingSubmodules { target } => on_submodules_listed(args, target, answer),
            Stage::Probing { target, paths, cursor } => on_probed(
                args,
                target,
                paths,
                cursor,
                answer,
            ),
            Stage::ResolvingCommit { target, path } => on_commit_resolved(
                args,
                target,
                path,
                answer,
            ),
            Stage::Patching { target, path, metadata } => on_patched(
                args,
                target,
                path,
                metadata,
                answer,
            ),
            Stage::Committing { target } => on_committed(args, target, answer),
            Stage::CheckingHead { target } => on_push_head_read(args, target, answer),
            Stage::Pushing { target } => on_pushed(args, target, answer),
            Stage::Finished(result) => match result {
                Ok(_) => complete(args),
                Err(e) => halt(args, e),
            },
        }
    }
}

/// The mathematical values of a sequence of answers.
pub open spec fn views(answers: Seq<Response>) -> Seq<ResponseView> {
    Seq::new(answers.len(), |i: int| answers[i]@)
}

/// Where a run stands, and what it does next, after it was given these
/// answers in this order.
pub open spec fn replay(args: ArgsView, answers: Seq<ResponseView>) -> (PipelineView, StepView)
    decreases answers.len(),
{
    if answers.len() == 0 {
        begun(args)
    } else {
        replay(args, answers.drop_last()).0.step(answers.last())
    }
}

/// What a run does after the first `i` of these answers: its step number `i`,
/// counted from zero.
pub open spec fn step_at(args: ArgsView, answers: Seq<ResponseView>, i: int) -> StepView {
    replay(args, answers.take(i)).1
}

/// Where a run stands after the first `i` of these answers.
pub open spec fn stage_at(args: ArgsView, answers: Seq<ResponseView>, i: int) -> StageView {
    replay(args, answers.take(i)).0.stage
}

/// How far a stage is from the end of the run, counted in stages.
pub open spec fn rank(stage: StageView) -> nat {
    match stage {
        StageView::OpeningComponent => 16,
        StageView::ReadingHead => 15,
        StageView::ResolvingRef { .. } => 14,
        StageView::Cloning { .. } => 13,
        StageView::FindingRemoteBranch { .. } => 12,
        StageView::ReadingCompositeHead { .. } => 11,
        StageView::CreatingBranch { .. } => 10,
        StageView::SettingHead { .. } => 9,
        StageView::CheckingOut { .. } => 8,
        StageView::ListingSubmodules { .. } => 7,
        StageView::Probing { .. } => 6,
        StageView::ResolvingCommit { .. } => 5,
        StageView::Patching { .. } => 4,
        StageView::Committing { .. } => 3,
        StageView::CheckingHead { .. } => 2,
        StageView::Pushing { .. } => 1,
        StageView::Finished(_) => 0,
    }
}

/// How many nested repositories a stage has still to probe.
pub open spec fn pending(stage: StageView) -> nat {
    match stage {
        StageView::Probing { paths, cursor, .. } => if 0 <= cursor < paths.len() {
            (paths.len() - cursor) as nat
        } else {
            0
        },
        _ => 0,
    }
}

/// Whether a step is the one that a pipeline in this stage has taken: every
/// stage waits for the answer to one particular request, and a run that is
/// over has given its result.
pub open spec fn coherent(pipeline: PipelineView, step: StepView) -> bool {
    match pipeline.stage {
        StageView::OpeningComponent => step == StepView::Ask(
            RequestView::OpenComponent { path: pipeline.args.repository },
        ),
        StageView::ReadingHead => step == StepView::Ask(
            RequestView::ReadHead { repository: Repo::Component },
        ),
        StageView::ResolvingRef { git_ref, head } => names_branch(git_ref) && step
            == StepView::Ask(RequestView::LookupRef { name: git_ref }),
        StageView::Cloning { target } => step == StepView::Ask(
            RequestView::CloneComposite {
                url: pipeline.args.composite_repository,
                headers: pipeline.args.custom_headers,
            },
        ),
        StageView::FindingRemoteBranch { target } => step == StepView::Ask(
            RequestView::FindRemoteBranch { name: remote_branch_name(target.branch) },
        ),
        StageView::ReadingCompositeHead { target } => step == StepView::Ask(
            RequestView::ReadHead { repository: Repo::Composite },
        ),
        StageView::CreatingBranch { target } => step matches StepView::Ask(
            RequestView::CreateBranch { name, at },
        ) && name == target.branch,
        StageView::SettingHead { target } => step == StepView::Ask(
            RequestView::SetHead { ref_name: ref_of_branch(target.branch) },
        ),
        StageView::CheckingOut { target } => step == StepView::Ask(RequestView::CheckoutHead),
        StageView::ListingSubmodules { target } => step == StepView::Ask(
            RequestView::ListSubmodules,
        ),
        StageView::Probing { target, paths, cursor } => 0 <= cursor < paths.len() && step
            == StepView::Ask(
            RequestView::ProbeSubmodule { path: paths[cursor], commit: target.commit },
        ),
        StageView::ResolvingCommit { target, path } => step == StepView::Ask(
            RequestView::ReadCommit { path, commit: target.commit },
        ),
        StageView::Patching { target, path, metadata } => step == StepView::Ask(
            RequestView::PatchSubmodule { path, commit: target.commit },
        ),
        StageView::Committing { target } => step matches StepView::Ask(request)
            && request is CreateCommit,
        StageView::CheckingHead { target } => step == StepView::Ask(
            RequestView::ReadHead { repository: Repo::Composite },
        ),
        StageView::Pushing { target } => step matches StepView::Ask(
            RequestView::Push { refspec, headers },
        ) && headers == pipeline.args.custom_headers,
        StageView::Finished(result) => step == StepView::Finish(result),
    }
}

/// Every step leaves the pipeline in a stage that waits for the answer to
/// what the step asks, and keeps what the caller told the run.
pub proof fn lemma_step_coherent(pipeline: PipelineView, answer: ResponseView)
    ensures
        coherent(pipeline.step(answer).0, pipeline.step(answer).1),
        pipeline.step(answer).0.args == pipeline.args,
{
}

/// A run begins in a stage that waits for the answer to its first request.
pub proof fn lemma_begun_coherent(args: ArgsView)
    ensures
        coherent(begun(args).0, begun(args).1),
        begun(args).0.args == args,
{
}

/// After any answers a run stands in a stage that waits for the answer to
/// what it asked last, and still knows what its caller told it.
pub proof fn lemma_replay_coherent(args: ArgsView, answers: Seq<ResponseView>)
    ensures
        coherent(replay(args, answers).0, replay(args, answers).1),
        replay(args, answers).0.args == args,
    decreases answers.len(),
{
    if answers.len() == 0 {
        lemma_begun_coherent(args);
    } else {
        lemma_replay_coherent(args, answers.drop_last());
        lemma_step_coherent(replay(args, answers.drop_last()).0, answers.last());
    }
}

/// One more answer takes a run one step further.
pub proof fn lemma_replay_next(args: ArgsView, answers: Seq<ResponseView>, i: int)
    requires
        0 <= i < answers.len(),
    ensures
        replay(args, answers.take(i + 1)) == replay(args, answers.take(i)).0.step(answers[i]),
{
    let longer = answers.take(i + 1);
    assert(longer.drop_last() =~= answers.take(i));
    assert(longer.last() == answers[i]);
}

/// Every step of a run that is not over brings it closer to its end: to a
/// later stage, or to the next nested repository to probe.
pub proof fn lemma_step_progress(pipeline: PipelineView, answer: ResponseView)
    requires
        !(pipeline.stage is Finished),
    ensures
        rank(pipeline.step(answer).0.stage) < rank(pipeline.stage) || (rank(
            pipeline.step(answer).0.stage,
        ) == rank(pipeline.stage) && pending(pipeline.step(answer).0.stage) < pending(
            pipeline.stage,
        )),
{
    lemma_step_coherent(pipeline, answer);
}

/// Whether these requests and answers are a conversation of a run with this
/// backend: each request is what the run asks after the answers before it,
/// and each answer is one that the backend gives to that request.
pub open spec fn conducted<B: Fn(Request) -> Response>(
    backend: B,
    args: ArgsView,
    requests: Seq<Request>,
    answers: Seq<Response>,
) -> bool {
    &&& requests.len() == answers.len()
    &&& forall|i: int|
        #![trigger requests[i]]
        0 <= i < requests.len() ==> step_at(args, views(answers), i) == StepView::Ask(
            requests[i]@,
        ) && call_ensures(backend, (requests[i],), answers[i])
}

/// Runs the pipeline to its end against a backend, which performs each
/// operation that the run asks for and answers it. The result is the one
/// that the run comes to on the backend's answers; the run asks nothing but
/// what its steps say, one operation after the other, and it always ends.
/// The backend may keep state of its own behind a `RefCell`.
pub fn run<B: Fn(Request) -> Response>(args: Args, backend: B) -> (result: Result<(), Error>)
    requires
        forall|request: Request| call_requires(backend, (request,)),
    ensures
        exists|requests: Seq<Request>, answers: Seq<Response>| #[trigger]
            conducted(backend, args@, requests, answers) && replay(args@, views(answers)).1
                == StepView::Finish(result_view(result)),
{
    let ghost told = args@;
    let (first, first_step) = Pipeline::start(args);
    let mut pipeline = first;
    let mut step = first_step;
    let ghost mut requests: Seq<Request> = Seq::empty();
    let ghost mut answers: Seq<Response> = Seq::empty();
    loop
        invariant
            told == args@,
            forall|request: Request| call_requires(backend, (request,)),
            seen((pipeline, step)) == replay(told, views(answers)),
            conducted(backend, told, requests, answers),
        decreases rank(pipeline@.stage), pending(pipeline@.stage),
    {
        match step {
            Step::Finish(result) => {
                return result;
            },
            Step::Ask(request) => {
                let ghost asked = request;
                let ghost before = pipeline@;
                let ghost earlier = answers;
                let answer = backend(request);
                proof {
                    lemma_replay_coherent(told, views(earlier));
                    lemma_step_progress(before, answer@);
                    requests = requests.push(asked);
                    answers = answers.push(answer);
                    assert(views(answers).drop_last() =~= views(earlier));
                    assert(views(answers).last() == answer@);
                    assert forall|i: int| 0 <= i < requests.len() implies step_at(
                        told,
                        views(answers),
                        i,
                    ) == StepView::Ask((#[trigger] requests[i])@) && call_ensures(
                        backend,
                        (requests[i],),
                        answers[i],
                    ) by {
                        if i < earlier.len() {
                            assert(views(answers).take(i) =~= views(earlier).take(i));
                            assert(requests[i] == requests.drop_last()[i]);
                        } else {
                            assert(views(answers).take(i) =~= views(earlier));
                        }
                    }
                }
                let next = pipeline.step(answer);
                pipeline = next.0;
                step = next.1;
            },
        }
    }
}

} // verus!
