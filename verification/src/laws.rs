//! What holds of every run of the pipeline, whatever the backend answers.
//!
//! A run is told by its arguments and by the answers that it was given, in
//! their order; `step_at` is what it asks, or how it ends, after the first
//! `i` of them.
use crate::args::ArgsView;
use crate::committer::{commit_headline, commit_message};
use crate::error::ErrorView;
use crate::machine::{PipelineView, StageView, TargetView};
use crate::pipeline::{
    lemma_replay_coherent, lemma_replay_next, lemma_step_progress, rank, replay, stage_at,
    step_at,
};
use crate::protocol::{
    CommitMetadataView, Repo, RequestView, ResponseView, StepView,
};
use crate::pusher::push_refspec;
use crate::refs::{branch_of, ref_of_branch, resolved_ref};
use crate::resolver::begun;
use vstd::prelude::*;

verus! {

/// Whether a step asks for work on the composite repository.
pub open spec fn asks_composite_side(step: StepView) -> bool {
    match step {
        StepView::Ask(request) => request.is_composite_side(),
        StepView::Finish(_) => false,
    }
}

/// Whether a step asks for an operation that may use the network.
pub open spec fn asks_network(step: StepView) -> bool {
    match step {
        StepView::Ask(request) => request.is_network(),
        StepView::Finish(_) => false,
    }
}

/// Whether a step asks to stage the pin of a nested repository, to commit,
/// or to push.
pub open spec fn asks_write(step: StepView) -> bool {
    match step {
        StepView::Ask(request) => request.stages_pin() || request.creates_commit()
            || request is Push,
        StepView::Finish(_) => false,
    }
}

/// Whether a step asks for an operation that changes the index of the
/// composite repository.
pub open spec fn asks_index_change(step: StepView) -> bool {
    match step {
        StepView::Ask(request) => request.mutates_index(),
        StepView::Finish(_) => false,
    }
}

/// Whether a step asks for the push.
pub open spec fn asks_push(step: StepView) -> bool {
    match step {
        StepView::Ask(request) => request is Push,
        StepView::Finish(_) => false,
    }
}

/// What a stage propagates, once that is resolved.
pub open spec fn target_of(stage: StageView) -> Option<TargetView> {
    match stage {
        StageView::Cloning { target } => Some(target),
        StageView::FindingRemoteBranch { target } => Some(target),
        StageView::ReadingCompositeHead { target } => Some(target),
        StageView::CreatingBranch { target } => Some(target),
        StageView::SettingHead { target } => Some(target),
        StageView::CheckingOut { target } => Some(target),
        StageView::ListingSubmodules { target } => Some(target),
        StageView::Probing { target, .. } => Some(target),
        StageView::ResolvingCommit { target, .. } => Some(target),
        StageView::Patching { target, .. } => Some(target),
        StageView::Committing { target } => Some(target),
        StageView::CheckingHead { target } => Some(target),
        StageView::Pushing { target } => Some(target),
        _ => None,
    }
}

proof fn lemma_shorter_prefix(answers: Seq<ResponseView>, i: int)
    requires
        0 <= i < answers.len(),
    ensures
        answers.drop_last().take(i) == answers.take(i),
{
    assert(answers.drop_last().take(i) =~= answers.take(i));
}

proof fn lemma_whole_prefix(answers: Seq<ResponseView>)
    ensures
        answers.take(answers.len() as int) == answers,
{
    assert(answers.take(answers.len() as int) =~= answers);
}

/// A run that is over stays over, with the same result, whatever it is told
/// afterwards.
pub proof fn law_finished_run_stays_finished(
    args: ArgsView,
    answers: Seq<ResponseView>,
    i: int,
    j: int,
)
    requires
        0 <= i <= j <= answers.len(),
        stage_at(args, answers, i) is Finished,
    ensures
        replay(args, answers.take(j)) == replay(args, answers.take(i)),
    decreases j - i,
{
    if j > i {
        law_finished_run_stays_finished(args, answers, i, j - 1);
        lemma_replay_next(args, answers, j - 1);
        lemma_replay_coherent(args, answers.take(i));
    }
}

spec fn early(stage: StageView) -> bool {
    ||| stage is OpeningComponent
    ||| stage is ReadingHead
    ||| stage is ResolvingRef
    ||| stage == StageView::Finished(Err(ErrorView::NotABranch))
    ||| stage == StageView::Finished(Err(ErrorView::RefMismatch))
}

/// The one induction behind the laws that say what a run never asks for.
/// `kept` holds of the stages in which nothing of the kind was asked yet:
/// a step that ends in such a stage began in one and does not ask for it.
proof fn lemma_never_asked(
    args: ArgsView,
    answers: Seq<ResponseView>,
    kept: spec_fn(StageView) -> bool,
    avoided: spec_fn(StepView) -> bool,
)
    requires
        kept(replay(args, answers).0.stage),
        kept(begun(args).0.stage) ==> !avoided(begun(args).1),
        forall|pipeline: PipelineView, answer: ResponseView|
            kept((#[trigger] pipeline.step(answer)).0.stage) ==> kept(pipeline.stage) && !avoided(
                pipeline.step(answer).1,
            ),
    ensures
        forall|i: int| 0 <= i <= answers.len() ==> !avoided(#[trigger] step_at(args, answers, i)),
    decreases answers.len(),
{
    lemma_whole_prefix(answers);
    if answers.len() > 0 {
        let shorter = answers.drop_last();
        let before = replay(args, shorter).0;
        assert(replay(args, answers) == before.step(answers.last()));
        lemma_never_asked(args, shorter, kept, avoided);
        assert forall|i: int| 0 <= i <= answers.len() implies !avoided(
            #[trigger] step_at(args, answers, i),
        ) by {
            if i < answers.len() {
                lemma_shorter_prefix(answers, i);
                assert(step_at(args, shorter, i) == step_at(args, answers, i));
            }
        }
    }
}

/// A run that fails because the ref to propagate is no branch, or does not
/// point at the commit that is checked out, has asked for nothing on the
/// composite repository, and so for nothing that uses the network.
pub proof fn law_component_failure_leaves_composite_untouched(
    args: ArgsView,
    answers: Seq<ResponseView>,
)
    requires
        replay(args, answers).1 == StepView::Finish(Err(ErrorView::NotABranch)) || replay(
            args,
            answers,
        ).1 == StepView::Finish(Err(ErrorView::RefMismatch)),
    ensures
        forall|i: int|
            0 <= i <= answers.len() ==> !asks_composite_side(#[trigger] step_at(args, answers, i)),
        forall|i: int|
            0 <= i <= answers.len() ==> !asks_network(#[trigger] step_at(args, answers, i)),
{
    lemma_replay_coherent(args, answers);
    lemma_never_asked(
        args,
        answers,
        |stage: StageView| early(stage),
        |step: StepView| asks_composite_side(step),
    );
    assert forall|i: int| 0 <= i <= answers.len() implies !asks_network(
        #[trigger] step_at(args, answers, i),
    ) by {
        assert(!asks_composite_side(step_at(args, answers, i)));
    }
}

/// When no ref is given and the component's head turns out to be detached,
/// the run fails with `NotABranch`, and from its first step to its last it
/// asks for nothing that uses the network.
pub proof fn law_detached_head_fails_without_network(
    args: ArgsView,
    answers: Seq<ResponseView>,
    k: int,
)
    requires
        args.git_ref is None,
        0 <= k < answers.len(),
        stage_at(args, answers, k) is ReadingHead,
        answers[k] is Head,
        !answers[k]->Head_0.is_branch,
    ensures
        replay(args, answers).1 == StepView::Finish(Err(ErrorView::NotABranch)),
        forall|i: int|
            0 <= i <= answers.len() ==> !asks_network(#[trigger] step_at(args, answers, i)),
        forall|i: int|
            0 <= i <= answers.len() ==> !asks_composite_side(#[trigger] step_at(args, answers, i)),
{
    lemma_replay_next(args, answers, k);
    lemma_replay_coherent(args, answers.take(k));
    assert(replay(args, answers.take(k + 1)).1 == StepView::Finish(Err(ErrorView::NotABranch)));
    lemma_replay_coherent(args, answers.take(k + 1));
    law_finished_run_stays_finished(args, answers, k + 1, answers.len() as int);
    lemma_whole_prefix(answers);
    law_component_failure_leaves_composite_untouched(args, answers);
}

spec fn unlocated(stage: StageView) -> bool {
    ||| stage is OpeningComponent
    ||| stage is ReadingHead
    ||| stage is ResolvingRef
    ||| stage is Cloning
    ||| stage is FindingRemoteBranch
    ||| stage is ReadingCompositeHead
    ||| stage is CreatingBranch
    ||| stage is SettingHead
    ||| stage is CheckingOut
    ||| stage is ListingSubmodules
    ||| stage is Probing
    ||| stage == StageView::Finished(Err(ErrorView::SubmoduleNotFound))
}

/// A run that fails with `SubmoduleNotFound` has staged no pin, made no
/// commit and pushed nothing.
pub proof fn law_unfound_commit_changes_nothing(args: ArgsView, answers: Seq<ResponseView>)
    requires
        replay(args, answers).1 == StepView::Finish(Err(ErrorView::SubmoduleNotFound)),
    ensures
        forall|i: int| 0 <= i <= answers.len() ==> !asks_write(#[trigger] step_at(args, answers, i)),
{
    lemma_replay_coherent(args, answers);
    lemma_never_asked(
        args,
        answers,
        |stage: StageView| unlocated(stage),
        |step: StepView| asks_write(step),
    );
}

/// A run never goes back to an earlier stage.
pub proof fn law_stages_only_advance(args: ArgsView, answers: Seq<ResponseView>, i: int, j: int)
    requires
        0 <= i <= j <= answers.len(),
    ensures
        rank(stage_at(args, answers, j)) <= rank(stage_at(args, answers, i)),
    decreases j - i,
{
    if j > i {
        law_stages_only_advance(args, answers, i, j - 1);
        lemma_replay_next(args, answers, j - 1);
        let before = replay(args, answers.take(j - 1)).0;
        if !(before.stage is Finished) {
            lemma_step_progress(before, answers[j - 1]);
        }
    }
}

/// From the listing of the nested repositories on, a run that fails with
/// `SubmoduleNotFound` has asked for nothing that changes the index of the
/// composite repository: the checkout lies before the listing, and no pin
/// was staged.
pub proof fn law_unfound_commit_leaves_index_untouched(
    args: ArgsView,
    answers: Seq<ResponseView>,
    k: int,
)
    requires
        0 <= k <= answers.len(),
        stage_at(args, answers, k) is ListingSubmodules,
        replay(args, answers).1 == StepView::Finish(Err(ErrorView::SubmoduleNotFound)),
    ensures
        forall|i: int|
            k <= i <= answers.len() ==> !asks_index_change(#[trigger] step_at(args, answers, i)),
{
    law_unfound_commit_changes_nothing(args, answers);
    assert forall|i: int| k <= i <= answers.len() implies !asks_index_change(
        #[trigger] step_at(args, answers, i),
    ) by {
        law_stages_only_advance(args, answers, k, i);
        lemma_replay_coherent(args, answers.take(i));
        assert(!asks_write(step_at(args, answers, i)));
    }
}

/// Whether answer `k` lists the nested repositories and the `j` answers
/// after it do not find the commit: the first `j` of the listed repositories
/// were probed in vain.
pub open spec fn passes_over(args: ArgsView, answers: Seq<ResponseView>, k: int, j: int) -> bool {
    &&& 0 <= k < answers.len()
    &&& stage_at(args, answers, k) is ListingSubmodules
    &&& answers[k] is Submodules
    &&& 0 <= j <= answers[k]->Submodules_0.len()
    &&& k + 1 + j <= answers.len()
    &&& forall|m: int| 0 <= m < j ==> !(#[trigger] answers[k + 1 + m] is Exists)
}

/// Whether, from answer `k` on, the backend lists the nested repositories
/// and then finds the commit in none of them.
pub open spec fn scan_finds_nothing(args: ArgsView, answers: Seq<ResponseView>, k: int) -> bool {
    answers[k] is Submodules && passes_over(
        args,
        answers,
        k,
        answers[k]->Submodules_0.len() as int,
    )
}

proof fn lemma_scan_goes_on(args: ArgsView, answers: Seq<ResponseView>, k: int, j: int)
    requires
        passes_over(args, answers, k, j),
        j < answers[k]->Submodules_0.len(),
    ensures
        stage_at(args, answers, k + 1 + j) == (StageView::Probing {
            target: stage_at(args, answers, k)->ListingSubmodules_target,
            paths: answers[k]->Submodules_0,
            cursor: j,
        }),
        step_at(args, answers, k + 1 + j) == StepView::Ask(
            RequestView::ProbeSubmodule {
                path: answers[k]->Submodules_0[j],
                commit: stage_at(args, answers, k)->ListingSubmodules_target.commit,
            },
        ),
    decreases j,
{
    if j == 0 {
        lemma_replay_next(args, answers, k);
    } else {
        assert(passes_over(args, answers, k, j - 1));
        lemma_scan_goes_on(args, answers, k, j - 1);
        lemma_replay_next(args, answers, k + j);
        assert(!(answers[k + 1 + (j - 1)] is Exists));
    }
}

/// The first nested repository that holds the commit is the one that is
/// repointed, whatever the later ones hold: when the probes before number
/// `j` find nothing and that one finds the commit, the run reads the commit
/// there, repoints that repository to it and, once the backend has done
/// both, asks for the commit that records the pin. Its message begins with
/// `Update submodule`, the path of that repository, ` to ` and the commit in
/// hexadecimal.
pub proof fn law_first_holder_is_patched_and_committed(
    args: ArgsView,
    answers: Seq<ResponseView>,
    k: int,
    j: int,
)
    requires
        passes_over(args, answers, k, j),
        j < answers[k]->Submodules_0.len(),
        k + 4 + j <= answers.len(),
        answers[k + 1 + j] is Exists,
        answers[k + 2 + j] is Metadata,
        answers[k + 2 + j]->Metadata_0.message is Some,
        answers[k + 2 + j]->Metadata_0.author is Some,
        answers[k + 2 + j]->Metadata_0.committer is Some,
        answers[k + 3 + j] is Done,
    ensures
        stage_at(args, answers, k) is ListingSubmodules,
        pin_recorded(
            args,
            answers,
            k + 4 + j,
            answers[k]->Submodules_0[j],
            stage_at(args, answers, k)->ListingSubmodules_target.commit,
            answers[k + 2 + j]->Metadata_0,
        ),
        commit_headline(
            answers[k]->Submodules_0[j],
            stage_at(args, answers, k)->ListingSubmodules_target.commit,
        ).is_prefix_of(step_at(args, answers, k + 4 + j)->Ask_0->CreateCommit_message),
{
    lemma_scan_goes_on(args, answers, k, j);
    lemma_replay_next(args, answers, k + 1 + j);
    lemma_replay_next(args, answers, k + 2 + j);
    lemma_replay_next(args, answers, k + 3 + j);
}

/// When no nested repository holds the commit, the run probes every one of
/// them, in the order in which they were listed, and then fails with
/// `SubmoduleNotFound`; it has staged no pin, made no commit and pushed
/// nothing, and from the listing on it has not touched the index.
pub proof fn law_unfound_commit_fails_after_full_scan(
    args: ArgsView,
    answers: Seq<ResponseView>,
    k: int,
)
    requires
        scan_finds_nothing(args, answers, k),
    ensures
        forall|j: int|
            0 <= j < answers[k]->Submodules_0.len() ==> #[trigger] step_at(
                args,
                answers,
                k + 1 + j,
            ) == StepView::Ask(
                RequestView::ProbeSubmodule {
                    path: answers[k]->Submodules_0[j],
                    commit: stage_at(args, answers, k)->ListingSubmodules_target.commit,
                },
            ),
        step_at(args, answers, k + 1 + answers[k]->Submodules_0.len()) == StepView::Finish(
            Err(ErrorView::SubmoduleNotFound),
        ),
        replay(args, answers).1 == StepView::Finish(Err(ErrorView::SubmoduleNotFound)),
        forall|i: int| 0 <= i <= answers.len() ==> !asks_write(#[trigger] step_at(args, answers, i)),
        forall|i: int|
            k <= i <= answers.len() ==> !asks_index_change(#[trigger] step_at(args, answers, i)),
{
    let paths = answers[k]->Submodules_0;
    let n = paths.len() as int;
    let end = k + 1 + n;
    assert forall|j: int| 0 <= j < n implies #[trigger] step_at(args, answers, k + 1 + j)
        == StepView::Ask(
        RequestView::ProbeSubmodule {
            path: paths[j],
            commit: stage_at(args, answers, k)->ListingSubmodules_target.commit,
        },
    ) by {
        lemma_scan_goes_on(args, answers, k, j);
    }
    if n == 0 {
        lemma_replay_next(args, answers, k);
    } else {
        lemma_scan_goes_on(args, answers, k, n - 1);
        lemma_replay_next(args, answers, k + n);
        assert(!(answers[k + 1 + (n - 1)] is Exists));
    }
    assert(step_at(args, answers, end) == StepView::Finish(Err(ErrorView::SubmoduleNotFound)));
    lemma_replay_coherent(args, answers.take(end));
    law_finished_run_stays_finished(args, answers, end, answers.len() as int);
    lemma_whole_prefix(answers);
    law_unfound_commit_changes_nothing(args, answers);
    law_unfound_commit_leaves_index_untouched(args, answers, k);
}

spec fn unpushed(stage: StageView) -> bool {
    &&& !(stage is Pushing)
    &&& stage != StageView::Finished(Ok(()))
    &&& !(stage is Finished && stage->Finished_0 is Err && stage->Finished_0->Err_0 is PushFailed)
}

/// When the composite repository's head turns out to be detached before the
/// push, the run fails with `CompositeNotOnBranch`, and it never asks for a
/// push.
pub proof fn law_detached_composite_head_is_not_pushed(
    args: ArgsView,
    answers: Seq<ResponseView>,
    k: int,
)
    requires
        0 <= k < answers.len(),
        stage_at(args, answers, k) is CheckingHead,
        answers[k] is Head,
        !answers[k]->Head_0.is_branch,
    ensures
        replay(args, answers).1 == StepView::Finish(Err(ErrorView::CompositeNotOnBranch)),
        forall|i: int| 0 <= i <= answers.len() ==> !asks_push(#[trigger] step_at(args, answers, i)),
{
    lemma_replay_next(args, answers, k);
    assert(replay(args, answers.take(k + 1)).1 == StepView::Finish(
        Err(ErrorView::CompositeNotOnBranch),
    ));
    lemma_replay_coherent(args, answers.take(k + 1));
    law_finished_run_stays_finished(args, answers, k + 1, answers.len() as int);
    lemma_whole_prefix(answers);
    lemma_replay_coherent(args, answers);
    lemma_never_asked(
        args,
        answers,
        |stage: StageView| unpushed(stage),
        |step: StepView| asks_push(step),
    );
}

proof fn lemma_same_from(
    args: ArgsView,
    first: Seq<ResponseView>,
    second: Seq<ResponseView>,
    k: int,
    i: int,
)
    requires
        first.len() == second.len(),
        0 <= k < i <= first.len(),
        forall|m: int| 0 <= m < first.len() && m != k ==> first[m] == second[m],
        replay(args, first.take(k + 1)) == replay(args, second.take(k + 1)),
    ensures
        replay(args, first.take(i)) == replay(args, second.take(i)),
    decreases i - k,
{
    if i > k + 1 {
        lemma_same_from(args, first, second, k, i - 1);
        lemma_replay_next(args, first, i - 1);
        lemma_replay_next(args, second, i - 1);
    }
}

/// A local branch that is there already never stops a run: told that the
/// branch exists, the run sets the head to it and goes on, step for step, as
/// the run that was told that the branch was created.
pub proof fn law_existing_branch_is_reused(
    args: ArgsView,
    first: Seq<ResponseView>,
    second: Seq<ResponseView>,
    k: int,
)
    requires
        first.len() == second.len(),
        0 <= k < first.len(),
        forall|m: int| 0 <= m < first.len() && m != k ==> first[m] == second[m],
        first[k] == ResponseView::Done,
        second[k] == ResponseView::Exists,
        stage_at(args, second, k) is CreatingBranch,
    ensures
        step_at(args, second, k + 1) == StepView::Ask(
            RequestView::SetHead {
                ref_name: ref_of_branch(stage_at(args, second, k)->CreatingBranch_target.branch),
            },
        ),
        forall|i: int|
            0 <= i <= first.len() ==> #[trigger] step_at(args, second, i) == step_at(
                args,
                first,
                i,
            ),
        replay(args, second) == replay(args, first),
{
    assert(first.take(k) =~= second.take(k));
    lemma_replay_next(args, first, k);
    lemma_replay_next(args, second, k);
    assert forall|i: int| 0 <= i <= first.len() implies #[trigger] step_at(args, second, i)
        == step_at(args, first, i) by {
        if i <= k {
            assert(first.take(i) =~= second.take(i));
        } else {
            lemma_same_from(args, first, second, k, i);
        }
    }
    lemma_same_from(args, first, second, k, first.len() as int);
    lemma_whole_prefix(first);
    lemma_whole_prefix(second);
}

/// Whether step `i` of a run asks for the commit that records the pin of the
/// nested repository at `path` to `commit`: the three steps before it probed
/// that repository and found the commit, read the commit there, and
/// repointed the repository to it; and the new commit reuses the message and
/// the identities that were read.
pub open spec fn pin_recorded(
    args: ArgsView,
    answers: Seq<ResponseView>,
    i: int,
    path: Seq<char>,
    commit: Seq<u8>,
    propagated: CommitMetadataView,
) -> bool {
    &&& 3 <= i <= answers.len()
    &&& step_at(args, answers, i - 3) == StepView::Ask(
        RequestView::ProbeSubmodule { path, commit },
    )
    &&& answers[i - 3] is Exists
    &&& step_at(args, answers, i - 2) == StepView::Ask(RequestView::ReadCommit { path, commit })
    &&& answers[i - 2] == ResponseView::Metadata(propagated)
    &&& step_at(args, answers, i - 1) == StepView::Ask(
        RequestView::PatchSubmodule { path, commit },
    )
    &&& answers[i - 1] is Done
    &&& propagated.message is Some
    &&& propagated.author is Some
    &&& propagated.committer is Some
    &&& step_at(args, answers, i) == StepView::Ask(
        RequestView::CreateCommit {
            message: commit_message(path, commit, propagated.message->0),
            author: propagated.author->0,
            committer: propagated.committer->0,
        },
    )
    &&& target_of(stage_at(args, answers, i)) is Some
    &&& target_of(stage_at(args, answers, i))->0.commit == commit
}

proof fn lemma_commit_asked_after_patch(pipeline: PipelineView, answer: ResponseView)
    requires
        pipeline.step(answer).0.stage is Committing,
    ensures
        pipeline.stage is Patching,
        answer is Done,
        pipeline.stage->Patching_metadata.message is Some,
        pipeline.stage->Patching_metadata.author is Some,
        pipeline.stage->Patching_metadata.committer is Some,
        pipeline.step(answer).1 == StepView::Ask(
            RequestView::CreateCommit {
                message: commit_message(
                    pipeline.stage->Patching_path,
                    pipeline.stage->Patching_target.commit,
                    pipeline.stage->Patching_metadata.message->0,
                ),
                author: pipeline.stage->Patching_metadata.author->0,
                committer: pipeline.stage->Patching_metadata.committer->0,
            },
        ),
        pipeline.step(answer).0.stage->Committing_target == pipeline.stage->Patching_target,
{
}

proof fn lemma_patch_asked_after_read(pipeline: PipelineView, answer: ResponseView)
    requires
        pipeline.step(answer).0.stage is Patching,
    ensures
        pipeline.stage is ResolvingCommit,
        answer is Metadata,
        pipeline.step(answer).0.stage == (StageView::Patching {
            target: pipeline.stage->ResolvingCommit_target,
            path: pipeline.stage->ResolvingCommit_path,
            metadata: answer->Metadata_0,
        }),
{
}

proof fn lemma_read_asked_after_probe(pipeline: PipelineView, answer: ResponseView)
    requires
        pipeline.step(answer).0.stage is ResolvingCommit,
    ensures
        pipeline.stage is Probing,
        answer is Exists,
        0 <= pipeline.stage->Probing_cursor < pipeline.stage->Probing_paths.len(),
        pipeline.step(answer).0.stage == (StageView::ResolvingCommit {
            target: pipeline.stage->Probing_target,
            path: pipeline.stage->Probing_paths[pipeline.stage->Probing_cursor],
        }),
{
}

/// Every commit that a run asks for records the pin of the nested repository
/// in which the commit to propagate was found: its message begins with
/// `Update submodule`, the path of that repository, ` to ` and the commit in
/// hexadecimal, and goes on with the message that was read there; its
/// author and committer are those that were read; and just before it the
/// run repointed that repository to that commit.
pub proof fn law_commit_records_the_pin(args: ArgsView, answers: Seq<ResponseView>, i: int)
    requires
        0 <= i <= answers.len(),
        step_at(args, answers, i) is Ask,
        step_at(args, answers, i)->Ask_0 is CreateCommit,
    ensures
        3 <= i,
        step_at(args, answers, i - 1) is Ask,
        step_at(args, answers, i - 1)->Ask_0 is PatchSubmodule,
        answers[i - 2] is Metadata,
        pin_recorded(
            args,
            answers,
            i,
            step_at(args, answers, i - 1)->Ask_0->PatchSubmodule_path,
            step_at(args, answers, i - 1)->Ask_0->PatchSubmodule_commit,
            answers[i - 2]->Metadata_0,
        ),
        commit_headline(
            step_at(args, answers, i - 1)->Ask_0->PatchSubmodule_path,
            step_at(args, answers, i - 1)->Ask_0->PatchSubmodule_commit,
        ).is_prefix_of(step_at(args, answers, i)->Ask_0->CreateCommit_message),
{
    lemma_replay_coherent(args, answers.take(i));
    assert(stage_at(args, answers, i) is Committing);
    assert(answers.take(0) =~= Seq::<ResponseView>::empty());
    assert(i >= 1);
    lemma_replay_next(args, answers, i - 1);
    lemma_commit_asked_after_patch(replay(args, answers.take(i - 1)).0, answers[i - 1]);
    lemma_replay_coherent(args, answers.take(i - 1));
    assert(i >= 2);
    lemma_replay_next(args, answers, i - 2);
    lemma_patch_asked_after_read(replay(args, answers.take(i - 2)).0, answers[i - 2]);
    lemma_replay_coherent(args, answers.take(i - 2));
    assert(i >= 3);
    lemma_replay_next(args, answers, i - 3);
    lemma_read_asked_after_probe(replay(args, answers.take(i - 3)).0, answers[i - 3]);
    lemma_replay_coherent(args, answers.take(i - 3));
}

/// Whether a run that has been given `i` answers was told this about the
/// component repository: it was opened, its head is `head`, and the ref to
/// propagate, `git_ref`, resolves to the commit that the head is on.
pub open spec fn component_resolved(
    args: ArgsView,
    answers: Seq<ResponseView>,
    i: int,
    git_ref: Seq<char>,
) -> bool {
    &&& 3 <= i <= answers.len()
    &&& answers[0] is Done
    &&& answers[1] is Head
    &&& resolved_ref(args.git_ref, answers[1]->Head_0) == Ok::<Seq<char>, ErrorView>(git_ref)
    &&& answers[2] == ResponseView::Commit(answers[1]->Head_0.commit)
}

spec fn traced(args: ArgsView, answers: Seq<ResponseView>, i: int) -> bool {
    match stage_at(args, answers, i) {
        StageView::OpeningComponent => i == 0,
        StageView::ReadingHead => i == 1 && answers[0] is Done,
        StageView::ResolvingRef { git_ref, head } => {
            &&& i == 2
            &&& answers[0] is Done
            &&& answers[1] is Head
            &&& head == answers[1]->Head_0.commit
            &&& resolved_ref(args.git_ref, answers[1]->Head_0) == Ok::<Seq<char>, ErrorView>(
                git_ref,
            )
        },
        StageView::Finished(_) => true,
        _ => {
            &&& answers[1] is Head
            &&& resolved_ref(args.git_ref, answers[1]->Head_0) is Ok
            &&& component_resolved(
                args,
                answers,
                i,
                resolved_ref(args.git_ref, answers[1]->Head_0)->Ok_0,
            )
            &&& target_of(stage_at(args, answers, i)) == Some(
                TargetView {
                    branch: branch_of(resolved_ref(args.git_ref, answers[1]->Head_0)->Ok_0),
                    commit: answers[1]->Head_0.commit,
                },
            )
        },
    }
}

proof fn lemma_traced(args: ArgsView, answers: Seq<ResponseView>, i: int)
    requires
        0 <= i <= answers.len(),
    ensures
        traced(args, answers, i),
    decreases i,
{
    if i == 0 {
        assert(answers.take(0) =~= Seq::<ResponseView>::empty());
    } else {
        lemma_traced(args, answers, i - 1);
        lemma_replay_next(args, answers, i - 1);
        lemma_replay_coherent(args, answers.take(i - 1));
    }
}

/// Whatever a run does on the composite repository, it does for the branch
/// and the commit that the component repository was found on: the commit of
/// its head, which the ref to propagate resolves to, and the shorthand of
/// that ref.
pub proof fn law_target_is_the_checked_out_commit(
    args: ArgsView,
    answers: Seq<ResponseView>,
    i: int,
)
    requires
        0 <= i <= answers.len(),
        target_of(stage_at(args, answers, i)) is Some,
    ensures
        answers[1] is Head,
        resolved_ref(args.git_ref, answers[1]->Head_0) is Ok,
        component_resolved(
            args,
            answers,
            i,
            resolved_ref(args.git_ref, answers[1]->Head_0)->Ok_0,
        ),
        target_of(stage_at(args, answers, i))->0.commit == answers[1]->Head_0.commit,
        target_of(stage_at(args, answers, i))->0.branch == branch_of(
            resolved_ref(args.git_ref, answers[1]->Head_0)->Ok_0,
        ),
{
    lemma_traced(args, answers, i);
}

/// A run pushes only what it committed: the step that asks for the push
/// comes right after the composite repository's head was found on a branch,
/// which comes right after the new commit was made. It pushes the branch
/// that the head was found on to the branch of the same name, with the
/// caller's transport headers.
pub proof fn law_push_follows_commit(args: ArgsView, answers: Seq<ResponseView>, i: int)
    requires
        0 <= i <= answers.len(),
        asks_push(step_at(args, answers, i)),
    ensures
        2 <= i,
        step_at(args, answers, i - 2) is Ask,
        step_at(args, answers, i - 2)->Ask_0 is CreateCommit,
        answers[i - 2] is Done,
        step_at(args, answers, i - 1) == StepView::Ask(
            RequestView::ReadHead { repository: Repo::Composite },
        ),
        answers[i - 1] is Head,
        answers[i - 1]->Head_0.is_branch,
        answers[i - 1]->Head_0.name is Some,
        step_at(args, answers, i) == StepView::Ask(
            RequestView::Push {
                refspec: push_refspec(answers[i - 1]->Head_0.name->0),
                headers: args.custom_headers,
            },
        ),
{
    lemma_replay_coherent(args, answers.take(i));
    assert(stage_at(args, answers, i) is Pushing);
    assert(answers.take(0) =~= Seq::<ResponseView>::empty());
    assert(i >= 1);
    lemma_replay_next(args, answers, i - 1);
    lemma_replay_coherent(args, answers.take(i - 1));
    assert(stage_at(args, answers, i - 1) is CheckingHead);
    assert(i >= 2);
    lemma_replay_next(args, answers, i - 2);
    lemma_replay_coherent(args, answers.take(i - 2));
    assert(stage_at(args, answers, i - 2) is Committing);
}

/// A commit that the backend makes is pushed: once the new commit is done
/// and the composite repository's head is found on a branch, the run pushes
/// that branch to the branch of the same name, with the caller's transport
/// headers, and when the push is done the run has succeeded.
pub proof fn law_recorded_pin_is_pushed(args: ArgsView, answers: Seq<ResponseView>, i: int)
    requires
        0 <= i,
        i + 3 <= answers.len(),
        step_at(args, answers, i) is Ask,
        step_at(args, answers, i)->Ask_0 is CreateCommit,
        answers[i] is Done,
        answers[i + 1] is Head,
        answers[i + 1]->Head_0.is_branch,
        answers[i + 1]->Head_0.name is Some,
        answers[i + 2] is Done,
    ensures
        step_at(args, answers, i + 1) == StepView::Ask(
            RequestView::ReadHead { repository: Repo::Composite },
        ),
        step_at(args, answers, i + 2) == StepView::Ask(
            RequestView::Push {
                refspec: push_refspec(answers[i + 1]->Head_0.name->0),
                headers: args.custom_headers,
            },
        ),
        step_at(args, answers, i + 3) == StepView::Finish(Ok(())),
{
    lemma_replay_coherent(args, answers.take(i));
    lemma_replay_next(args, answers, i);
    lemma_replay_next(args, answers, i + 1);
    lemma_replay_next(args, answers, i + 2);
}

/// In a run that set the head of the composite clone as it was asked to,
/// the branch that is pushed is the one that is propagated: when the head is
/// found on the local branch that the run made its head, the refspec names
/// the propagated branch on both sides.
pub proof fn law_pushed_branch_is_the_propagated_one(
    args: ArgsView,
    answers: Seq<ResponseView>,
    i: int,
)
    requires
        1 <= i <= answers.len(),
        asks_push(step_at(args, answers, i)),
        target_of(stage_at(args, answers, i)) is Some,
        answers[i - 1] is Head,
        answers[i - 1]->Head_0.name == Some(
            ref_of_branch(target_of(stage_at(args, answers, i))->0.branch),
        ),
    ensures
        step_at(args, answers, i) == StepView::Ask(
            RequestView::Push {
                refspec: ref_of_branch(target_of(stage_at(args, answers, i))->0.branch) + ":"@
                    + ref_of_branch(target_of(stage_at(args, answers, i))->0.branch),
                headers: args.custom_headers,
            },
        ),
{
    law_push_follows_commit(args, answers, i);
}

/// A run that succeeds has pushed: its last operation was the push, and the
/// backend reported it done.
pub proof fn law_success_ends_with_push(args: ArgsView, answers: Seq<ResponseView>, i: int)
    requires
        0 < i <= answers.len(),
        step_at(args, answers, i) == StepView::Finish(Ok(())),
        !(step_at(args, answers, i - 1) is Finish),
    ensures
        asks_push(step_at(args, answers, i - 1)),
        answers[i - 1] is Done,
{
    lemma_replay_coherent(args, answers.take(i));
    lemma_replay_next(args, answers, i - 1);
    lemma_replay_coherent(args, answers.take(i - 1));
}

} // verus!
