//! The state of a run between two backend operations.
use crate::args::{Args, ArgsView};
use crate::commit_id::CommitId;
use crate::error::{result_view, Error, ErrorView};
use crate::protocol::{
    CommitMetadata, CommitMetadataView, Request, RequestView, Step, StepView,
};
use crate::text::texts;
use vstd::prelude::*;

verus! {

/// What a run propagates, once the component side is resolved.
#[derive(Debug, Clone, PartialEq, Eq)]
pub struct Target {
    /// Shorthand of the branch that is propagated.
    pub branch: String,
    /// The commit that the nested repository is to be pinned to.
    pub commit: CommitId,
}

/// The mathematical value of a [`Target`].
pub struct TargetView {
    pub branch: Seq<char>,
    pub commit: Seq<u8>,
}

impl View for Target {
    type V = TargetView;

    open spec fn view(&self) -> TargetView {
        TargetView { branch: self.branch@, commit: self.commit@ }
    }
}

/// Where a run stands: which answer it waits for, and what it has learnt.
#[derive(Debug, PartialEq, Eq)]
pub enum Stage {
    /// Waiting for the component repository to be opened.
    OpeningComponent,
    /// Waiting for the component's head.
    ReadingHead,
    /// Waiting for the commit of the ref to propagate.
    ResolvingRef { git_ref: String, head: CommitId },
    /// Waiting for the clone of the composite repository.
    Cloning { target: Target },
    /// Waiting for the remote-tracking branch of the composite clone.
    FindingRemoteBranch { target: Target },
    /// Waiting for the head of the composite clone, as the fallback basis.
    ReadingCompositeHead { target: Target },
    /// Waiting for the local branch to be created.
    CreatingBranch { target: Target },
    /// Waiting for the head to be set to the local branch.
    SettingHead { target: Target },
    /// Waiting for the working tree to be checked out.
    CheckingOut { target: Target },
    /// Waiting for the list of nested repositories.
    ListingSubmodules { target: Target },
    /// Waiting for the probe of the nested repository at `paths[cursor]`.
    Probing { target: Target, paths: Vec<String>, cursor: usize },
    /// Waiting for the commit object in the located nested repository.
    ResolvingCommit { target: Target, path: String },
    /// Waiting for the nested repository to be repointed and staged.
    Patching { target: Target, path: String, metadata: CommitMetadata },
    /// Waiting for the new commit of the composite repository.
    Committing { target: Target },
    /// Waiting for the head of the composite repository before the push.
    CheckingHead { target: Target },
    /// Waiting for the push.
    Pushing { target: Target },
    /// The run is over.
    Finished(Result<(), Error>),
}

/// The mathematical value of a [`Stage`].
pub enum StageView {
    OpeningComponent,
    ReadingHead,
    ResolvingRef { git_ref: Seq<char>, head: Seq<u8> },
    Cloning { target: TargetView },
    FindingRemoteBranch { target: TargetView },
    ReadingCompositeHead { target: TargetView },
    CreatingBranch { target: TargetView },
    SettingHead { target: TargetView },
    CheckingOut { target: TargetView },
    ListingSubmodules { target: TargetView },
    Probing { target: TargetView, paths: Seq<Seq<char>>, cursor: int },
    ResolvingCommit { target: TargetView, path: Seq<char> },
    Patching { target: TargetView, path: Seq<char>, metadata: CommitMetadataView },
    Committing { target: TargetView },
    CheckingHead { target: TargetView },
    Pushing { target: TargetView },
    Finished(Result<(), ErrorView>),
}

impl View for Stage {
    type V = StageView;

    open spec fn view(&self) -> StageView {
        match self {
            Stage::OpeningComponent => StageView::OpeningComponent,
            Stage::ReadingHead => StageView::ReadingHead,
            Stage::ResolvingRef { git_ref, head } => StageView::ResolvingRef {
                git_ref: git_ref@,
                head: head@,
            },
            Stage::Cloning { target } => StageView::Cloning { target: target@ },
            Stage::FindingRemoteBranch { target } => StageView::FindingRemoteBranch {
                target: target@,
            },
            Stage::ReadingCompositeHead { target } => StageView::ReadingCompositeHead {
                target: target@,
            },
            Stage::CreatingBranch { target } => StageView::CreatingBranch { target: target@ },
            Stage::SettingHead { target } => StageView::SettingHead { target: target@ },
            Stage::CheckingOut { target } => StageView::CheckingOut { target: target@ },
            Stage::ListingSubmodules { target } => StageView::ListingSubmodules {
                target: target@,
            },
            Stage::Probing { target, paths, cursor } => StageView::Probing {
                target: target@,
                paths: texts(paths@),
                cursor: *cursor as int,
            },
            Stage::ResolvingCommit { target, path } => StageView::ResolvingCommit {
                target: target@,
                path: path@,
            },
            Stage::Patching { target, path, metadata } => StageView::Patching {
                target: target@,
                path: path@,
                metadata: metadata@,
            },
            Stage::Committing { target } => StageView::Committing { target: target@ },
            Stage::CheckingHead { target } => StageView::CheckingHead { target: target@ },
            Stage::Pushing { target } => StageView::Pushing { target: target@ },
            Stage::Finished(result) => StageView::Finished(result_view(*result)),
        }
    }
}

/// One run of the pipeline: what the caller asked for and where the run stands.
#[derive(Debug, PartialEq, Eq)]
pub struct Pipeline {
    pub args: Args,
    pub stage: Stage,
}

/// The mathematical value of a [`Pipeline`].
pub struct PipelineView {
    pub args: ArgsView,
    pub stage: StageView,
}

impl View for Pipeline {
    type V = PipelineView;

    open spec fn view(&self) -> PipelineView {
        PipelineView { args: self.args@, stage: self.stage@ }
    }
}

/// The mathematical value of a pipeline together with its next step.
pub open spec fn seen(next: (Pipeline, Step)) -> (PipelineView, StepView) {
    (next.0@, next.1@)
}

/// The run stops with an error.
pub open spec fn halted(args: ArgsView, error: ErrorView) -> (PipelineView, StepView) {
    (PipelineView { args, stage: StageView::Finished(Err(error)) }, StepView::Finish(Err(error)))
}

/// The run is over without an error.
pub open spec fn completed(args: ArgsView) -> (PipelineView, StepView) {
    (PipelineView { args, stage: StageView::Finished(Ok(())) }, StepView::Finish(Ok(())))
}

/// The run goes on: it asks for an operation and waits for the answer.
pub open spec fn asking(args: ArgsView, stage: StageView, request: RequestView) -> (
    PipelineView,
    StepView,
) {
    (PipelineView { args, stage }, StepView::Ask(request))
}

/// Stops the run with an error.
pub fn halt(args: Args, error: Error) -> (next: (Pipeline, Step))
    ensures
        seen(next) == halted(args@, error@),
{
    let kept = error.duplicate();
    (Pipeline { args, stage: Stage::Finished(Err(kept)) }, Step::Finish(Err(error)))
}

/// Ends the run without an error.
pub fn complete(args: Args) -> (next: (Pipeline, Step))
    ensures
        seen(next) == completed(args@),
{
    (Pipeline { args, stage: Stage::Finished(Ok(())) }, Step::Finish(Ok(())))
}

/// Lets the run go on with one more operation.
pub fn ask(args: Args, stage: Stage, request: Request) -> (next: (Pipeline, Step))
    ensures
        seen(next) == asking(args@, stage@, request@),
{
    (Pipeline { args, stage }, Step::Ask(request))
}

} // verus!
