//! What the caller of the pipeline supplies.
use crate::text::{borrow_texts, optional_text, texts};
use vstd::prelude::*;

verus! {

/// What one run of the pipeline is told by its caller.
#[derive(Debug, Clone, PartialEq, Eq)]
pub struct Args {
    /// Path of the component repository, the one whose commit is propagated.
    pub repository: String,
    /// Full name of the ref to propagate; the component's head when absent.
    pub git_ref: Option<String>,
    /// URL of the composite repository.
    pub composite_repository: String,
    /// Transport headers applied to both fetching and pushing.
    pub custom_headers: Vec<String>,
}

/// The mathematical value of [`Args`].
pub struct ArgsView {
    pub repository: Seq<char>,
    pub git_ref: Option<Seq<char>>,
    pub composite_repository: Seq<char>,
    pub custom_headers: Seq<Seq<char>>,
}

impl View for Args {
    type V = ArgsView;

    open spec fn view(&self) -> ArgsView {
        ArgsView {
            repository: self.repository@,
            git_ref: optional_text(self.git_ref),
            composite_repository: self.composite_repository@,
            custom_headers: texts(self.custom_headers@),
        }
    }
}

impl Args {
    /// The transport headers as borrowed string slices, in their given order.
    pub fn custom_headers_ref(&self) -> (headers: Vec<&str>)
        ensures
            headers.len() == self.custom_headers.len(),
            forall|i: int|
                0 <= i < headers.len() ==> (#[trigger] headers[i])@ == self.custom_headers[i]@,
    {
        borrow_texts(&self.custom_headers)
    }
}

} // verus!
