//! Propagates the commit of a component repository into the composite
//! repository that pins it as a nested sub-repository.
//!
//! The library holds every decision of that pipeline and performs no I/O of
//! its own: it asks for one backend operation at a time (a
//! [`protocol::Request`]) and decides what to do next from the answer (a
//! [`protocol::Response`]). [`pipeline::run`] drives a whole run against a
//! backend that is handed to it; [`machine::Pipeline`] takes one step at a
//! time. What holds of every run is proved in [`laws`].
pub mod args;
pub mod checkout;
pub mod commit_id;
pub mod committer;
pub mod error;
pub mod laws;
pub mod locator;
pub mod machine;
pub mod patcher;
pub mod pipeline;
pub mod protocol;
pub mod pusher;
pub mod refs;
pub mod resolver;
pub mod text;

pub use crate::args::Args;
pub use crate::error::Error;
pub use crate::machine::Pipeline;
pub use crate::pipeline::run;
