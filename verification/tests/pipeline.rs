use composite_sync::args::Args;
use composite_sync::commit_id::CommitId;
use composite_sync::error::Error;
use composite_sync::machine::{Pipeline, Stage};
use composite_sync::pipeline::run;
use composite_sync::protocol::{
    CommitMetadata, Head, Identity, Repo, Request, Response, Step,
};
use std::cell::RefCell;

const A: [u8; 20] = [0xa0; 20];
const X: [u8; 20] = [0x0f; 20];
const TIP: [u8; 20] = [0x77; 20];

fn hex_a() -> String {
    "a0".repeat(20)
}

fn args(given: Option<&str>) -> Args {
    Args {
        repository: "/work/component".to_string(),
        git_ref: given.map(|s| s.to_string()),
        composite_repository: "https://example.org/composite.git".to_string(),
        custom_headers: vec!["AUTHORIZATION: basic dG9rZW4=".to_string()],
    }
}

fn identity(name: &str) -> Identity {
    Identity {
        name: name.to_string(),
        email: format!("{}@example.org", name),
        seconds: 1_700_000_000,
        offset_minutes: 60,
    }
}

/// A backend made of plain data, enough to answer every request.
struct World {
    component_head: Head,
    component_refs: Vec<(String, CommitId)>,
    clone_fails: Option<String>,
    remote_branches: Vec<(String, CommitId)>,
    local_branches: Vec<String>,
    composite_head: Head,
    submodules: Vec<(String, Option<Vec<CommitId>>)>,
    message: Option<String>,
    head_after_commit_is_branch: bool,
    head_stays_on: Option<String>,
    push_fails: Option<String>,
    log: Vec<Request>,
}

fn world() -> World {
    World {
        component_head: Head {
            name: Some("refs/heads/main".to_string()),
            is_branch: true,
            commit: CommitId::new(A),
        },
        component_refs: vec![("refs/heads/main".to_string(), CommitId::new(A))],
        clone_fails: None,
        remote_branches: vec![("origin/main".to_string(), CommitId::new(TIP))],
        local_branches: vec!["master".to_string()],
        composite_head: Head {
            name: Some("refs/heads/master".to_string()),
            is_branch: true,
            commit: CommitId::new([0x55; 20]),
        },
        submodules: vec![
            ("vendor/other".to_string(), Some(vec![CommitId::new(X)])),
            ("services/foo".to_string(), Some(vec![CommitId::new(X), CommitId::new(A)])),
        ],
        message: Some("fix bug".to_string()),
        head_after_commit_is_branch: true,
        head_stays_on: None,
        push_fails: None,
        log: vec![],
    }
}

impl World {
    fn perform(&mut self, request: Request) -> Response {
        self.log.push(request.clone());
        match request {
            Request::OpenComponent { .. } => Response::Done,
            Request::ReadHead { repository: Repo::Component } => {
                Response::Head(self.component_head.clone())
            }
            Request::ReadHead { repository: Repo::Composite } => {
                let mut head = self.composite_head.clone();
                if !self.head_after_commit_is_branch {
                    head.is_branch = false;
                    head.name = Some("HEAD".to_string());
                }
                Response::Head(head)
            }
            Request::LookupRef { name } => {
                match self.component_refs.iter().find(|(n, _)| *n == name) {
                    Some((_, id)) => Response::Commit(*id),
                    None => Response::Failed(format!("reference '{}' not found", name)),
                }
            }
            Request::CloneComposite { .. } => match &self.clone_fails {
                Some(why) => Response::Failed(why.clone()),
                None => Response::Done,
            },
            Request::FindRemoteBranch { name } => {
                match self.remote_branches.iter().find(|(n, _)| *n == name) {
                    Some((_, id)) => Response::Commit(*id),
                    None => Response::Missing,
                }
            }
            Request::CreateBranch { name, .. } => {
                if self.local_branches.contains(&name) {
                    Response::Exists
                } else {
                    self.local_branches.push(name);
                    Response::Done
                }
            }
            Request::SetHead { ref_name } => {
                self.composite_head.name = match &self.head_stays_on {
                    Some(elsewhere) => Some(elsewhere.clone()),
                    None => Some(ref_name),
                };
                self.composite_head.is_branch = true;
                Response::Done
            }
            Request::CheckoutHead => Response::Done,
            Request::ListSubmodules => {
                Response::Submodules(self.submodules.iter().map(|(p, _)| p.clone()).collect())
            }
            Request::ProbeSubmodule { path, commit } => {
                match self.submodules.iter().find(|(p, _)| *p == path) {
                    Some((_, Some(commits))) => {
                        if commits.contains(&commit) {
                            Response::Exists
                        } else {
                            Response::Missing
                        }
                    }
                    Some((_, None)) => Response::Failed("could not open submodule".to_string()),
                    None => Response::Failed("no such submodule".to_string()),
                }
            }
            Request::ReadCommit { .. } => Response::Metadata(CommitMetadata {
                message: self.message.clone(),
                author: Some(identity("ada")),
                committer: Some(identity("bob")),
            }),
            Request::PatchSubmodule { .. } => Response::Done,
            Request::CreateCommit { .. } => Response::Done,
            Request::Push { .. } => match &self.push_fails {
                Some(why) => Response::Failed(why.clone()),
                None => Response::Done,
            },
        }
    }
}

fn run_in(world: World, args: Args) -> (Result<(), Error>, Vec<Request>) {
    let cell = RefCell::new(world);
    let result = run(args, |request| cell.borrow_mut().perform(request));
    (result, cell.into_inner().log)
}

fn is_network(request: &Request) -> bool {
    matches!(
        request,
        Request::CloneComposite { .. } | Request::ProbeSubmodule { .. } | Request::Push { .. }
    )
}

#[test]
fn component_on_main_is_propagated() {
    let (result, log) = run_in(world(), args(None));
    assert_eq!(result, Ok(()));
    let headers = vec!["AUTHORIZATION: basic dG9rZW4=".to_string()];
    let expected = vec![
        Request::OpenComponent { path: "/work/component".to_string() },
        Request::ReadHead { repository: Repo::Component },
        Request::LookupRef { name: "refs/heads/main".to_string() },
        Request::CloneComposite {
            url: "https://example.org/composite.git".to_string(),
            headers: headers.clone(),
        },
        Request::FindRemoteBranch { name: "origin/main".to_string() },
        Request::CreateBranch { name: "main".to_string(), at: CommitId::new(TIP) },
        Request::SetHead { ref_name: "refs/heads/main".to_string() },
        Request::CheckoutHead,
        Request::ListSubmodules,
        Request::ProbeSubmodule { path: "vendor/other".to_string(), commit: CommitId::new(A) },
        Request::ProbeSubmodule { path: "services/foo".to_string(), commit: CommitId::new(A) },
        Request::ReadCommit { path: "services/foo".to_string(), commit: CommitId::new(A) },
        Request::PatchSubmodule { path: "services/foo".to_string(), commit: CommitId::new(A) },
        Request::CreateCommit {
            message: format!("Update submodule services/foo to {}\n---\nfix bug", hex_a()),
            author: identity("ada"),
            committer: identity("bob"),
        },
        Request::ReadHead { repository: Repo::Composite },
        Request::Push { refspec: "refs/heads/main:refs/heads/main".to_string(), headers },
    ];
    assert_eq!(log, expected);
}

#[test]
fn detached_component_head_fails_at_once() {
    let mut w = world();
    w.component_head =
        Head { name: Some("HEAD".to_string()), is_branch: false, commit: CommitId::new(X) };
    let (result, log) = run_in(w, args(None));
    assert_eq!(result, Err(Error::NotABranch));
    assert_eq!(
        log,
        vec![
            Request::OpenComponent { path: "/work/component".to_string() },
            Request::ReadHead { repository: Repo::Component },
        ]
    );
    assert!(log.iter().all(|r| !is_network(r)));
}

#[test]
fn no_nested_repository_holds_the_commit() {
    let mut w = world();
    w.submodules = vec![
        ("vendor/other".to_string(), Some(vec![CommitId::new(X)])),
        ("services/bar".to_string(), Some(vec![])),
    ];
    let (result, log) = run_in(w, args(None));
    assert_eq!(result, Err(Error::SubmoduleNotFound));
    assert!(log.contains(&Request::CloneComposite {
        url: "https://example.org/composite.git".to_string(),
        headers: vec!["AUTHORIZATION: basic dG9rZW4=".to_string()],
    }));
    assert!(log.contains(&Request::CheckoutHead));
    let probes: Vec<&Request> =
        log.iter().filter(|r| matches!(r, Request::ProbeSubmodule { .. })).collect();
    assert_eq!(
        probes,
        vec![
            &Request::ProbeSubmodule { path: "vendor/other".to_string(), commit: CommitId::new(A) },
            &Request::ProbeSubmodule { path: "services/bar".to_string(), commit: CommitId::new(A) },
        ]
    );
    assert!(log.iter().all(|r| !matches!(
        r,
        Request::PatchSubmodule { .. } | Request::CreateCommit { .. } | Request::Push { .. }
    )));
    assert_eq!(log.last(), probes.last().copied());
}

#[test]
fn composite_without_nested_repositories_fails() {
    let mut w = world();
    w.submodules = vec![];
    let (result, log) = run_in(w, args(None));
    assert_eq!(result, Err(Error::SubmoduleNotFound));
    assert_eq!(log.last(), Some(&Request::ListSubmodules));
}

#[test]
fn existing_local_branch_does_not_stop_the_run() {
    let mut w = world();
    w.local_branches.push("main".to_string());
    let (result, log) = run_in(w, args(None));
    assert_eq!(result, Ok(()));
    let (_, first_log) = run_in(world(), args(None));
    assert_eq!(log, first_log);
}

#[test]
fn missing_remote_branch_falls_back_to_the_head_of_the_clone() {
    let mut w = world();
    w.remote_branches = vec![];
    let (result, log) = run_in(w, args(None));
    assert_eq!(result, Ok(()));
    assert_eq!(log[4], Request::FindRemoteBranch { name: "origin/main".to_string() });
    assert_eq!(log[5], Request::ReadHead { repository: Repo::Composite });
    assert_eq!(
        log[6],
        Request::CreateBranch { name: "main".to_string(), at: CommitId::new([0x55; 20]) }
    );
    assert_eq!(log[7], Request::SetHead { ref_name: "refs/heads/main".to_string() });
}

#[test]
fn first_nested_repository_that_holds_the_commit_wins() {
    let mut w = world();
    w.submodules = vec![
        ("a".to_string(), Some(vec![])),
        ("b".to_string(), Some(vec![CommitId::new(A)])),
        ("c".to_string(), Some(vec![CommitId::new(A)])),
    ];
    let (result, log) = run_in(w, args(None));
    assert_eq!(result, Ok(()));
    assert!(log.contains(&Request::PatchSubmodule { path: "b".to_string(), commit: CommitId::new(A) }));
    assert!(!log.contains(&Request::ProbeSubmodule { path: "c".to_string(), commit: CommitId::new(A) }));
}

#[test]
fn nested_repository_that_cannot_be_opened_is_passed_over() {
    let mut w = world();
    w.submodules = vec![
        ("broken".to_string(), None),
        ("services/foo".to_string(), Some(vec![CommitId::new(A)])),
    ];
    let (result, log) = run_in(w, args(None));
    assert_eq!(result, Ok(()));
    assert!(log.contains(&Request::PatchSubmodule {
        path: "services/foo".to_string(),
        commit: CommitId::new(A)
    }));
    let mut all_broken = world();
    all_broken.submodules = vec![("broken".to_string(), None), ("worse".to_string(), None)];
    let (result, _) = run_in(all_broken, args(None));
    assert_eq!(result, Err(Error::SubmoduleNotFound));
}

#[test]
fn detached_composite_head_is_not_pushed() {
    let mut w = world();
    w.head_after_commit_is_branch = false;
    w.remote_branches = vec![("origin/main".to_string(), CommitId::new(TIP))];
    let (result, log) = run_in(w, args(None));
    assert_eq!(result, Err(Error::CompositeNotOnBranch));
    assert!(log.iter().all(|r| !matches!(r, Request::Push { .. })));
    assert_eq!(log.last(), Some(&Request::ReadHead { repository: Repo::Composite }));
}

#[test]
fn given_ref_that_is_checked_out_is_propagated_from_a_detached_head() {
    let mut w = world();
    w.component_head =
        Head { name: Some("HEAD".to_string()), is_branch: false, commit: CommitId::new(A) };
    w.component_refs = vec![("refs/heads/release".to_string(), CommitId::new(A))];
    w.remote_branches = vec![];
    let (result, log) = run_in(w, args(Some("refs/heads/release")));
    assert_eq!(result, Ok(()));
    assert_eq!(log[2], Request::LookupRef { name: "refs/heads/release".to_string() });
    assert_eq!(
        log.last(),
        Some(&Request::Push {
            refspec: "refs/heads/release:refs/heads/release".to_string(),
            headers: vec!["AUTHORIZATION: basic dG9rZW4=".to_string()],
        })
    );
}

#[test]
fn push_names_the_branch_that_the_head_is_found_on() {
    let mut w = world();
    w.head_stays_on = Some("refs/heads/x".to_string());
    let (result, log) = run_in(w, args(None));
    assert_eq!(result, Ok(()));
    assert_eq!(
        log.last(),
        Some(&Request::Push {
            refspec: "refs/heads/x:refs/heads/x".to_string(),
            headers: vec!["AUTHORIZATION: basic dG9rZW4=".to_string()],
        })
    );
}

#[test]
fn head_on_a_ref_that_is_no_branch_stops_the_run_before_the_clone() {
    let mut w = world();
    w.component_head = Head {
        name: Some("refs/remotes/origin/main".to_string()),
        is_branch: true,
        commit: CommitId::new(A),
    };
    let (result, log) = run_in(w, args(None));
    assert_eq!(result, Err(Error::NotABranch));
    assert_eq!(log.len(), 2);
    assert!(log.iter().all(|r| !is_network(r)));
}

#[test]
fn given_ref_that_is_not_checked_out_is_a_mismatch() {
    let mut w = world();
    w.component_refs.push(("refs/heads/old".to_string(), CommitId::new(X)));
    let (result, log) = run_in(w, args(Some("refs/heads/old")));
    assert_eq!(result, Err(Error::RefMismatch));
    assert_eq!(log.len(), 3);
    assert!(log.iter().all(|r| !is_network(r)));
}

#[test]
fn given_ref_that_is_no_branch_is_refused_before_anything_is_asked() {
    let (result, log) = run_in(world(), args(Some("refs/tags/v1")));
    assert_eq!(result, Err(Error::NotABranch));
    assert_eq!(log, vec![]);
}

#[test]
fn failed_clone_is_reported_with_the_backend_text() {
    let mut w = world();
    w.clone_fails = Some("authentication required".to_string());
    let (result, log) = run_in(w, args(None));
    assert_eq!(result, Err(Error::CloneFailed("authentication required".to_string())));
    assert_eq!(log.len(), 4);
}

#[test]
fn failed_push_is_reported_verbatim() {
    let mut w = world();
    w.push_fails = Some("rejected: non-fast-forward".to_string());
    let (result, _) = run_in(w, args(None));
    assert_eq!(result, Err(Error::PushFailed("rejected: non-fast-forward".to_string())));
}

#[test]
fn commit_without_a_readable_message_is_refused() {
    let mut w = world();
    w.message = None;
    let (result, log) = run_in(w, args(None));
    assert_eq!(result, Err(Error::InvalidCommitMetadata));
    assert!(log.iter().all(|r| !matches!(r, Request::CreateCommit { .. } | Request::Push { .. })));
}

#[test]
fn missing_ref_is_a_backend_failure() {
    let mut w = world();
    w.component_refs = vec![];
    let (result, _) = run_in(w, args(None));
    assert_eq!(result, Err(Error::Backend("reference 'refs/heads/main' not found".to_string())));
}

fn drive(pipeline: Pipeline, step: Step, answers: Vec<Response>) -> (Pipeline, Step) {
    let mut pipeline = pipeline;
    let mut step = step;
    for answer in answers {
        let next = pipeline.step(answer);
        pipeline = next.0;
        step = next.1;
    }
    (pipeline, step)
}

fn answers_up_to_checkout() -> Vec<Response> {
    vec![
        Response::Done,
        Response::Head(Head {
            name: Some("refs/heads/main".to_string()),
            is_branch: true,
            commit: CommitId::new(A),
        }),
        Response::Commit(CommitId::new(A)),
        Response::Done,
        Response::Commit(CommitId::new(TIP)),
        Response::Done,
        Response::Done,
        Response::Done,
    ]
}

#[test]
fn start_asks_to_open_the_component_repository() {
    let (pipeline, step) = Pipeline::start(args(None));
    assert_eq!(step, Step::Ask(Request::OpenComponent { path: "/work/component".to_string() }));
    assert_eq!(pipeline.stage, Stage::OpeningComponent);
    assert_eq!(pipeline.args, args(None));
}

#[test]
fn failure_to_open_the_component_is_a_backend_failure() {
    let (pipeline, step) = Pipeline::start(args(None));
    let (pipeline, step) = drive(pipeline, step, vec![Response::Failed("not a repository".to_string())]);
    assert_eq!(step, Step::Finish(Err(Error::Backend("not a repository".to_string()))));
    assert_eq!(pipeline.stage, Stage::Finished(Err(Error::Backend("not a repository".to_string()))));
}

#[test]
fn finished_run_stays_finished() {
    let (pipeline, step) = Pipeline::start(args(None));
    let (pipeline, step) = drive(
        pipeline,
        step,
        vec![Response::Missing, Response::Done, Response::Exists, Response::Failed("x".to_string())],
    );
    let unexpected = Error::Backend("unexpected answer from the backend".to_string());
    assert_eq!(step, Step::Finish(Err(unexpected.clone())));
    assert_eq!(pipeline.stage, Stage::Finished(Err(unexpected)));
}

#[test]
fn unexpected_answers_fail_the_stage() {
    let (pipeline, step) = Pipeline::start(args(None));
    let mut answers = answers_up_to_checkout();
    answers[4] = Response::Submodules(vec![]);
    let (_, step) = drive(pipeline, step, answers);
    assert_eq!(
        step,
        Step::Finish(Err(Error::CompositeCheckoutFailed(
            "unexpected answer from the backend".to_string()
        )))
    );
}

#[test]
fn checkout_failures_are_checkout_errors() {
    for at in 4..8 {
        let (pipeline, step) = Pipeline::start(args(None));
        let mut answers = answers_up_to_checkout();
        answers[at] = Response::Failed("index locked".to_string());
        answers.truncate(at + 1);
        let (_, step) = drive(pipeline, step, answers);
        assert_eq!(
            step,
            Step::Finish(Err(Error::CompositeCheckoutFailed("index locked".to_string())))
        );
    }
}

#[test]
fn commit_missing_at_patch_time_is_commit_not_found() {
    let (pipeline, step) = Pipeline::start(args(None));
    let mut answers = answers_up_to_checkout();
    answers.push(Response::Submodules(vec!["services/foo".to_string()]));
    answers.push(Response::Exists);
    answers.push(Response::Missing);
    let (_, step) = drive(pipeline, step, answers);
    assert_eq!(step, Step::Finish(Err(Error::CommitNotFound)));

    let (pipeline, step) = Pipeline::start(args(None));
    let mut answers = answers_up_to_checkout();
    answers.push(Response::Submodules(vec!["services/foo".to_string()]));
    answers.push(Response::Exists);
    answers.push(Response::Metadata(CommitMetadata {
        message: Some("m".to_string()),
        author: Some(identity("ada")),
        committer: Some(identity("bob")),
    }));
    answers.push(Response::Missing);
    let (_, step) = drive(pipeline, step, answers);
    assert_eq!(step, Step::Finish(Err(Error::CommitNotFound)));
}

#[test]
fn probing_keeps_the_cursor_on_the_repository_that_is_asked_about() {
    let (pipeline, step) = Pipeline::start(args(None));
    let mut answers = answers_up_to_checkout();
    answers.push(Response::Submodules(vec!["a".to_string(), "b".to_string(), "c".to_string()]));
    answers.push(Response::Missing);
    let (pipeline, step) = drive(pipeline, step, answers);
    assert_eq!(
        step,
        Step::Ask(Request::ProbeSubmodule { path: "b".to_string(), commit: CommitId::new(A) })
    );
    match pipeline.stage {
        Stage::Probing { cursor, paths, .. } => {
            assert_eq!(cursor, 1);
            assert_eq!(paths, vec!["a".to_string(), "b".to_string(), "c".to_string()]);
        }
        other => panic!("unexpected {:?}", other),
    }
}
