use composite_sync::commit_id::CommitId;
use composite_sync::committer::commit;
use composite_sync::error::Error;
use composite_sync::protocol::{CommitMetadata, Head, Identity, Request, Response};
use composite_sync::pusher::push;
use composite_sync::text::{borrow_texts, clone_texts};

fn identity(name: &str) -> Identity {
    Identity {
        name: name.to_string(),
        email: format!("{}@example.org", name),
        seconds: 1_700_000_000,
        offset_minutes: -120,
    }
}

fn metadata(message: Option<&str>) -> CommitMetadata {
    CommitMetadata {
        message: message.map(|s| s.to_string()),
        author: Some(identity("ada")),
        committer: Some(identity("bob")),
    }
}

fn counting() -> [u8; 20] {
    let mut bytes = [0u8; 20];
    for i in 0..20 {
        bytes[i] = (i as u8) * 13 + 1;
    }
    bytes
}

#[test]
fn hex_is_forty_lower_case_digits() {
    assert_eq!(CommitId::new([0; 20]).hex(), "0000000000000000000000000000000000000000");
    assert_eq!(CommitId::new([0xab; 20]).hex(), "abababababababababababababababababababab");
    assert_eq!(CommitId::new([0xff; 20]).hex(), "ffffffffffffffffffffffffffffffffffffffff");
}

#[test]
fn hex_writes_the_high_half_of_each_byte_first() {
    assert_eq!(CommitId::new(counting()).hex(), "010e1b2835424f5c697683909daab7c4d1deebf8");
    let mut bytes = [0u8; 20];
    bytes[0] = 0x1f;
    bytes[19] = 0xe0;
    assert_eq!(CommitId::new(bytes).hex(), "1f000000000000000000000000000000000000e0");
}

#[test]
fn commit_message_has_headline_separator_and_propagated_message() {
    let request = commit("services/foo", &CommitId::new([0xa1; 20]), metadata(Some("fix bug")));
    assert_eq!(
        request,
        Ok(Request::CreateCommit {
            message: "Update submodule services/foo to a1a1a1a1a1a1a1a1a1a1a1a1a1a1a1a1a1a1a1a1\n---\nfix bug"
                .to_string(),
            author: identity("ada"),
            committer: identity("bob"),
        })
    );
}

#[test]
fn commit_message_keeps_the_propagated_message_verbatim() {
    let propagated = "subject\n\nbody with trailing newline\n";
    match commit("lib", &CommitId::new([0; 20]), metadata(Some(propagated))) {
        Ok(Request::CreateCommit { message, .. }) => {
            assert_eq!(
                message,
                format!("Update submodule lib to {}\n---\n{}", "0".repeat(40), propagated)
            );
        }
        other => panic!("unexpected {:?}", other),
    }
    match commit("lib", &CommitId::new([0; 20]), metadata(Some(""))) {
        Ok(Request::CreateCommit { message, .. }) => {
            assert_eq!(message, format!("Update submodule lib to {}\n---\n", "0".repeat(40)));
        }
        other => panic!("unexpected {:?}", other),
    }
}

#[test]
fn commit_without_a_message_is_refused() {
    assert_eq!(
        commit("lib", &CommitId::new([1; 20]), metadata(None)),
        Err(Error::InvalidCommitMetadata)
    );
}

#[test]
fn commit_without_an_identity_is_refused() {
    let mut no_author = metadata(Some("m"));
    no_author.author = None;
    assert_eq!(commit("lib", &CommitId::new([1; 20]), no_author), Err(Error::InvalidCommitMetadata));
    let mut no_committer = metadata(Some("m"));
    no_committer.committer = None;
    assert_eq!(
        commit("lib", &CommitId::new([1; 20]), no_committer),
        Err(Error::InvalidCommitMetadata)
    );
}

fn head_on(name: Option<&str>, is_branch: bool) -> Head {
    Head { name: name.map(|s| s.to_string()), is_branch, commit: CommitId::new([1; 20]) }
}

#[test]
fn push_sends_the_branch_of_the_head_to_the_branch_of_the_same_name() {
    let headers = vec!["AUTHORIZATION: basic abc".to_string()];
    assert_eq!(
        push(&head_on(Some("refs/heads/main"), true), &headers),
        Ok(Request::Push {
            refspec: "refs/heads/main:refs/heads/main".to_string(),
            headers: headers.clone(),
        })
    );
    assert_eq!(
        push(&head_on(Some("refs/heads/feature/x"), true), &vec![]),
        Ok(Request::Push {
            refspec: "refs/heads/feature/x:refs/heads/feature/x".to_string(),
            headers: vec![],
        })
    );
}

#[test]
fn push_does_not_force() {
    match push(&head_on(Some("refs/heads/b"), true), &vec![]) {
        Ok(Request::Push { refspec, .. }) => {
            assert_eq!(refspec, "refs/heads/b:refs/heads/b");
            assert!(!refspec.starts_with('+'));
        }
        other => panic!("unexpected {:?}", other),
    }
}

#[test]
fn push_from_a_detached_head_is_refused() {
    assert_eq!(push(&head_on(Some("HEAD"), false), &vec![]), Err(Error::CompositeNotOnBranch));
    assert_eq!(
        push(&head_on(Some("refs/heads/main"), false), &vec![]),
        Err(Error::CompositeNotOnBranch)
    );
}

#[test]
fn push_from_a_branch_without_a_readable_name_is_refused() {
    assert_eq!(push(&head_on(None, true), &vec![]), Err(Error::CompositeNotOnBranch));
}

#[test]
fn error_messages() {
    assert_eq!(Error::NotABranch.message(), "No branch name given and HEAD is not a branch");
    assert_eq!(Error::RefMismatch.message(), "HEAD is not on the given branch");
    assert_eq!(
        Error::CloneFailed("timeout".to_string()).message(),
        "Cloning the composite repository failed: timeout"
    );
    assert_eq!(
        Error::CompositeCheckoutFailed("locked".to_string()).message(),
        "Preparing the composite branch failed: locked"
    );
    assert_eq!(Error::SubmoduleNotFound.message(), "No submodule found");
    assert_eq!(Error::CommitNotFound.message(), "The submodule does not hold the commit");
    assert_eq!(
        Error::InvalidCommitMetadata.message(),
        "The commit's message or identities cannot be reused"
    );
    assert_eq!(Error::CompositeNotOnBranch.message(), "Composite repository is not on a branch");
    assert_eq!(Error::PushFailed("rejected: non-fast-forward".to_string()).message(), "rejected: non-fast-forward");
    assert_eq!(Error::Backend("no such repository".to_string()).message(), "no such repository");
}

#[test]
fn error_duplicate_keeps_kind_and_text() {
    let errors = vec![
        Error::NotABranch,
        Error::RefMismatch,
        Error::CloneFailed("a".to_string()),
        Error::CompositeCheckoutFailed("b".to_string()),
        Error::SubmoduleNotFound,
        Error::CommitNotFound,
        Error::InvalidCommitMetadata,
        Error::CompositeNotOnBranch,
        Error::PushFailed("c".to_string()),
        Error::Backend("d".to_string()),
    ];
    for e in errors {
        assert_eq!(e.duplicate(), e);
    }
}

#[test]
fn detail_of_an_answer() {
    assert_eq!(Response::Failed("disk full".to_string()).detail(), "disk full");
    assert_eq!(Response::Done.detail(), "unexpected answer from the backend");
    assert_eq!(Response::Missing.detail(), "unexpected answer from the backend");
    assert_eq!(Response::Submodules(vec![]).detail(), "unexpected answer from the backend");
}

#[test]
fn texts_are_borrowed_in_order() {
    let v = vec!["a".to_string(), "".to_string(), "c".to_string()];
    assert_eq!(borrow_texts(&v), vec!["a", "", "c"]);
    assert_eq!(borrow_texts(&vec![]), Vec::<&str>::new());
}

#[test]
fn texts_are_cloned_in_order() {
    let v = vec!["a".to_string(), "".to_string(), "c".to_string()];
    assert_eq!(clone_texts(&v), v);
    assert_eq!(clone_texts(&vec![]), Vec::<String>::new());
}
