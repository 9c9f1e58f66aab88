use composite_sync::args::Args;
use composite_sync::commit_id::CommitId;
use composite_sync::error::Error;
use composite_sync::protocol::Head;
use composite_sync::refs::{get_branch_name_from_ref, git_ref, head_id};

fn args(given: Option<&str>) -> Args {
    Args {
        repository: ".".to_string(),
        git_ref: given.map(|s| s.to_string()),
        composite_repository: "https://example.org/composite.git".to_string(),
        custom_headers: vec![],
    }
}

fn head(name: Option<&str>, is_branch: bool, byte: u8) -> Head {
    Head { name: name.map(|s| s.to_string()), is_branch, commit: CommitId::new([byte; 20]) }
}

#[test]
fn branch_name_is_what_follows_the_prefix() {
    assert_eq!(get_branch_name_from_ref("refs/heads/main"), Ok("main"));
    assert_eq!(get_branch_name_from_ref("refs/heads/feature/x"), Ok("feature/x"));
}

#[test]
fn branch_name_may_be_empty() {
    assert_eq!(get_branch_name_from_ref("refs/heads/"), Ok(""));
}

#[test]
fn ref_without_the_prefix_is_no_branch() {
    assert_eq!(get_branch_name_from_ref("main"), Err(Error::NotABranch));
    assert_eq!(get_branch_name_from_ref("refs/tags/v1"), Err(Error::NotABranch));
    assert_eq!(get_branch_name_from_ref("HEAD"), Err(Error::NotABranch));
    assert_eq!(get_branch_name_from_ref(""), Err(Error::NotABranch));
    assert_eq!(get_branch_name_from_ref("refs/heads"), Err(Error::NotABranch));
    assert_eq!(get_branch_name_from_ref("xrefs/heads/main"), Err(Error::NotABranch));
}

#[test]
fn given_ref_is_used_verbatim() {
    let resolved = git_ref(&args(Some("refs/heads/release")), &head(Some("HEAD"), false, 1));
    assert_eq!(resolved, Ok("refs/heads/release".to_string()));
    let resolved =
        git_ref(&args(Some("refs/heads/release")), &head(Some("refs/heads/main"), true, 1));
    assert_eq!(resolved, Ok("refs/heads/release".to_string()));
}

#[test]
fn given_ref_is_used_verbatim_whatever_it_names() {
    let resolved = git_ref(&args(Some("refs/tags/v1")), &head(Some("refs/heads/main"), true, 1));
    assert_eq!(resolved, Ok("refs/tags/v1".to_string()));
    let resolved = git_ref(&args(Some("main")), &head(None, false, 1));
    assert_eq!(resolved, Ok("main".to_string()));
    let resolved = git_ref(&args(Some("")), &head(Some("HEAD"), false, 1));
    assert_eq!(resolved, Ok("".to_string()));
}

#[test]
fn head_on_a_branch_gives_its_full_name() {
    let resolved = git_ref(&args(None), &head(Some("refs/heads/main"), true, 1));
    assert_eq!(resolved, Ok("refs/heads/main".to_string()));
}

#[test]
fn detached_head_without_a_given_ref_is_refused() {
    assert_eq!(git_ref(&args(None), &head(Some("HEAD"), false, 1)), Err(Error::NotABranch));
    assert_eq!(git_ref(&args(None), &head(None, false, 1)), Err(Error::NotABranch));
}

#[test]
fn head_without_a_readable_name_is_refused() {
    assert_eq!(git_ref(&args(None), &head(None, true, 1)), Err(Error::NotABranch));
}

#[test]
fn head_reported_as_a_branch_gives_its_name_as_it_is() {
    assert_eq!(
        git_ref(&args(None), &head(Some("refs/remotes/origin/x"), true, 1)),
        Ok("refs/remotes/origin/x".to_string())
    );
}

#[test]
fn head_id_is_the_commit_of_the_ref_when_checked_out() {
    let a = CommitId::new([7; 20]);
    assert_eq!(head_id(a, CommitId::new([7; 20])), Ok(a));
}

#[test]
fn head_id_refuses_a_ref_that_is_not_checked_out() {
    let mut other = [7u8; 20];
    other[19] = 8;
    assert_eq!(head_id(CommitId::new([7; 20]), CommitId::new(other)), Err(Error::RefMismatch));
    let mut first = [7u8; 20];
    first[0] = 0;
    assert_eq!(head_id(CommitId::new(first), CommitId::new([7; 20])), Err(Error::RefMismatch));
}

#[test]
fn commit_ids_compare_by_their_bytes() {
    let a = CommitId::new([1; 20]);
    let mut bytes = [1u8; 20];
    assert!(a.same(&CommitId::new(bytes)));
    bytes[10] = 2;
    assert!(!a.same(&CommitId::new(bytes)));
}

#[test]
fn custom_headers_are_borrowed_in_order() {
    let mut a = args(None);
    assert_eq!(a.custom_headers_ref(), Vec::<&str>::new());
    a.custom_headers = vec!["AUTHORIZATION: basic abc".to_string(), "X-Trace: 1".to_string()];
    assert_eq!(a.custom_headers_ref(), vec!["AUTHORIZATION: basic abc", "X-Trace: 1"]);
}
