use virtual_branches::{Call, Command, Error, Flow, Operation, Outcome, PushKey, Reply, Step};

fn expect_run(cmd: Command, step: Step) {
    match cmd {
        Command::Run(s) => assert_eq!(s, step),
        other => panic!("expected {:?}, got {:?}", step, other),
    }
}

fn expect_call(cmd: Command, call: Call) {
    match cmd {
        Command::Call(c) => assert_eq!(c, call),
        other => panic!("expected {:?}, got {:?}", call, other),
    }
}

fn expect_finish(cmd: Command, outcome: Outcome) {
    match cmd {
        Command::Finish(o) => assert_eq!(o, outcome),
        other => panic!("expected {:?}, got {:?}", outcome, other),
    }
}

/// Answers the opening steps and the branch check with success.
fn open_and_verify(flow: &mut Flow) {
    expect_run(flow.advance(Reply::Done), Step::OpenProjectRepository);
    expect_run(flow.advance(Reply::Done), Step::GetUser);
    expect_run(flow.advance(Reply::Done), Step::OpenGbRepository);
    expect_run(flow.advance(Reply::Done), Step::VerifyBranch);
}

fn commit_op() -> Operation {
    Operation::CreateCommit { branch: "feature".to_string(), message: "fix it".to_string() }
}

#[test]
fn commit_runs_all_steps_when_signing() {
    let (mut flow, cmd) = Flow::start(commit_op());
    expect_run(cmd, Step::GetProject);
    open_and_verify(&mut flow);
    expect_run(flow.advance(Reply::Done), Step::CheckConflicting);
    expect_run(flow.advance(Reply::Answer(false)), Step::ReadSignCommits);
    expect_run(flow.advance(Reply::Answer(true)), Step::GetSigningKey);
    expect_call(
        flow.advance(Reply::Done),
        Call::Commit { branch: "feature".to_string(), message: "fix it".to_string(), signed: true },
    );
    expect_finish(flow.advance(Reply::Done), Outcome::Unit);
}

#[test]
fn commit_skips_the_key_when_not_signing() {
    let (mut flow, _) = Flow::start(commit_op());
    open_and_verify(&mut flow);
    expect_run(flow.advance(Reply::Done), Step::CheckConflicting);
    expect_run(flow.advance(Reply::Answer(false)), Step::ReadSignCommits);
    expect_call(
        flow.advance(Reply::Answer(false)),
        Call::Commit { branch: "feature".to_string(), message: "fix it".to_string(), signed: false },
    );
    expect_finish(flow.advance(Reply::Done), Outcome::Unit);
}

#[test]
fn commit_refused_when_conflicting() {
    let (mut flow, _) = Flow::start(commit_op());
    open_and_verify(&mut flow);
    expect_run(flow.advance(Reply::Done), Step::CheckConflicting);
    match flow.advance(Reply::Answer(true)) {
        Command::Fail(e) => {
            assert!(matches!(e, Error::Conflicting));
            assert_eq!(e.message(), "project is in a conflicted state");
        }
        other => panic!("unexpected {:?}", other),
    }
}

#[test]
fn merge_upstream_of_the_given_branch() {
    let op = Operation::MergeVirtualBranchUpstream { branch: "b1".to_string() };
    let (mut flow, _) = Flow::start(op);
    open_and_verify(&mut flow);
    expect_run(flow.advance(Reply::Done), Step::CheckConflicting);
    expect_run(flow.advance(Reply::Answer(false)), Step::ReadSignCommits);
    expect_run(flow.advance(Reply::Answer(true)), Step::GetSigningKey);
    expect_call(
        flow.advance(Reply::Done),
        Call::MergeUpstream { branch: "b1".to_string(), signed: true },
    );
    expect_finish(flow.advance(Reply::Done), Outcome::CallResult);
}

#[test]
fn apply_the_given_branch() {
    let (mut flow, _) = Flow::start(Operation::ApplyVirtualBranch { branch_id: "b2".to_string() });
    open_and_verify(&mut flow);
    expect_run(flow.advance(Reply::Done), Step::ReadSignCommits);
    expect_call(
        flow.advance(Reply::Answer(false)),
        Call::ApplyBranch { branch_id: "b2".to_string(), signed: false },
    );
    match flow.advance(Reply::Failed("cannot apply".to_string())) {
        Command::Fail(Error::Other { message, cause }) => {
            assert_eq!(message, "cannot apply");
            assert_eq!(cause, None);
        }
        other => panic!("unexpected {:?}", other),
    }
}

#[test]
fn reset_and_unapply_and_delete_the_given_branch() {
    let (mut flow, _) = Flow::start(Operation::ResetVirtualBranch { branch_id: "b3".to_string() });
    open_and_verify(&mut flow);
    expect_call(flow.advance(Reply::Done), Call::ResetBranch { branch_id: "b3".to_string() });
    expect_finish(flow.advance(Reply::Done), Outcome::CallResult);

    let (mut flow, _) = Flow::start(Operation::UnapplyVirtualBranch { branch_id: "b4".to_string() });
    open_and_verify(&mut flow);
    expect_call(flow.advance(Reply::Done), Call::UnapplyBranch { branch_id: "b4".to_string() });

    let (mut flow, _) = Flow::start(Operation::DeleteVirtualBranch { branch_id: "b5".to_string() });
    open_and_verify(&mut flow);
    expect_call(flow.advance(Reply::Done), Call::DeleteBranch { branch_id: "b5".to_string() });
    expect_finish(flow.advance(Reply::Done), Outcome::Unit);
}

#[test]
fn create_branch_refused_while_resolving() {
    let (mut flow, _) = Flow::start(Operation::CreateVirtualBranch);
    open_and_verify(&mut flow);
    expect_run(flow.advance(Reply::Done), Step::CheckResolving);
    assert!(matches!(flow.advance(Reply::Answer(true)), Command::Fail(Error::Conflicting)));
}

#[test]
fn failed_verification_stops_the_operation() {
    let (mut flow, _) = Flow::start(Operation::DeleteVirtualBranch { branch_id: "x".to_string() });
    open_and_verify(&mut flow);
    match flow.advance(Reply::Failed("head is detached".to_string())) {
        Command::Fail(Error::Verify(m)) => assert_eq!(m, "head is detached"),
        other => panic!("unexpected {:?}", other),
    }
}

#[test]
fn missing_project_reports_detached_head() {
    let (mut flow, _) = Flow::start(Operation::ListVirtualBranches);
    match flow.advance(Reply::Failed("no such project".to_string())) {
        Command::Fail(e) => {
            assert!(matches!(&e, Error::GetProject(m) if m == "no such project"));
            assert_eq!(e.message(), "detached head");
        }
        other => panic!("unexpected {:?}", other),
    }
}

#[test]
fn can_apply_returns_the_answer_of_its_check() {
    let (mut flow, _) = Flow::start(Operation::CanApplyVirtualBranch { branch_id: "b6".to_string() });
    expect_run(flow.advance(Reply::Done), Step::OpenProjectRepository);
    expect_run(flow.advance(Reply::Done), Step::GetUser);
    expect_run(flow.advance(Reply::Done), Step::OpenGbRepository);
    expect_call(
        flow.advance(Reply::Done),
        Call::IsVirtualBranchMergeable { branch_id: "b6".to_string() },
    );
    expect_finish(flow.advance(Reply::Answer(true)), Outcome::Answer(true));

    let (mut flow, _) = Flow::start(Operation::CanApplyRemoteBranch);
    expect_run(flow.advance(Reply::Done), Step::OpenProjectRepository);
    expect_run(flow.advance(Reply::Done), Step::GetUser);
    expect_run(flow.advance(Reply::Done), Step::OpenGbRepository);
    expect_call(flow.advance(Reply::Done), Call::IsRemoteBranchMergeable);
    expect_finish(flow.advance(Reply::Answer(false)), Outcome::Answer(false));
}

#[test]
fn failures_with_context_keep_the_context() {
    let (mut flow, _) = Flow::start(Operation::CanApplyVirtualBranch { branch_id: "b".to_string() });
    expect_run(flow.advance(Reply::Done), Step::OpenProjectRepository);
    expect_run(flow.advance(Reply::Done), Step::GetUser);
    match flow.advance(Reply::Failed("io error".to_string())) {
        Command::Fail(e) => {
            assert_eq!(e.message(), "failed to get user");
            assert!(matches!(&e, Error::Other { cause: Some(c), .. } if c == "io error"));
        }
        other => panic!("unexpected {:?}", other),
    }

    let (mut flow, _) = Flow::start(Operation::ListRemoteCommitFiles);
    expect_run(flow.advance(Reply::Done), Step::OpenProjectRepository);
    expect_run(flow.advance(Reply::Done), Step::FindCommit);
    match flow.advance(Reply::Failed("bad oid".to_string())) {
        Command::Fail(Error::Other { message, cause }) => {
            assert_eq!(message, "failed to find commit");
            assert_eq!(cause.as_deref(), Some("bad oid"));
        }
        other => panic!("unexpected {:?}", other),
    }
}

#[test]
fn set_base_branch_reads_user_before_repository() {
    let (mut flow, cmd) = Flow::start(Operation::SetBaseBranch);
    expect_run(cmd, Step::GetProject);
    expect_run(flow.advance(Reply::Done), Step::GetUser);
    expect_run(flow.advance(Reply::Done), Step::OpenProjectRepository);
    match flow.advance(Reply::Failed("not a repository".to_string())) {
        Command::Fail(Error::OpenProjectRepository(m)) => assert_eq!(m, "not a repository"),
        other => panic!("unexpected {:?}", other),
    }
}

fn push_op() -> Operation {
    Operation::PushVirtualBranch { branch_id: "b7".to_string(), with_force: true }
}

#[test]
fn push_with_local_key_and_remote_failure() {
    let (mut flow, _) = Flow::start(push_op());
    open_and_verify(&mut flow);
    expect_run(flow.advance(Reply::Done), Step::ReadPreferredKey);
    expect_call(
        flow.advance(Reply::Answer(false)),
        Call::Push { branch_id: "b7".to_string(), with_force: true, key: PushKey::Local },
    );
    match flow.advance(Reply::RemoteFailed("rejected".to_string())) {
        Command::Fail(Error::ProjectRemote(m)) => assert_eq!(m, "rejected"),
        other => panic!("unexpected {:?}", other),
    }
}

#[test]
fn push_with_generated_key() {
    let (mut flow, _) = Flow::start(push_op());
    open_and_verify(&mut flow);
    expect_run(flow.advance(Reply::Done), Step::ReadPreferredKey);
    expect_run(flow.advance(Reply::Answer(true)), Step::GetPushKey);
    expect_call(
        flow.advance(Reply::Done),
        Call::Push { branch_id: "b7".to_string(), with_force: true, key: PushKey::Generated },
    );
    expect_finish(flow.advance(Reply::Done), Outcome::CallResult);
}

#[test]
fn push_key_failure() {
    let (mut flow, _) = Flow::start(push_op());
    open_and_verify(&mut flow);
    expect_run(flow.advance(Reply::Done), Step::ReadPreferredKey);
    expect_run(flow.advance(Reply::Answer(true)), Step::GetPushKey);
    match flow.advance(Reply::Failed("no key".to_string())) {
        Command::Fail(Error::Other { message, cause }) => {
            assert_eq!(message, "failed to get or create private key");
            assert_eq!(cause.as_deref(), Some("no key"));
        }
        other => panic!("unexpected {:?}", other),
    }
}

#[test]
fn branch_from_branch_applies_and_returns_the_created_branch() {
    let (mut flow, _) = Flow::start(Operation::CreateVirtualBranchFromBranch);
    open_and_verify(&mut flow);
    expect_run(flow.advance(Reply::Done), Step::CreateBranchFromBranch);
    expect_run(flow.advance(Reply::Created("new-id".to_string())), Step::ReadSignCommits);
    expect_run(flow.advance(Reply::Answer(true)), Step::GetSigningKey);
    expect_call(
        flow.advance(Reply::Done),
        Call::ApplyBranch { branch_id: "new-id".to_string(), signed: true },
    );
    expect_finish(flow.advance(Reply::Done), Outcome::BranchId("new-id".to_string()));
}

#[test]
fn locked_operations_are_those_that_verify() {
    let locked = [
        commit_op(),
        Operation::ListVirtualBranches,
        Operation::CreateVirtualBranch,
        Operation::CreateVirtualBranchFromBranch,
        Operation::MergeVirtualBranchUpstream { branch: "b".to_string() },
        Operation::UpdateBaseBranch,
        Operation::UpdateVirtualBranch,
        Operation::DeleteVirtualBranch { branch_id: "b".to_string() },
        Operation::ApplyVirtualBranch { branch_id: "b".to_string() },
        Operation::UnapplyOwnership,
        Operation::ResetVirtualBranch { branch_id: "b".to_string() },
        Operation::UnapplyVirtualBranch { branch_id: "b".to_string() },
        push_op(),
    ];
    let unlocked = [
        Operation::CanApplyRemoteBranch,
        Operation::CanApplyVirtualBranch { branch_id: "b".to_string() },
        Operation::GetBaseBranchData,
        Operation::ListRemoteCommitFiles,
        Operation::SetBaseBranch,
    ];
    for op in locked {
        assert!(op.takes_lock());
        assert!(op.steps().contains(&Step::VerifyBranch));
    }
    for op in unlocked {
        assert!(!op.takes_lock());
        assert!(!op.steps().contains(&Step::VerifyBranch));
    }
}

#[test]
fn messages_of_carried_errors() {
    let other = Error::Other { message: "boom".to_string(), cause: Some("why".to_string()) };
    assert_eq!(other.message(), "boom");
    assert_eq!(Error::Verify("off branch".to_string()).message(), "off branch");
}

#[test]
fn accepts_only_replies_that_fit_the_step() {
    let (mut flow, _) = Flow::start(commit_op());
    assert!(flow.accepts(&Reply::Done));
    assert!(flow.accepts(&Reply::Failed("x".to_string())));
    assert!(!flow.accepts(&Reply::Answer(true)));
    assert!(!flow.accepts(&Reply::RemoteFailed("x".to_string())));
    assert!(!flow.accepts(&Reply::Created("x".to_string())));
    open_and_verify(&mut flow);
    flow.advance(Reply::Done);
    assert!(flow.accepts(&Reply::Answer(false)));
    assert!(!flow.accepts(&Reply::Done));

    let (mut flow, _) = Flow::start(push_op());
    open_and_verify(&mut flow);
    flow.advance(Reply::Done);
    assert!(!flow.accepts(&Reply::Failed("x".to_string())));
    flow.advance(Reply::Answer(false));
    assert!(flow.accepts(&Reply::RemoteFailed("x".to_string())));
    flow.advance(Reply::Done);
    assert!(!flow.accepts(&Reply::Done));

    let (mut flow, _) = Flow::start(Operation::CreateVirtualBranchFromBranch);
    open_and_verify(&mut flow);
    flow.advance(Reply::Done);
    assert!(!flow.accepts(&Reply::Done));
    assert!(flow.accepts(&Reply::Created("id".to_string())));

    let (mut flow, _) = Flow::start(Operation::CanApplyRemoteBranch);
    for _ in 0..4 {
        flow.advance(Reply::Done);
    }
    assert!(!flow.accepts(&Reply::Done));
    assert!(flow.accepts(&Reply::Answer(true)));
}
