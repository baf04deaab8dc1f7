use vstd::prelude::*;

verus! {

/// What can go wrong in an operation of the virtual branch controller.
#[derive(Debug, Clone)]
pub enum Error {
    /// The project could not be found.
    GetProject(String),
    /// The project's repository could not be opened.
    OpenProjectRepository(String),
    /// The working directory is not on the integration branch.
    Verify(String),
    /// The remote refused or could not be reached.
    ProjectRemote(String),
    /// The project is in a conflicted state.
    Conflicting,
    /// Any other failure: the message it is shown with and, when that message
    /// describes what was being done, the message of the failure that caused it.
    Other { message: String, cause: Option<String> },
}

/// An `Error` seen with its messages as character sequences.
pub enum ErrorView {
    GetProject(Seq<char>),
    OpenProjectRepository(Seq<char>),
    Verify(Seq<char>),
    ProjectRemote(Seq<char>),
    Conflicting,
    Other(Seq<char>, Option<Seq<char>>),
}

/// An optional message seen as an optional character sequence.
pub open spec fn optional_text(m: Option<String>) -> Option<Seq<char>> {
    match m {
        Some(t) => Some(t@),
        None => None,
    }
}

impl View for Error {
    type V = ErrorView;

    open spec fn view(&self) -> ErrorView {
        match self {
            Error::GetProject(m) => ErrorView::GetProject(m@),
            Error::OpenProjectRepository(m) => ErrorView::OpenProjectRepository(m@),
            Error::Verify(m) => ErrorView::Verify(m@),
            Error::ProjectRemote(m) => ErrorView::ProjectRemote(m@),
            Error::Conflicting => ErrorView::Conflicting,
            Error::Other { message, cause } => ErrorView::Other(message@, optional_text(*cause)),
        }
    }
}

/// The message shown for an error: fixed texts for a missing project and a
/// conflicted one, the carried message otherwise.
pub open spec fn error_text(e: ErrorView) -> Seq<char> {
    match e {
        ErrorView::GetProject(_) => "detached head"@,
        ErrorView::OpenProjectRepository(m) => m,
        ErrorView::Verify(m) => m,
        ErrorView::ProjectRemote(m) => m,
        ErrorView::Conflicting => "project is in a conflicted state"@,
        ErrorView::Other(m, _) => m,
    }
}

impl Error {
    /// The message shown for the error.
    pub fn message(&self) -> (text: String)
        ensures
            text@ == error_text(self@),
    {
        match self {
            Error::GetProject(_) => String::from_str("detached head"),
            Error::OpenProjectRepository(m) => m.clone(),
            Error::Verify(m) => m.clone(),
            Error::ProjectRemote(m) => m.clone(),
            Error::Conflicting => String::from_str("project is in a conflicted state"),
            Error::Other { message, .. } => message.clone(),
        }
    }
}

/// An operation of the virtual branch controller, with its arguments that
/// are plain values (the others, such as git object ids, branch names,
/// ownership claims and requests, stay with the caller).
#[derive(Debug, Clone, PartialEq, Eq)]
pub enum Operation {
    /// Commit `message` to the virtual branch `branch`.
    CreateCommit { branch: String, message: String },
    /// Whether a remote branch can be applied without conflicts.
    CanApplyRemoteBranch,
    /// Whether the virtual branch `branch_id` can be applied without conflicts.
    CanApplyVirtualBranch { branch_id: String },
    ListVirtualBranches,
    CreateVirtualBranch,
    /// Create a virtual branch from a branch, apply it and return its id.
    CreateVirtualBranchFromBranch,
    GetBaseBranchData,
    ListRemoteCommitFiles,
    SetBaseBranch,
    /// Merge the upstream of the virtual branch `branch` into it.
    MergeVirtualBranchUpstream { branch: String },
    UpdateBaseBranch,
    UpdateVirtualBranch,
    DeleteVirtualBranch { branch_id: String },
    ApplyVirtualBranch { branch_id: String },
    UnapplyOwnership,
    /// Reset the virtual branch `branch_id` to a commit.
    ResetVirtualBranch { branch_id: String },
    UnapplyVirtualBranch { branch_id: String },
    /// Push the virtual branch `branch_id`, forcing it when `with_force`.
    PushVirtualBranch { branch_id: String, with_force: bool },
}

/// Which key a push is made with.
#[derive(Debug, Clone, Copy, PartialEq, Eq, Structural)]
pub enum PushKey {
    /// The local key file that the project prefers.
    Local,
    /// The generated key, got by the key step.
    Generated,
}

/// The call into the branch logic that ends an operation, with its plain
/// arguments; `signed` says whether it is given the signing key.
#[derive(Debug, Clone, PartialEq, Eq)]
pub enum Call {
    Commit { branch: String, message: String, signed: bool },
    IsRemoteBranchMergeable,
    IsVirtualBranchMergeable { branch_id: String },
    ListVirtualBranches,
    CreateVirtualBranch,
    ApplyBranch { branch_id: String, signed: bool },
    GetBaseBranchData,
    ListRemoteCommitFiles,
    SetBaseBranch,
    MergeUpstream { branch: String, signed: bool },
    UpdateBaseBranch,
    UpdateBranch,
    DeleteBranch { branch_id: String },
    UnapplyOwnership,
    ResetBranch { branch_id: String },
    UnapplyBranch { branch_id: String },
    Push { branch_id: String, with_force: bool, key: PushKey },
}

/// What a finished operation returns.
#[derive(Debug, Clone, PartialEq, Eq)]
pub enum Outcome {
    /// Nothing.
    Unit,
    /// What its call returned.
    CallResult,
    /// The answer its call gave.
    Answer(bool),
    /// The id of the branch it created.
    BranchId(String),
}

/// What an operation has learned from the replies so far.
#[derive(Debug)]
pub struct Record {
    /// The signing key was got.
    pub signed: bool,
    /// The project prefers the generated key for pushing.
    pub generated_key: bool,
    /// The id of the branch that was created.
    pub created: Option<String>,
    /// The answer of the operation's call, for a call that answers.
    pub answer: bool,
}

/// What an operation knows when it starts.
pub open spec fn initial_record() -> Record {
    Record { signed: false, generated_key: false, created: None, answer: false }
}


/// A piece of outside work that an operation asks for.
#[derive(Debug, Clone, Copy, PartialEq, Eq, Structural)]
pub enum Step {
    /// Look the project up by its id.
    GetProject,
    /// Open the project's git repository.
    OpenProjectRepository,
    /// Read the signed-in user.
    GetUser,
    /// Open the gitbutler repository of the project.
    OpenGbRepository,
    /// Check that the working directory is on the integration branch.
    VerifyBranch,
    /// Find the commit that the operation is about.
    FindCommit,
    /// Ask whether the repository is in a conflicted state (a question).
    CheckConflicting,
    /// Ask whether a conflict is being resolved (a question that cannot fail).
    CheckResolving,
    /// Ask whether commits are to be signed (a question).
    ReadSignCommits,
    /// Get or create the key that commits are signed with.
    GetSigningKey,
    /// Ask whether the project's preferred key is the generated one, as
    /// opposed to a local key file (a question that cannot fail).
    ReadPreferredKey,
    /// Get or create the generated key to push with.
    GetPushKey,
    /// Create a virtual branch from the given branch.
    CreateBranchFromBranch,
    /// The operation's own call into the branch logic, given the key
    /// obtained before, if any.
    Perform,
}

/// How a piece of outside work ended.
#[derive(Debug)]
pub enum Reply {
    /// It succeeded.
    Done,
    /// The branch was created, with this id.
    Created(String),
    /// A question was answered.
    Answer(bool),
    /// It failed with this message.
    Failed(String),
    /// Pushing failed at the remote, with this message.
    RemoteFailed(String),
}

/// A `Reply` seen with its message as a character sequence.
pub enum ReplyView {
    Done,
    Created(Seq<char>),
    Answer(bool),
    Failed(Seq<char>),
    RemoteFailed(Seq<char>),
}

impl View for Reply {
    type V = ReplyView;

    open spec fn view(&self) -> ReplyView {
        match self {
            Reply::Done => ReplyView::Done,
            Reply::Created(id) => ReplyView::Created(id@),
            Reply::Answer(b) => ReplyView::Answer(*b),
            Reply::Failed(m) => ReplyView::Failed(m@),
            Reply::RemoteFailed(m) => ReplyView::RemoteFailed(m@),
        }
    }
}

/// What an operation does next.
#[derive(Debug)]
pub enum Command {
    /// Perform this step and report how it ended.
    Run(Step),
    /// Make this call (the operation's `Perform` step) and report how it ended.
    Call(Call),
    /// Return successfully, with this.
    Finish(Outcome),
    /// Return this error.
    Fail(Error),
}

/// A `Command` seen through the view of its error.
pub enum CommandView {
    Run(Step),
    Finish,
    Fail(ErrorView),
}

impl View for Command {
    type V = CommandView;

    open spec fn view(&self) -> CommandView {
        match self {
            Command::Run(s) => CommandView::Run(*s),
            Command::Call(_) => CommandView::Run(Step::Perform),
            Command::Finish(_) => CommandView::Finish,
            Command::Fail(e) => CommandView::Fail(e@),
        }
    }
}

/// The steps that open a project: the project, its repository, the user,
/// the gitbutler repository.
pub open spec fn opening() -> Seq<Step> {
    seq![Step::GetProject, Step::OpenProjectRepository, Step::GetUser, Step::OpenGbRepository]
}

/// Opening a project, then checking that it is on the integration branch.
pub open spec fn verified_opening() -> Seq<Step> {
    opening().push(Step::VerifyBranch)
}

/// Asking whether to sign, then getting the signing key.
pub open spec fn signing() -> Seq<Step> {
    seq![Step::ReadSignCommits, Step::GetSigningKey]
}

/// The operations that run under the project's lock and check the
/// integration branch first.
pub open spec fn is_locked(op: Operation) -> bool {
    !(op is CanApplyRemoteBranch || op is CanApplyVirtualBranch || op is GetBaseBranchData
        || op is ListRemoteCommitFiles || op is SetBaseBranch)
}

/// The steps of an operation, in the order it asks for them. The key step
/// after `ReadSignCommits` or `ReadPreferredKey` is skipped when the answer
/// is no.
pub open spec fn plan(op: Operation) -> Seq<Step> {
    match op {
        Operation::CreateCommit { .. } => verified_opening() + seq![Step::CheckConflicting] + signing()
            + seq![Step::Perform],
        Operation::CanApplyRemoteBranch => opening().push(Step::Perform),
        Operation::CanApplyVirtualBranch { .. } => opening().push(Step::Perform),
        Operation::ListVirtualBranches => verified_opening().push(Step::Perform),
        Operation::CreateVirtualBranch => verified_opening() + seq![
            Step::CheckResolving,
            Step::Perform,
        ],
        Operation::CreateVirtualBranchFromBranch => verified_opening() + seq![
            Step::CreateBranchFromBranch,
        ] + signing() + seq![Step::Perform],
        Operation::GetBaseBranchData => opening().push(Step::Perform),
        Operation::ListRemoteCommitFiles => seq![
            Step::GetProject,
            Step::OpenProjectRepository,
            Step::FindCommit,
            Step::Perform,
        ],
        Operation::SetBaseBranch => seq![
            Step::GetProject,
            Step::GetUser,
            Step::OpenProjectRepository,
            Step::OpenGbRepository,
            Step::Perform,
        ],
        Operation::MergeVirtualBranchUpstream { .. } => verified_opening() + seq![Step::CheckConflicting]
            + signing() + seq![Step::Perform],
        Operation::UpdateBaseBranch => verified_opening().push(Step::Perform),
        Operation::UpdateVirtualBranch => verified_opening().push(Step::Perform),
        Operation::DeleteVirtualBranch { .. } => verified_opening().push(Step::Perform),
        Operation::ApplyVirtualBranch { .. } => verified_opening() + signing() + seq![Step::Perform],
        Operation::UnapplyOwnership => verified_opening().push(Step::Perform),
        Operation::ResetVirtualBranch { .. } => verified_opening().push(Step::Perform),
        Operation::UnapplyVirtualBranch { .. } => verified_opening().push(Step::Perform),
        Operation::PushVirtualBranch { .. } => verified_opening() + seq![
            Step::ReadPreferredKey,
            Step::GetPushKey,
            Step::Perform,
        ],
    }
}

/// A step that is answered with yes or no.
pub open spec fn is_question(step: Step) -> bool {
    step is CheckConflicting || step is CheckResolving || step is ReadSignCommits
        || step is ReadPreferredKey
}

/// The operations whose call answers yes or no.
pub open spec fn answers(op: Operation) -> bool {
    op is CanApplyRemoteBranch || op is CanApplyVirtualBranch
}

/// Which replies a step can get.
pub open spec fn fits(op: Operation, step: Step, reply: ReplyView) -> bool {
    match reply {
        ReplyView::Done => !is_question(step) && !(step is CreateBranchFromBranch) && !(
        step is Perform && answers(op)),
        ReplyView::Created(_) => step is CreateBranchFromBranch,
        ReplyView::Answer(_) => is_question(step) || (step is Perform && answers(op)),
        ReplyView::Failed(_) => !(step is CheckResolving || step is ReadPreferredKey),
        ReplyView::RemoteFailed(_) => op is PushVirtualBranch && step is Perform,
    }
}

/// The error an operation returns when `step` fails with `message`: some
/// steps keep the message under their own kind of error, others show a
/// fixed description of what was being done and keep the message as its
/// cause.
pub open spec fn failure(op: Operation, step: Step, message: Seq<char>, remote: bool) -> ErrorView {
    match step {
        Step::GetProject => ErrorView::GetProject(message),
        Step::OpenProjectRepository => ErrorView::OpenProjectRepository(message),
        Step::GetUser => ErrorView::Other(
            "failed to get user"@,
            Some(message),
        ),
        Step::OpenGbRepository => ErrorView::Other(
            "failed to open gitbutler repository"@,
            Some(message),
        ),
        Step::VerifyBranch => ErrorView::Verify(message),
        Step::FindCommit => ErrorView::Other(
            "failed to find commit"@,
            Some(message),
        ),
        Step::CheckConflicting => ErrorView::Other(
            "failed to check for conflicts"@,
            Some(message),
        ),
        Step::CheckResolving => ErrorView::Other(message, None),
        Step::ReadSignCommits => ErrorView::Other(
            "failed to get sign commits option"@,
            Some(message),
        ),
        Step::GetSigningKey => ErrorView::Other(
            "failed to get private key"@,
            Some(message),
        ),
        Step::ReadPreferredKey => ErrorView::Other(message, None),
        Step::GetPushKey => ErrorView::Other(
            "failed to get or create private key"@,
            Some(message),
        ),
        Step::CreateBranchFromBranch => ErrorView::Other(message, None),
        Step::Perform => if remote && op is PushVirtualBranch {
            ErrorView::ProjectRemote(message)
        } else {
            ErrorView::Other(message, None)
        },
    }
}

/// Going on at position `p` of the plan: run its step, or finish past the end.
pub open spec fn go_on(op: Operation, p: nat) -> (nat, CommandView) {
    if p < plan(op).len() {
        (p, CommandView::Run(plan(op)[p as int]))
    } else {
        (p, CommandView::Finish)
    }
}

/// The position and the command that follow the reply to the step at `p`.
pub open spec fn respond(op: Operation, p: nat, reply: ReplyView) -> (nat, CommandView) {
    let step = plan(op)[p as int];
    match reply {
        ReplyView::Failed(m) => (p, CommandView::Fail(failure(op, step, m, false))),
        ReplyView::RemoteFailed(m) => (p, CommandView::Fail(failure(op, step, m, true))),
        ReplyView::Done => go_on(op, p + 1),
        ReplyView::Created(_) => go_on(op, p + 1),
        ReplyView::Answer(yes) => if step is CheckConflicting || step is CheckResolving {
            if yes {
                (p, CommandView::Fail(ErrorView::Conflicting))
            } else {
                go_on(op, p + 1)
            }
        } else if step is ReadSignCommits || step is ReadPreferredKey {
            if yes {
                go_on(op, p + 1)
            } else {
                go_on(op, p + 2)
            }
        } else {
            go_on(op, p + 1)
        },
    }
}

/// What an operation knows after `reply` to `step`: that it got the signing
/// key, which key the project prefers, the id of the branch it created, or
/// the answer of its call.
pub open spec fn record_reply(r: Record, step: Step, reply: Reply) -> Record {
    match reply {
        Reply::Done => if step is GetSigningKey {
            Record { signed: true, ..r }
        } else {
            r
        },
        Reply::Created(id) => Record { created: Some(id), ..r },
        Reply::Answer(yes) => if step is ReadPreferredKey {
            Record { generated_key: yes, ..r }
        } else if step is Perform {
            Record { answer: yes, ..r }
        } else {
            r
        },
        _ => r,
    }
}

/// The id of the created branch (meaningful once it was created).
pub open spec fn created_id(r: Record) -> String {
    r.created->0
}

/// The call that ends `op`, given what it learned: its own arguments, the
/// created branch for a branch made from a branch, whether the signing key
/// was got, and the preferred key for a push.
pub open spec fn call_of(op: Operation, r: Record) -> Call {
    match op {
        Operation::CreateCommit { branch, message } => Call::Commit {
            branch,
            message,
            signed: r.signed,
        },
        Operation::CanApplyRemoteBranch => Call::IsRemoteBranchMergeable,
        Operation::CanApplyVirtualBranch { branch_id } => Call::IsVirtualBranchMergeable { branch_id },
        Operation::ListVirtualBranches => Call::ListVirtualBranches,
        Operation::CreateVirtualBranch => Call::CreateVirtualBranch,
        Operation::CreateVirtualBranchFromBranch => Call::ApplyBranch {
            branch_id: created_id(r),
            signed: r.signed,
        },
        Operation::GetBaseBranchData => Call::GetBaseBranchData,
        Operation::ListRemoteCommitFiles => Call::ListRemoteCommitFiles,
        Operation::SetBaseBranch => Call::SetBaseBranch,
        Operation::MergeVirtualBranchUpstream { branch } => Call::MergeUpstream {
            branch,
            signed: r.signed,
        },
        Operation::UpdateBaseBranch => Call::UpdateBaseBranch,
        Operation::UpdateVirtualBranch => Call::UpdateBranch,
        Operation::DeleteVirtualBranch { branch_id } => Call::DeleteBranch { branch_id },
        Operation::ApplyVirtualBranch { branch_id } => Call::ApplyBranch {
            branch_id,
            signed: r.signed,
        },
        Operation::UnapplyOwnership => Call::UnapplyOwnership,
        Operation::ResetVirtualBranch { branch_id } => Call::ResetBranch { branch_id },
        Operation::UnapplyVirtualBranch { branch_id } => Call::UnapplyBranch { branch_id },
        Operation::PushVirtualBranch { branch_id, with_force } => Call::Push {
            branch_id,
            with_force,
            key: if r.generated_key {
                PushKey::Generated
            } else {
                PushKey::Local
            },
        },
    }
}

/// What `op` returns when it finishes: nothing for those that return unit
/// whatever their call gave, the answer of a mergeability check, the id of
/// the branch it created, otherwise what its call returned.
pub open spec fn outcome_of(op: Operation, r: Record) -> Outcome {
    match op {
        Operation::CreateCommit { .. } | Operation::CreateVirtualBranch
        | Operation::UpdateVirtualBranch | Operation::DeleteVirtualBranch { .. } => Outcome::Unit,
        Operation::CanApplyRemoteBranch | Operation::CanApplyVirtualBranch { .. } => Outcome::Answer(
            r.answer,
        ),
        Operation::CreateVirtualBranchFromBranch => Outcome::BranchId(created_id(r)),
        _ => Outcome::CallResult,
    }
}

/// Only the reply to the create step sets the created branch, and only a
/// successful signing-key step marks the call as signed: so the branch a
/// branch-from-branch operation applies and returns is the one its create
/// step gave back, and a call is signed only when the key was got.
pub proof fn lemma_record_changes(r: Record, step: Step, reply: Reply)
    ensures
        !(reply is Created) ==> record_reply(r, step, reply).created == r.created,
        reply matches Reply::Created(id) ==> record_reply(r, step, reply).created == Some(id),
        record_reply(r, step, reply).signed ==> r.signed || (step is GetSigningKey
            && reply is Done),
{
}

/// Whether a call is made with the signing key.
pub open spec fn call_is_signed(c: Call) -> bool {
    match c {
        Call::Commit { signed, .. } => signed,
        Call::ApplyBranch { signed, .. } => signed,
        Call::MergeUpstream { signed, .. } => signed,
        _ => false,
    }
}

/// The operations whose call is given the signing key when there is one.
pub open spec fn signs(op: Operation) -> bool {
    op is CreateCommit || op is CreateVirtualBranchFromBranch || op is MergeVirtualBranchUpstream
        || op is ApplyVirtualBranch
}

/// The call of an operation works on the operation's own arguments: the
/// commit goes to the given branch with the given message, the merge, the
/// check, the deletion, the application, the reset and the unapplication are
/// of the given branch, and the push is of the given branch, forced exactly
/// when the operation asks for it, with the generated key exactly when the
/// project prefers it.
pub proof fn lemma_call_keeps_arguments(op: Operation, r: Record)
    ensures
        op matches Operation::CreateCommit { branch, message } ==> (call_of(op, r) matches Call::Commit {
            branch: b,
            message: m,
            ..
        } && b == branch && m == message),
        op matches Operation::MergeVirtualBranchUpstream { branch } ==> (call_of(
            op,
            r,
        ) matches Call::MergeUpstream { branch: b, .. } && b == branch),
        op matches Operation::CanApplyVirtualBranch { branch_id } ==> (call_of(
            op,
            r,
        ) matches Call::IsVirtualBranchMergeable { branch_id: b } && b == branch_id),
        op matches Operation::DeleteVirtualBranch { branch_id } ==> (call_of(
            op,
            r,
        ) matches Call::DeleteBranch { branch_id: b } && b == branch_id),
        op matches Operation::ApplyVirtualBranch { branch_id } ==> (call_of(
            op,
            r,
        ) matches Call::ApplyBranch { branch_id: b, .. } && b == branch_id),
        op matches Operation::ResetVirtualBranch { branch_id } ==> (call_of(
            op,
            r,
        ) matches Call::ResetBranch { branch_id: b } && b == branch_id),
        op matches Operation::UnapplyVirtualBranch { branch_id } ==> (call_of(
            op,
            r,
        ) matches Call::UnapplyBranch { branch_id: b } && b == branch_id),
        op matches Operation::PushVirtualBranch { branch_id, with_force } ==> (call_of(
            op,
            r,
        ) matches Call::Push { branch_id: b, with_force: f, key: k } && b == branch_id && f
            == with_force && (k == PushKey::Generated <==> r.generated_key)),
{
}

/// A branch made from a branch is applied, and returned, by the id its
/// create step gave back.
pub proof fn lemma_created_branch_applied_and_returned(r: Record, id: String)
    requires
        r.created == Some(id),
    ensures
        call_of(Operation::CreateVirtualBranchFromBranch, r) matches Call::ApplyBranch {
            branch_id: b,
            ..
        } && b == id,
        outcome_of(Operation::CreateVirtualBranchFromBranch, r) == Outcome::BranchId(id),
{
}

/// A call is made with the signing key exactly when the operation signs and
/// the signing key was got; an operation starts without it, and only a
/// successful signing-key step gets it.
pub proof fn lemma_signed_only_with_key(op: Operation, r: Record, step: Step, reply: Reply)
    ensures
        call_is_signed(call_of(op, r)) <==> signs(op) && r.signed,
        !initial_record().signed,
        record_reply(r, step, reply).signed && !r.signed ==> step is GetSigningKey && reply is Done,
{
}

/// The push key follows the project's preference: answering whether the
/// generated key is preferred records that answer, an operation starts
/// without it, and no other reply changes it.
pub proof fn lemma_preferred_key_recorded(r: Record, step: Step, reply: Reply, yes: bool)
    ensures
        record_reply(r, Step::ReadPreferredKey, Reply::Answer(yes)).generated_key == yes,
        !initial_record().generated_key,
        !(step is ReadPreferredKey) ==> record_reply(r, step, reply).generated_key
            == r.generated_key,
{
}

/// A check whether a branch can be applied returns the answer that its call
/// gave, whatever it knew before.
pub proof fn lemma_check_returns_its_answer(op: Operation, r: Record, yes: bool)
    requires
        answers(op),
    ensures
        outcome_of(op, record_reply(r, Step::Perform, Reply::Answer(yes))) == Outcome::Answer(yes),
{
}

/// The operations that return what their call returned do so: listing the
/// branches, getting or setting the base branch, listing a commit's files,
/// merging, updating the base, applying, unapplying, resetting and pushing
/// never finish with nothing in its place.
pub proof fn lemma_returns_the_call_result(op: Operation, r: Record)
    requires
        op is ListVirtualBranches || op is GetBaseBranchData || op is ListRemoteCommitFiles
            || op is SetBaseBranch || op is MergeVirtualBranchUpstream || op is UpdateBaseBranch
            || op is ApplyVirtualBranch || op is UnapplyOwnership || op is ResetVirtualBranch
            || op is UnapplyVirtualBranch || op is PushVirtualBranch,
    ensures
        outcome_of(op, r) == Outcome::CallResult,
{
}

/// The operations that return nothing: committing, creating, updating and
/// deleting a branch.
pub proof fn lemma_returns_nothing(op: Operation, r: Record)
    requires
        op is CreateCommit || op is CreateVirtualBranch || op is UpdateVirtualBranch
            || op is DeleteVirtualBranch,
    ensures
        outcome_of(op, r) == Outcome::Unit,
{
}

/// Where an operation stands after the replies `replies`, from its start:
/// the position of the step it waits on (or where it ended) and its last
/// command. Replies that come after it ended change nothing.
pub open spec fn run(op: Operation, replies: Seq<ReplyView>) -> (nat, CommandView)
    decreases replies.len(),
{
    if replies.len() == 0 {
        go_on(op, 0)
    } else {
        let before = run(op, replies.drop_last());
        match before.1 {
            CommandView::Run(_) => respond(op, before.0, replies.last()),
            _ => before,
        }
    }
}

/// Each reply of `replies` is one that the step it answers can get.
pub open spec fn fitting_run(op: Operation, replies: Seq<ReplyView>) -> bool {
    forall|i: int|
        0 <= i < replies.len() ==> match #[trigger] run(op, replies.take(i)).1 {
            CommandView::Run(s) => fits(op, s, replies[i]),
            _ => true,
        }
}

/// A step after which a "no" skips the next step.
pub open spec fn skips_on_no(step: Step) -> bool {
    step is ReadSignCommits || step is ReadPreferredKey
}

/// A running operation waits on the step of its plan at its position.
proof fn lemma_run_shape(op: Operation, replies: Seq<ReplyView>)
    ensures
        run(op, replies).1 is Run ==> run(op, replies).0 < plan(op).len() && run(op, replies).1
            == CommandView::Run(plan(op)[run(op, replies).0 as int]),
        run(op, replies).1 is Fail ==> run(op, replies).0 < plan(op).len(),
    decreases replies.len(),
{
    if replies.len() > 0 {
        lemma_run_shape(op, replies.drop_last());
    }
}

/// No operation gets past the step at position `g` without that step being
/// asked for and answered with a reply that moves on, as long as no "no"
/// can skip it.
proof fn lemma_gate(op: Operation, replies: Seq<ReplyView>, g: nat)
    requires
        g < plan(op).len(),
        g > 0 ==> !skips_on_no(plan(op)[g - 1]),
        run(op, replies).0 > g,
    ensures
        exists|i: int|
            0 <= i < replies.len() && #[trigger] run(op, replies.take(i)) == (
                g,
                CommandView::Run(plan(op)[g as int]),
            ) && respond(op, g, replies[i]).0 > g,
    decreases replies.len(),
{
    if replies.len() == 0 {
        assert(go_on(op, 0).0 == 0);
    } else {
        let rest = replies.drop_last();
        let before = run(op, rest);
        lemma_run_shape(op, rest);
        if before.0 > g {
            lemma_gate(op, rest, g);
            let i = choose|i: int|
                0 <= i < rest.len() && #[trigger] run(op, rest.take(i)) == (
                    g,
                    CommandView::Run(plan(op)[g as int]),
                ) && respond(op, g, rest[i]).0 > g;
            assert(rest.take(i) =~= replies.take(i));
            assert(rest[i] == replies[i]);
        } else if before.0 == g {
            let i = replies.len() - 1;
            assert(replies.take(i) =~= rest);
            assert(run(op, replies.take(i)) == before);
        } else {
            if before.1 is Run {
                assert(run(op, replies) == respond(op, before.0, replies.last()));
            }
        }
    }
}

/// An operation that runs under the project's lock never performs its call,
/// nor finishes, before checking that the project is on the integration
/// branch and seeing that check succeed.
pub proof fn lemma_verified_before_acting(op: Operation, replies: Seq<ReplyView>)
    requires
        is_locked(op),
        fitting_run(op, replies),
        run(op, replies).1 == CommandView::Run(Step::Perform) || run(op, replies).1
            == CommandView::Finish,
    ensures
        exists|i: int|
            0 <= i < replies.len() && #[trigger] run(op, replies.take(i)).1 == CommandView::Run(
                Step::VerifyBranch,
            ) && replies[i] == ReplyView::Done,
{
    lemma_run_shape(op, replies);
    assert(plan(op)[4] == Step::VerifyBranch);
    assert(plan(op)[3] == Step::OpenGbRepository);
    if run(op, replies).1 is Run {
        assert(run(op, replies).0 > 4) by {
            assert(plan(op)[run(op, replies).0 as int] == Step::Perform);
        }
    } else {
        lemma_finish_past_plan(op, replies);
    }
    lemma_gate(op, replies, 4);
    let i = choose|i: int|
        0 <= i < replies.len() && #[trigger] run(op, replies.take(i)) == (
            4nat,
            CommandView::Run(plan(op)[4]),
        ) && respond(op, 4, replies[i]).0 > 4;
    assert(run(op, replies.take(i)).1 == CommandView::Run(Step::VerifyBranch));
    assert(fits(op, Step::VerifyBranch, replies[i]));
}

/// An operation that checks for conflicts never performs its call, nor
/// finishes, unless that check answered that there are none.
pub proof fn lemma_no_conflict_before_acting(op: Operation, replies: Seq<ReplyView>)
    requires
        op is CreateCommit || op is MergeVirtualBranchUpstream || op is CreateVirtualBranch,
        fitting_run(op, replies),
        run(op, replies).1 == CommandView::Run(Step::Perform) || run(op, replies).1
            == CommandView::Finish,
    ensures
        exists|i: int|
            0 <= i < replies.len() && (#[trigger] run(op, replies.take(i)).1 == CommandView::Run(
                Step::CheckConflicting,
            ) || run(op, replies.take(i)).1 == CommandView::Run(Step::CheckResolving))
                && replies[i] == ReplyView::Answer(false),
{
    lemma_run_shape(op, replies);
    let check = plan(op)[5];
    assert(check == Step::CheckConflicting || check == Step::CheckResolving);
    assert(plan(op)[4] == Step::VerifyBranch);
    if run(op, replies).1 is Run {
        assert(run(op, replies).0 > 5) by {
            assert(plan(op)[run(op, replies).0 as int] == Step::Perform);
        }
    } else {
        lemma_finish_past_plan(op, replies);
    }
    lemma_gate(op, replies, 5);
    let i = choose|i: int|
        0 <= i < replies.len() && #[trigger] run(op, replies.take(i)) == (
            5nat,
            CommandView::Run(plan(op)[5]),
        ) && respond(op, 5, replies[i]).0 > 5;
    assert(run(op, replies.take(i)).1 == CommandView::Run(check));
    assert(fits(op, check, replies[i]));
}

/// In every plan, a key step comes right after the question that decides
/// it, and that question does not itself follow a question that can skip.
proof fn lemma_key_position(op: Operation, p: int)
    requires
        0 <= p < plan(op).len(),
        plan(op)[p] is GetSigningKey || plan(op)[p] is GetPushKey,
    ensures
        p >= 2,
        plan(op)[p] is GetSigningKey ==> plan(op)[p - 1] is ReadSignCommits,
        plan(op)[p] is GetPushKey ==> plan(op)[p - 1] is ReadPreferredKey,
        !skips_on_no(plan(op)[p - 2]),
{
    let s = plan(op);
    match op {
        Operation::CreateCommit { .. } | Operation::MergeVirtualBranchUpstream { .. }
        | Operation::CreateVirtualBranchFromBranch => {
            assert(s.len() == 9);
            assert(p == 7) by {
                if p != 7 {
                    assert(!(s[p] is GetSigningKey || s[p] is GetPushKey));
                }
            }
        },
        Operation::ApplyVirtualBranch { .. } => {
            assert(s.len() == 8);
            assert(p == 6) by {
                if p != 6 {
                    assert(!(s[p] is GetSigningKey || s[p] is GetPushKey));
                }
            }
        },
        Operation::PushVirtualBranch { .. } => {
            assert(s.len() == 8);
            assert(p == 6) by {
                if p != 6 {
                    assert(!(s[p] is GetSigningKey || s[p] is GetPushKey));
                }
            }
        },
        _ => {
            assert(!(s[p] is GetSigningKey || s[p] is GetPushKey));
        },
    }
}

/// A key is only asked for right after the question that decides it was
/// answered yes: commits are signed only when signing is on, and the
/// generated key is only fetched for a project that prefers it.
pub proof fn lemma_key_only_after_yes(op: Operation, replies: Seq<ReplyView>, key: Step)
    requires
        key is GetSigningKey || key is GetPushKey,
        fitting_run(op, replies),
        run(op, replies).1 == CommandView::Run(key),
    ensures
        exists|i: int|
            0 <= i < replies.len() && (#[trigger] run(op, replies.take(i)).1 == CommandView::Run(
                Step::ReadSignCommits,
            ) || run(op, replies.take(i)).1 == CommandView::Run(Step::ReadPreferredKey))
                && replies[i] == ReplyView::Answer(true),
{
    lemma_run_shape(op, replies);
    let p = run(op, replies).0;
    lemma_key_position(op, p as int);
    assert(replies.len() > 0) by {
        if replies.len() == 0 {
            assert(go_on(op, 0).0 == 0);
        }
    }
    let rest = replies.drop_last();
    let before = run(op, rest);
    lemma_run_shape(op, rest);
    assert(before.1 is Run);
    let i = replies.len() - 1;
    assert(replies.take(i) =~= rest);
    assert(run(op, replies.take(i)) == before);
    assert(run(op, replies.take(i)).1 == CommandView::Run(plan(op)[before.0 as int]));
    assert(fits(op, plan(op)[before.0 as int], replies[i]));
    assert(before.0 == p - 1);
}

/// A running operation has moved one step or more for each reply.
proof fn lemma_run_moves(op: Operation, replies: Seq<ReplyView>)
    ensures
        run(op, replies).1 is Run ==> run(op, replies).0 >= replies.len(),
    decreases replies.len(),
{
    if replies.len() > 0 {
        lemma_run_moves(op, replies.drop_last());
    }
}

/// Every operation has ended (finished or failed) once it has had as many
/// replies as its plan has steps.
pub proof fn lemma_operation_ends(op: Operation, replies: Seq<ReplyView>)
    requires
        replies.len() >= plan(op).len(),
    ensures
        !(run(op, replies).1 is Run),
{
    lemma_run_moves(op, replies);
    lemma_run_shape(op, replies);
}

/// Every operation ends with its call: the last step of each plan is
/// `Perform`, and no operation finishes without that call being made and
/// answered with a reply that moves on.
pub proof fn lemma_finish_after_call(op: Operation, replies: Seq<ReplyView>)
    requires
        run(op, replies).1 == CommandView::Finish,
    ensures
        plan(op).last() == Step::Perform,
        exists|i: int|
            0 <= i < replies.len() && #[trigger] run(op, replies.take(i)).1 == CommandView::Run(
                Step::Perform,
            ) && respond(op, (plan(op).len() - 1) as nat, replies[i]).0 >= plan(op).len(),
{
    let g = (plan(op).len() - 1) as nat;
    assert(plan(op).len() >= 2);
    assert(plan(op)[g as int] == Step::Perform);
    assert(!skips_on_no(plan(op)[g - 1]));
    lemma_finish_past_plan(op, replies);
    lemma_gate(op, replies, g);
    let i = choose|i: int|
        0 <= i < replies.len() && #[trigger] run(op, replies.take(i)) == (
            g,
            CommandView::Run(plan(op)[g as int]),
        ) && respond(op, g, replies[i]).0 > g;
    assert(run(op, replies.take(i)).1 == CommandView::Run(Step::Perform));
}

/// A finished operation stands past the end of its plan.
proof fn lemma_finish_past_plan(op: Operation, replies: Seq<ReplyView>)
    requires
        run(op, replies).1 == CommandView::Finish,
    ensures
        run(op, replies).0 >= plan(op).len(),
    decreases replies.len(),
{
    if replies.len() > 0 {
        let before = run(op, replies.drop_last());
        if before.1 is Run {
        } else {
            lemma_finish_past_plan(op, replies.drop_last());
        }
    }
}

impl Operation {
    /// Whether the operation runs under the project's lock and checks the
    /// integration branch first.
    pub fn takes_lock(&self) -> (locked: bool)
        ensures
            locked == is_locked(*self),
    {
        !matches!(
            self,
            Operation::CanApplyRemoteBranch | Operation::CanApplyVirtualBranch { .. }
                | Operation::GetBaseBranchData | Operation::ListRemoteCommitFiles
                | Operation::SetBaseBranch
        )
    }

    /// The steps of the operation, in order.
    pub fn steps(&self) -> (steps: Vec<Step>)
        ensures
            steps@ == plan(*self),
    {
        let steps = match self {
            Operation::CreateCommit { .. } => vec![
                Step::GetProject,
                Step::OpenProjectRepository,
                Step::GetUser,
                Step::OpenGbRepository,
                Step::VerifyBranch,
                Step::CheckConflicting,
                Step::ReadSignCommits,
                Step::GetSigningKey,
                Step::Perform,
            ],
            Operation::CanApplyRemoteBranch | Operation::CanApplyVirtualBranch { .. }
            | Operation::GetBaseBranchData => vec![
                Step::GetProject,
                Step::OpenProjectRepository,
                Step::GetUser,
                Step::OpenGbRepository,
                Step::Perform,
            ],
            Operation::CreateVirtualBranch => vec![
                Step::GetProject,
                Step::OpenProjectRepository,
                Step::GetUser,
                Step::OpenGbRepository,
                Step::VerifyBranch,
                Step::CheckResolving,
                Step::Perform,
            ],
            Operation::CreateVirtualBranchFromBranch => vec![
                Step::GetProject,
                Step::OpenProjectRepository,
                Step::GetUser,
                Step::OpenGbRepository,
                Step::VerifyBranch,
                Step::CreateBranchFromBranch,
                Step::ReadSignCommits,
                Step::GetSigningKey,
                Step::Perform,
            ],
            Operation::ListRemoteCommitFiles => vec![
                Step::GetProject,
                Step::OpenProjectRepository,
                Step::FindCommit,
                Step::Perform,
            ],
            Operation::SetBaseBranch => vec![
                Step::GetProject,
                Step::GetUser,
                Step::OpenProjectRepository,
                Step::OpenGbRepository,
                Step::Perform,
            ],
            Operation::MergeVirtualBranchUpstream { .. } => vec![
                Step::GetProject,
                Step::OpenProjectRepository,
                Step::GetUser,
                Step::OpenGbRepository,
                Step::VerifyBranch,
                Step::CheckConflicting,
                Step::ReadSignCommits,
                Step::GetSigningKey,
                Step::Perform,
            ],
            Operation::ApplyVirtualBranch { .. } => vec![
                Step::GetProject,
                Step::OpenProjectRepository,
                Step::GetUser,
                Step::OpenGbRepository,
                Step::VerifyBranch,
                Step::ReadSignCommits,
                Step::GetSigningKey,
                Step::Perform,
            ],
            Operation::PushVirtualBranch { .. } => vec![
                Step::GetProject,
                Step::OpenProjectRepository,
                Step::GetUser,
                Step::OpenGbRepository,
                Step::VerifyBranch,
                Step::ReadPreferredKey,
                Step::GetPushKey,
                Step::Perform,
            ],
            _ => vec![
                Step::GetProject,
                Step::OpenProjectRepository,
                Step::GetUser,
                Step::OpenGbRepository,
                Step::VerifyBranch,
                Step::Perform,
            ],
        };
        assert(steps@ =~= plan(*self));
        steps
    }
}

/// The error for a step that failed with `message` (see `failure`).
fn failure_error(op: &Operation, step: Step, message: String, remote: bool) -> (e: Error)
    ensures
        e@ == failure(*op, step, message@, remote),
{
    match step {
        Step::GetProject => Error::GetProject(message),
        Step::OpenProjectRepository => Error::OpenProjectRepository(message),
        Step::GetUser => Error::Other { message: String::from_str("failed to get user"), cause: Some(message) },
        Step::OpenGbRepository => Error::Other { message: String::from_str("failed to open gitbutler repository"), cause: Some(message) },
        Step::VerifyBranch => Error::Verify(message),
        Step::FindCommit => Error::Other { message: String::from_str("failed to find commit"), cause: Some(message) },
        Step::CheckConflicting => Error::Other { message: String::from_str("failed to check for conflicts"), cause: Some(message) },
        Step::ReadSignCommits => Error::Other { message: String::from_str("failed to get sign commits option"), cause: Some(message) },
        Step::GetSigningKey => Error::Other { message: String::from_str("failed to get private key"), cause: Some(message) },
        Step::GetPushKey => Error::Other { message: String::from_str("failed to get or create private key"), cause: Some(message) },
        Step::Perform => if remote && matches!(op, Operation::PushVirtualBranch { .. }) {
            Error::ProjectRemote(message)
        } else {
            Error::Other { message, cause: None }
        },
        _ => Error::Other { message, cause: None },
    }
}

/// An operation under way: which one, the position in its steps of the
/// step it waits on, and what it has learned from the replies so far.
pub struct Flow {
    op: Operation,
    pos: usize,
    record: Record,
}

impl View for Flow {
    type V = (Operation, nat, Record);

    closed spec fn view(&self) -> (Operation, nat, Record) {
        (self.op, self.pos as nat, self.record)
    }
}

/// Where the branch made from a branch is created in its plan.
proof fn lemma_branch_from_branch_plan(op: Operation)
    requires
        op is CreateVirtualBranchFromBranch,
    ensures
        plan(op).len() == 9,
        plan(op)[5] is CreateBranchFromBranch,
        forall|k: int| 0 <= k < 5 ==> !is_question(#[trigger] plan(op)[k]),
        forall|k: int| 0 <= k < 9 && plan(op)[k] is Perform ==> k == 8,
{
    assert(plan(op) =~= seq![
        Step::GetProject,
        Step::OpenProjectRepository,
        Step::GetUser,
        Step::OpenGbRepository,
        Step::VerifyBranch,
        Step::CreateBranchFromBranch,
        Step::ReadSignCommits,
        Step::GetSigningKey,
        Step::Perform,
    ]);
}

impl Flow {
    /// A branch made from a branch has its id once it is past the step that
    /// creates it.
    #[verifier::type_invariant]
    spec fn knows_created(self) -> bool {
        self.op is CreateVirtualBranchFromBranch && self.pos > 5 ==> self.record.created is Some
    }

    /// Starts an operation: it asks for the first of its steps.
    pub fn start(op: Operation) -> (res: (Flow, Command))
        ensures
            res.0@ == (op, 0nat, initial_record()),
            res.1@ == go_on(op, 0).1,
            res.1 is Run,
    {
        let steps = op.steps();
        let first = steps[0];
        let record = Record { signed: false, generated_key: false, created: None, answer: false };
        (Flow { op, pos: 0, record }, Command::Run(first))
    }

    /// Whether the operation waits on a step that `reply` can answer.
    pub fn accepts(&self, reply: &Reply) -> (ok: bool)
        ensures
            ok == (self@.1 < plan(self@.0).len() && fits(self@.0, plan(self@.0)[self@.1 as int], reply@)),
    {
        let steps = self.op.steps();
        if self.pos >= steps.len() {
            return false;
        }
        let step = steps[self.pos];
        let question = step == Step::CheckConflicting || step == Step::CheckResolving
            || step == Step::ReadSignCommits || step == Step::ReadPreferredKey;
        let answering = step == Step::Perform && matches!(
            self.op,
            Operation::CanApplyRemoteBranch | Operation::CanApplyVirtualBranch { .. }
        );
        match reply {
            Reply::Done => !question && step != Step::CreateBranchFromBranch && !answering,
            Reply::Created(_) => step == Step::CreateBranchFromBranch,
            Reply::Answer(_) => question || answering,
            Reply::Failed(_) => !(step == Step::CheckResolving || step == Step::ReadPreferredKey),
            Reply::RemoteFailed(_) => matches!(self.op, Operation::PushVirtualBranch { .. }) && step
                == Step::Perform,
        }
    }

    /// The call that ends the operation (see `call_of`).
    fn call(&self) -> (c: Call)
        requires
            self@.1 < plan(self@.0).len(),
            plan(self@.0)[self@.1 as int] is Perform,
        ensures
            c == call_of(self@.0, self@.2),
    {
        proof {
            use_type_invariant(self);
            if self.op is CreateVirtualBranchFromBranch {
                lemma_branch_from_branch_plan(self.op);
            }
        }
        let signed = self.record.signed;
        match &self.op {
            Operation::CreateCommit { branch, message } => Call::Commit {
                branch: branch.clone(),
                message: message.clone(),
                signed,
            },
            Operation::CanApplyRemoteBranch => Call::IsRemoteBranchMergeable,
            Operation::CanApplyVirtualBranch { branch_id } => Call::IsVirtualBranchMergeable {
                branch_id: branch_id.clone(),
            },
            Operation::ListVirtualBranches => Call::ListVirtualBranches,
            Operation::CreateVirtualBranch => Call::CreateVirtualBranch,
            Operation::CreateVirtualBranchFromBranch => {
                let branch_id = match &self.record.created {
                    Some(id) => id.clone(),
                    None => String::new(),
                };
                Call::ApplyBranch { branch_id, signed }
            },
            Operation::GetBaseBranchData => Call::GetBaseBranchData,
            Operation::ListRemoteCommitFiles => Call::ListRemoteCommitFiles,
            Operation::SetBaseBranch => Call::SetBaseBranch,
            Operation::MergeVirtualBranchUpstream { branch } => Call::MergeUpstream {
                branch: branch.clone(),
                signed,
            },
            Operation::UpdateBaseBranch => Call::UpdateBaseBranch,
            Operation::UpdateVirtualBranch => Call::UpdateBranch,
            Operation::DeleteVirtualBranch { branch_id } => Call::DeleteBranch {
                branch_id: branch_id.clone(),
            },
            Operation::ApplyVirtualBranch { branch_id } => Call::ApplyBranch {
                branch_id: branch_id.clone(),
                signed,
            },
            Operation::UnapplyOwnership => Call::UnapplyOwnership,
            Operation::ResetVirtualBranch { branch_id } => Call::ResetBranch {
                branch_id: branch_id.clone(),
            },
            Operation::UnapplyVirtualBranch { branch_id } => Call::UnapplyBranch {
                branch_id: branch_id.clone(),
            },
            Operation::PushVirtualBranch { branch_id, with_force } => Call::Push {
                branch_id: branch_id.clone(),
                with_force: *with_force,
                key: if self.record.generated_key {
                    PushKey::Generated
                } else {
                    PushKey::Local
                },
            },
        }
    }

    /// What the finished operation returns (see `outcome_of`).
    fn outcome(&self) -> (o: Outcome)
        requires
            self@.1 >= plan(self@.0).len(),
        ensures
            o == outcome_of(self@.0, self@.2),
    {
        proof {
            use_type_invariant(self);
            if self.op is CreateVirtualBranchFromBranch {
                lemma_branch_from_branch_plan(self.op);
            }
        }
        match &self.op {
            Operation::CreateCommit { .. } | Operation::CreateVirtualBranch
            | Operation::UpdateVirtualBranch | Operation::DeleteVirtualBranch { .. } => Outcome::Unit,
            Operation::CanApplyRemoteBranch | Operation::CanApplyVirtualBranch { .. } => {
                Outcome::Answer(self.record.answer)
            },
            Operation::CreateVirtualBranchFromBranch => {
                let branch_id = match &self.record.created {
                    Some(id) => id.clone(),
                    None => String::new(),
                };
                Outcome::BranchId(branch_id)
            },
            _ => Outcome::CallResult,
        }
    }

    /// Takes the reply to the step the operation waits on and says what to
    /// do next: the next step, the operation's call with its arguments, what
    /// it returns, or its error. The flow moves past that step unless the
    /// command ends the operation in an error.
    pub fn advance(&mut self, reply: Reply) -> (cmd: Command)
        requires
            old(self)@.1 < plan(old(self)@.0).len(),
            fits(old(self)@.0, plan(old(self)@.0)[old(self)@.1 as int], reply@),
        ensures
            final(self)@.0 == old(self)@.0,
            (final(self)@.1, cmd@) == respond(old(self)@.0, old(self)@.1, reply@),
            final(self)@.2 == record_reply(
                old(self)@.2,
                plan(old(self)@.0)[old(self)@.1 as int],
                reply,
            ),
            cmd matches Command::Run(s) ==> !(s is Perform),
            cmd matches Command::Call(c) ==> c == call_of(final(self)@.0, final(self)@.2),
            cmd matches Command::Finish(o) ==> o == outcome_of(final(self)@.0, final(self)@.2),
    {
        proof {
            use_type_invariant(&*self);
            if self.op is CreateVirtualBranchFromBranch {
                lemma_branch_from_branch_plan(self.op);
            }
        }
        let steps = self.op.steps();
        let step = steps[self.pos];
        let ghost reply_view = reply@;
        let next = match reply {
            Reply::Failed(m) => {
                return Command::Fail(failure_error(&self.op, step, m, false));
            },
            Reply::RemoteFailed(m) => {
                return Command::Fail(failure_error(&self.op, step, m, true));
            },
            Reply::Done => {
                if step == Step::GetSigningKey {
                    self.record.signed = true;
                }
                self.pos + 1
            },
            Reply::Created(id) => {
                self.record.created = Some(id);
                self.pos + 1
            },
            Reply::Answer(yes) => {
                if step == Step::CheckConflicting || step == Step::CheckResolving {
                    if yes {
                        return Command::Fail(Error::Conflicting);
                    }
                    self.pos + 1
                } else if step == Step::ReadSignCommits {
                    if yes {
                        self.pos + 1
                    } else {
                        self.pos + 2
                    }
                } else if step == Step::ReadPreferredKey {
                    self.record.generated_key = yes;
                    if yes {
                        self.pos + 1
                    } else {
                        self.pos + 2
                    }
                } else {
                    if step == Step::Perform {
                        self.record.answer = yes;
                    }
                    self.pos + 1
                }
            },
        };
        self.pos = next;
        if next < steps.len() {
            let following = steps[next];
            if following == Step::Perform {
                Command::Call(self.call())
            } else {
                Command::Run(following)
            }
        } else {
            Command::Finish(self.outcome())
        }
    }
}

} // verus!
