//! The interactive commit session as an explicit state machine. Each phase
//! waits for exactly one answer from a collaborator (the repository, the
//! prompter or the generator); `step` consumes that answer and returns the
//! next thing to do. All repository work, prompting and network transfer is
//! the caller's input/output concern; every decision is made here.
//!
//! Two policies are fixed here and applied uniformly: a rate-limited
//! generation fails the session at once rather than retrying, since a stalled
//! retry loop would block the interactive user; and a failed pull aborts the
//! push that was to follow it, since pushing on top of a possibly diverged
//! history risks an inconsistent push.
use crate::chat_context::{initial_context_spec, ChatContext, ChatContextBuilder};
use crate::config_data::{SessionPreferences, SessionPreferencesV};
use crate::default_behavior::DefaultBehavior;
use crate::openai::{GenerationError, MessageRole, MessageV};
use vstd::prelude::*;

verus! {

/// The options of one commit invocation.
pub struct CommitCommand {
    /// Stage every changed file without asking.
    pub stage_all: bool,
    /// How many candidate messages to request.
    pub n: usize,
    /// Never call the generator; use the configured default message.
    pub skip_chatbot: bool,
    /// Do not ask before committing; consult the configured default behavior.
    pub skip_commit_confirmation: bool,
    /// Do not ask before pushing.
    pub skip_push_confirmation: bool,
    /// The branch to push, when one is named; the repository's current branch
    /// otherwise.
    pub branch_name: Option<String>,
}

/// What a successful commit produced; consumed only for display.
pub struct CommitResult {
    pub message: String,
    pub branch: String,
    pub commit_hash: String,
    pub files_changed: usize,
    pub insertions: usize,
    pub deletions: usize,
}

/// The user's answer when reviewing a generated message.
#[derive(Clone, Copy, PartialEq, Eq, Structural, Debug)]
pub enum ReviewChoice {
    Accept,
    Regenerate,
    Cancel,
}

/// Why a session failed.
pub enum FailureReason {
    /// A repository operation failed; its message is surfaced as received.
    Repository { message: String },
    /// The generator failed; the error is surfaced as received.
    Generation { error: GenerationError },
    /// Generation was switched off but no default commit message is set.
    MissingDefaultMessage,
}

/// Specification-level image of a `FailureReason`.
pub ghost enum FailureReasonV {
    Repository { message: Seq<char> },
    Generation { error: crate::openai::GenerationErrorV },
    MissingDefaultMessage,
}

impl View for FailureReason {
    type V = FailureReasonV;

    open spec fn view(&self) -> FailureReasonV {
        match self {
            FailureReason::Repository { message } => FailureReasonV::Repository {
                message: message@,
            },
            FailureReason::Generation { error } => FailureReasonV::Generation { error: error@ },
            FailureReason::MissingDefaultMessage => FailureReasonV::MissingDefaultMessage,
        }
    }
}

/// How a session ended.
pub enum SessionOutcome {
    /// Success; zero or more commits were made.
    Done,
    /// The user declined at a decision point; no error.
    Cancelled,
    /// An operation errored; the process reports failure.
    Failed { reason: FailureReason },
}

/// Specification-level image of a `SessionOutcome`.
pub ghost enum SessionOutcomeV {
    Done,
    Cancelled,
    Failed { reason: FailureReasonV },
}

impl View for SessionOutcome {
    type V = SessionOutcomeV;

    open spec fn view(&self) -> SessionOutcomeV {
        match self {
            SessionOutcome::Done => SessionOutcomeV::Done,
            SessionOutcome::Cancelled => SessionOutcomeV::Cancelled,
            SessionOutcome::Failed { reason } => SessionOutcomeV::Failed { reason: reason@ },
        }
    }
}

/// What to stage.
pub enum StageScope {
    All,
    Selected { files: Vec<String> },
}

/// Specification-level image of a `StageScope`.
pub ghost enum StageScopeV {
    All,
    Selected { files: Seq<Seq<char>> },
}

impl View for StageScope {
    type V = StageScopeV;

    open spec fn view(&self) -> StageScopeV {
        match self {
            StageScope::All => StageScopeV::All,
            StageScope::Selected { files } => StageScopeV::Selected { files: files.deep_view() },
        }
    }
}

/// A collaborator's answer, handed back to the machine.
pub enum Event {
    /// The session begins.
    Started,
    /// The working tree's changed and staged files.
    FilesReported { changed: Vec<String>, staged: Vec<String> },
    /// Whether to stage everything; `None` when the prompt was dismissed.
    StageAllAnswer { answer: Option<bool> },
    /// Which changed files to stage, by index.
    FilesSelected { selection: Option<Vec<usize>> },
    /// Whether staging succeeded.
    StageFinished { result: Result<(), String> },
    /// The staged files, read afresh.
    StagedReported { staged: Vec<String> },
    /// The staged diff, or why it could not be read.
    DiffReady { result: Result<String, String> },
    /// The generator's completion, or why generation failed.
    MessageGenerated { result: Result<String, GenerationError> },
    /// The user's review decision.
    ReviewAnswer { choice: ReviewChoice },
    /// Whether the commit was created.
    CommitFinished { result: Result<CommitResult, String> },
    /// Whether to push.
    PushAnswer { answer: Option<bool> },
    /// The configured remotes.
    RemotesListed { remotes: Vec<String> },
    /// Which remote to push to, by index.
    RemoteChosen { selection: Option<usize> },
    /// Whether to pull before pushing.
    PullAnswer { answer: Option<bool> },
    /// Whether the pull succeeded.
    PullFinished { result: Result<(), String> },
    /// Whether the push succeeded.
    PushFinished { result: Result<(), String> },
    /// Whether to run another round.
    ContinueAnswer { answer: Option<bool> },
}

/// Where the session stands. Every non-terminal phase has exactly one kind of
/// event it waits for.
pub enum Phase {
    Idle,
    CheckingChanges,
    StagingDecision { changed: Vec<String> },
    SelectingFiles { changed: Vec<String> },
    Staging,
    Counting,
    Diffing { staged: Vec<String> },
    Generating { staged: Vec<String>, diff: String },
    ReviewingMessage { staged: Vec<String>, diff: String, message: String },
    Committing { message: String },
    PushDecision,
    RemoteSelection,
    ChoosingRemote { remotes: Vec<String> },
    PullDecision { remote: String },
    Pulling { remote: String },
    Pushing { remote: String },
    LoopDecision,
    Done,
    Cancelled,
    Failed { reason: FailureReason },
}

/// What the caller must do next.
pub enum Action {
    /// Read the changed and the staged files.
    QueryWorkingTree,
    /// Ask whether to stage everything.
    AskStageAll,
    /// Ask which of the changed files to stage.
    AskSelectFiles { changed: Vec<String> },
    /// Stage the given scope.
    Stage { scope: StageScope },
    /// Re-read the staged files.
    QueryStaged,
    /// Read the staged diff.
    GetStagedDiff { staged: Vec<String> },
    /// Send the context to the generator.
    Generate { context: ChatContext },
    /// Show the message and ask to accept, regenerate or cancel.
    AskReview { message: String },
    /// Create the commit.
    Commit { message: String, name: String, email: String },
    /// Ask whether to push.
    AskPush,
    /// List the configured remotes.
    ListRemotes,
    /// Ask which remote to push to.
    AskRemoteChoice { remotes: Vec<String> },
    /// Ask whether to pull first.
    AskPull { remote: String },
    /// Pull from the remote.
    Pull { remote: String },
    /// Push to the remote, naming a branch when one was requested.
    Push { remote: String, branch: Option<String> },
    /// Ask whether to run another round.
    AskContinue,
    /// The session is over.
    Finish { outcome: SessionOutcome },
}

/// Specification-level image of an `Action`.
pub ghost enum ActionV {
    QueryWorkingTree,
    AskStageAll,
    AskSelectFiles { changed: Seq<Seq<char>> },
    Stage { scope: StageScopeV },
    QueryStaged,
    GetStagedDiff { staged: Seq<Seq<char>> },
    Generate { context: Seq<MessageV> },
    AskReview { message: Seq<char> },
    Commit { message: Seq<char>, name: Seq<char>, email: Seq<char> },
    AskPush,
    ListRemotes,
    AskRemoteChoice { remotes: Seq<Seq<char>> },
    AskPull { remote: Seq<char> },
    Pull { remote: Seq<char> },
    Push { remote: Seq<char>, branch: Option<Seq<char>> },
    AskContinue,
    Finish { outcome: SessionOutcomeV },
}

impl View for Action {
    type V = ActionV;

    open spec fn view(&self) -> ActionV {
        match self {
            Action::QueryWorkingTree => ActionV::QueryWorkingTree,
            Action::AskStageAll => ActionV::AskStageAll,
            Action::AskSelectFiles { changed } => ActionV::AskSelectFiles {
                changed: changed.deep_view(),
            },
            Action::Stage { scope } => ActionV::Stage { scope: scope@ },
            Action::QueryStaged => ActionV::QueryStaged,
            Action::GetStagedDiff { staged } => ActionV::GetStagedDiff {
                staged: staged.deep_view(),
            },
            Action::Generate { context } => ActionV::Generate { context: context@ },
            Action::AskReview { message } => ActionV::AskReview { message: message@ },
            Action::Commit { message, name, email } => ActionV::Commit {
                message: message@,
                name: name@,
                email: email@,
            },
            Action::AskPush => ActionV::AskPush,
            Action::ListRemotes => ActionV::ListRemotes,
            Action::AskRemoteChoice { remotes } => ActionV::AskRemoteChoice {
                remotes: remotes.deep_view(),
            },
            Action::AskPull { remote } => ActionV::AskPull { remote: remote@ },
            Action::Pull { remote } => ActionV::Pull { remote: remote@ },
            Action::Push { remote, branch } => ActionV::Push {
                remote: remote@,
                branch: branch.deep_view(),
            },
            Action::AskContinue => ActionV::AskContinue,
            Action::Finish { outcome } => ActionV::Finish { outcome: outcome@ },
        }
    }
}

/// The instruction layered onto the diff when the user asks for another
/// message.
pub open spec fn regen_content_spec(diff: Seq<char>) -> Seq<char> {
    "Suggest a professional git commit message\n"@ + diff
}

/// The context sent for one generation attempt: the initial context and one
/// user message carrying the diff, with the extra instruction on
/// regeneration. Each attempt builds this wholly afresh, so it depends only
/// on the preferences and the diff, never on earlier attempts.
pub open spec fn generation_context_spec(p: SessionPreferencesV, diff: Seq<char>, regen: bool) -> Seq<
    MessageV,
> {
    initial_context_spec(p).push(
        MessageV {
            role: MessageRole::User,
            content: if regen {
                regen_content_spec(diff)
            } else {
                diff
            },
        },
    )
}

/// The names picked out of `changed` by the selection indices.
pub open spec fn selected_files_spec(changed: Seq<Seq<char>>, sel: Seq<usize>) -> Seq<Seq<char>> {
    Seq::new(sel.len(), |j: int| changed[sel[j] as int])
}

/// One interactive commit session: the phase, the read-only preference
/// snapshot, and the invocation options.
pub struct CommitOrchestrator {
    pub phase: Phase,
    pub prefs: SessionPreferences,
    pub options: CommitCommand,
}

/// Which event each phase waits for, with the validity every answer carries.
pub open spec fn event_expected(o: CommitOrchestrator, event: Event) -> bool {
    match (o.phase, event) {
        (Phase::Idle, Event::Started) => true,
        (Phase::CheckingChanges, Event::FilesReported { .. }) => true,
        (Phase::StagingDecision { .. }, Event::StageAllAnswer { .. }) => true,
        (Phase::SelectingFiles { changed }, Event::FilesSelected { selection }) => match selection {
            Some(sel) => forall|j: int| 0 <= j < sel@.len() ==> (#[trigger] sel@[j]) < changed@.len(),
            None => true,
        },
        (Phase::Staging, Event::StageFinished { .. }) => true,
        (Phase::Counting, Event::StagedReported { .. }) => true,
        (Phase::Diffing { .. }, Event::DiffReady { .. }) => true,
        (Phase::Generating { .. }, Event::MessageGenerated { .. }) => true,
        (Phase::ReviewingMessage { .. }, Event::ReviewAnswer { .. }) => true,
        (Phase::Committing { .. }, Event::CommitFinished { .. }) => true,
        (Phase::PushDecision, Event::PushAnswer { .. }) => true,
        (Phase::RemoteSelection, Event::RemotesListed { .. }) => true,
        (Phase::ChoosingRemote { remotes }, Event::RemoteChosen { selection }) => match selection {
            Some(i) => i < remotes@.len(),
            None => true,
        },
        (Phase::PullDecision { .. }, Event::PullAnswer { .. }) => true,
        (Phase::Pulling { .. }, Event::PullFinished { .. }) => true,
        (Phase::Pushing { .. }, Event::PushFinished { .. }) => true,
        (Phase::LoopDecision, Event::ContinueAnswer { .. }) => true,
        _ => false,
    }
}

/// Whether generation is switched off for this session.
pub open spec fn generation_skipped(o: CommitOrchestrator) -> bool {
    o.options.skip_chatbot || o.prefs.default_commit_message is Some
}

/// The phase entered when a message is in hand and review begins. With
/// confirmation skipped, the configured default behavior decides at once;
/// otherwise the user is asked.
pub open spec fn review_entry_phase(
    o: CommitOrchestrator,
    staged: Vec<String>,
    diff: String,
    message: String,
) -> Phase {
    if o.options.skip_commit_confirmation && o.prefs.default_commit_behavior == Some(
        DefaultBehavior::Yes,
    ) {
        Phase::Committing { message }
    } else if o.options.skip_commit_confirmation && o.prefs.default_commit_behavior == Some(
        DefaultBehavior::No,
    ) {
        Phase::Cancelled
    } else {
        Phase::ReviewingMessage { staged, diff, message }
    }
}

/// The action requested on entering review.
pub open spec fn review_entry_action(o: CommitOrchestrator, message: String) -> ActionV {
    if o.options.skip_commit_confirmation && o.prefs.default_commit_behavior == Some(
        DefaultBehavior::Yes,
    ) {
        ActionV::Commit {
            message: message@,
            name: o.prefs.author_name@,
            email: o.prefs.author_email@,
        }
    } else if o.options.skip_commit_confirmation && o.prefs.default_commit_behavior == Some(
        DefaultBehavior::No,
    ) {
        ActionV::Finish { outcome: SessionOutcomeV::Cancelled }
    } else {
        ActionV::AskReview { message: message@ }
    }
}

/// The phase entered once a commit exists and pushing is considered.
pub open spec fn push_entry_phase(o: CommitOrchestrator) -> Phase {
    if o.options.skip_push_confirmation || o.prefs.default_push_behavior == Some(
        DefaultBehavior::Yes,
    ) {
        Phase::RemoteSelection
    } else if o.prefs.default_push_behavior == Some(DefaultBehavior::No) {
        Phase::LoopDecision
    } else {
        Phase::PushDecision
    }
}

/// The action requested on entering the push decision.
pub open spec fn push_entry_action(o: CommitOrchestrator) -> ActionV {
    if o.options.skip_push_confirmation || o.prefs.default_push_behavior == Some(
        DefaultBehavior::Yes,
    ) {
        ActionV::ListRemotes
    } else if o.prefs.default_push_behavior == Some(DefaultBehavior::No) {
        ActionV::AskContinue
    } else {
        ActionV::AskPush
    }
}

/// The phase after handling `event`. Total on expected events; an unexpected
/// event leaves the machine unchanged.
pub open spec fn step_phase(o: CommitOrchestrator, event: Event) -> Phase {
    match (o.phase, event) {
        (Phase::Idle, Event::Started) => Phase::CheckingChanges,
        (Phase::CheckingChanges, Event::FilesReported { changed, staged }) => {
            if changed@.len() == 0 && staged@.len() == 0 {
                Phase::Done
            } else if o.options.stage_all && changed@.len() > 0 {
                Phase::Staging
            } else if staged@.len() > 0 {
                Phase::Diffing { staged }
            } else {
                Phase::StagingDecision { changed }
            }
        },
        (Phase::StagingDecision { changed }, Event::StageAllAnswer { answer }) => {
            if answer == Some(true) {
                Phase::Staging
            } else if changed@.len() > 0 {
                Phase::SelectingFiles { changed }
            } else {
                Phase::Cancelled
            }
        },
        (Phase::SelectingFiles { changed }, Event::FilesSelected { selection }) => match selection {
            Some(sel) => if sel@.len() > 0 {
                Phase::Staging
            } else {
                Phase::Cancelled
            },
            None => Phase::Cancelled,
        },
        (Phase::Staging, Event::StageFinished { result }) => match result {
            Ok(_) => Phase::Counting,
            Err(e) => Phase::Failed { reason: FailureReason::Repository { message: e } },
        },
        (Phase::Counting, Event::StagedReported { staged }) => {
            if staged@.len() > 0 {
                Phase::Diffing { staged }
            } else {
                Phase::CheckingChanges
            }
        },
        (Phase::Diffing { staged }, Event::DiffReady { result }) => match result {
            Ok(diff) => {
                if o.prefs.default_commit_message is Some {
                    review_entry_phase(o, staged, diff, o.prefs.default_commit_message->Some_0)
                } else if o.options.skip_chatbot {
                    Phase::Failed { reason: FailureReason::MissingDefaultMessage }
                } else {
                    Phase::Generating { staged, diff }
                }
            },
            Err(e) => Phase::Failed { reason: FailureReason::Repository { message: e } },
        },
        (Phase::Generating { staged, diff }, Event::MessageGenerated { result }) => match result {
            Ok(message) => review_entry_phase(o, staged, diff, message),
            Err(error) => Phase::Failed { reason: FailureReason::Generation { error } },
        },
        (Phase::ReviewingMessage { staged, diff, message }, Event::ReviewAnswer { choice }) => {
            match choice {
                ReviewChoice::Accept => Phase::Committing { message },
                ReviewChoice::Regenerate => Phase::Generating { staged, diff },
                ReviewChoice::Cancel => Phase::Cancelled,
            }
        },
        (Phase::Committing { .. }, Event::CommitFinished { result }) => match result {
            Ok(_) => push_entry_phase(o),
            Err(e) => Phase::Failed { reason: FailureReason::Repository { message: e } },
        },
        (Phase::PushDecision, Event::PushAnswer { answer }) => {
            if answer == Some(true) {
                Phase::RemoteSelection
            } else {
                Phase::LoopDecision
            }
        },
        (Phase::RemoteSelection, Event::RemotesListed { remotes }) => {
            if remotes@.len() == 0 {
                Phase::LoopDecision
            } else if remotes@.len() == 1 {
                Phase::PullDecision { remote: remotes@[0] }
            } else {
                Phase::ChoosingRemote { remotes }
            }
        },
        (Phase::ChoosingRemote { remotes }, Event::RemoteChosen { selection }) => match selection {
            Some(i) => Phase::PullDecision { remote: remotes@[i as int] },
            None => Phase::LoopDecision,
        },
        (Phase::PullDecision { remote }, Event::PullAnswer { answer }) => {
            if answer == Some(true) {
                Phase::Pulling { remote }
            } else {
                Phase::Pushing { remote }
            }
        },
        (Phase::Pulling { remote }, Event::PullFinished { result }) => match result {
            Ok(_) => Phase::Pushing { remote },
            Err(e) => Phase::Failed { reason: FailureReason::Repository { message: e } },
        },
        (Phase::Pushing { .. }, Event::PushFinished { result }) => match result {
            Ok(_) => Phase::LoopDecision,
            Err(e) => Phase::Failed { reason: FailureReason::Repository { message: e } },
        },
        (Phase::LoopDecision, Event::ContinueAnswer { answer }) => {
            if answer == Some(true) {
                Phase::CheckingChanges
            } else {
                Phase::Done
            }
        },
        (phase, _) => phase,
    }
}

/// The whole machine after handling `event`: the next phase, the same
/// preferences, and the options with the stage-all flag reset when a new
/// round begins.
pub open spec fn step_next(o: CommitOrchestrator, event: Event) -> CommitOrchestrator {
    let reset = o.phase is LoopDecision;
    CommitOrchestrator {
        phase: step_phase(o, event),
        prefs: o.prefs,
        options: CommitCommand {
            stage_all: if reset {
                false
            } else {
                o.options.stage_all
            },
            n: o.options.n,
            skip_chatbot: o.options.skip_chatbot,
            skip_commit_confirmation: o.options.skip_commit_confirmation,
            skip_push_confirmation: o.options.skip_push_confirmation,
            branch_name: o.options.branch_name,
        },
    }
}

/// The action requested after handling `event`.
pub open spec fn step_action(o: CommitOrchestrator, event: Event) -> ActionV {
    match (o.phase, event) {
        (Phase::Idle, Event::Started) => ActionV::QueryWorkingTree,
        (Phase::CheckingChanges, Event::FilesReported { changed, staged }) => {
            if changed@.len() == 0 && staged@.len() == 0 {
                ActionV::Finish { outcome: SessionOutcomeV::Done }
            } else if o.options.stage_all && changed@.len() > 0 {
                ActionV::Stage { scope: StageScopeV::All }
            } else if staged@.len() > 0 {
                ActionV::GetStagedDiff { staged: staged.deep_view() }
            } else {
                ActionV::AskStageAll
            }
        },
        (Phase::StagingDecision { changed }, Event::StageAllAnswer { answer }) => {
            if answer == Some(true) {
                ActionV::Stage { scope: StageScopeV::All }
            } else if changed@.len() > 0 {
                ActionV::AskSelectFiles { changed: changed.deep_view() }
            } else {
                ActionV::Finish { outcome: SessionOutcomeV::Cancelled }
            }
        },
        (Phase::SelectingFiles { changed }, Event::FilesSelected { selection }) => match selection {
            Some(sel) => if sel@.len() > 0 {
                ActionV::Stage {
                    scope: StageScopeV::Selected {
                        files: selected_files_spec(changed.deep_view(), sel@),
                    },
                }
            } else {
                ActionV::Finish { outcome: SessionOutcomeV::Cancelled }
            },
            None => ActionV::Finish { outcome: SessionOutcomeV::Cancelled },
        },
        (Phase::Staging, Event::StageFinished { result }) => match result {
            Ok(_) => ActionV::QueryStaged,
            Err(e) => ActionV::Finish {
                outcome: SessionOutcomeV::Failed {
                    reason: FailureReasonV::Repository { message: e@ },
                },
            },
        },
        (Phase::Counting, Event::StagedReported { staged }) => {
            if staged@.len() > 0 {
                ActionV::GetStagedDiff { staged: staged.deep_view() }
            } else {
                ActionV::QueryWorkingTree
            }
        },
        (Phase::Diffing { staged }, Event::DiffReady { result }) => match result {
            Ok(diff) => {
                if o.prefs.default_commit_message is Some {
                    review_entry_action(o, o.prefs.default_commit_message->Some_0)
                } else if o.options.skip_chatbot {
                    ActionV::Finish {
                        outcome: SessionOutcomeV::Failed {
                            reason: FailureReasonV::MissingDefaultMessage,
                        },
                    }
                } else {
                    ActionV::Generate { context: generation_context_spec(o.prefs@, diff@, false) }
                }
            },
            Err(e) => ActionV::Finish {
                outcome: SessionOutcomeV::Failed {
                    reason: FailureReasonV::Repository { message: e@ },
                },
            },
        },
        (Phase::Generating { .. }, Event::MessageGenerated { result }) => match result {
            Ok(message) => review_entry_action(o, message),
            Err(error) => ActionV::Finish {
                outcome: SessionOutcomeV::Failed {
                    reason: FailureReasonV::Generation { error: error@ },
                },
            },
        },
        (Phase::ReviewingMessage { staged, diff, message }, Event::ReviewAnswer { choice }) => {
            match choice {
                ReviewChoice::Accept => ActionV::Commit {
                    message: message@,
                    name: o.prefs.author_name@,
                    email: o.prefs.author_email@,
                },
                ReviewChoice::Regenerate => ActionV::Generate {
                    context: generation_context_spec(o.prefs@, diff@, true),
                },
                ReviewChoice::Cancel => ActionV::Finish { outcome: SessionOutcomeV::Cancelled },
            }
        },
        (Phase::Committing { .. }, Event::CommitFinished { result }) => match result {
            Ok(_) => push_entry_action(o),
            Err(e) => ActionV::Finish {
                outcome: SessionOutcomeV::Failed {
                    reason: FailureReasonV::Repository { message: e@ },
                },
            },
        },
        (Phase::PushDecision, Event::PushAnswer { answer }) => {
            if answer == Some(true) {
                ActionV::ListRemotes
            } else {
                ActionV::AskContinue
            }
        },
        (Phase::RemoteSelection, Event::RemotesListed { remotes }) => {
            if remotes@.len() == 0 {
                ActionV::AskContinue
            } else if remotes@.len() == 1 {
                ActionV::AskPull { remote: remotes@[0]@ }
            } else {
                ActionV::AskRemoteChoice { remotes: remotes.deep_view() }
            }
        },
        (Phase::ChoosingRemote { remotes }, Event::RemoteChosen { selection }) => match selection {
            Some(i) => ActionV::AskPull { remote: remotes@[i as int]@ },
            None => ActionV::AskContinue,
        },
        (Phase::PullDecision { remote }, Event::PullAnswer { answer }) => {
            if answer == Some(true) {
                ActionV::Pull { remote: remote@ }
            } else {
                ActionV::Push { remote: remote@, branch: o.options.branch_name.deep_view() }
            }
        },
        (Phase::Pulling { remote }, Event::PullFinished { result }) => match result {
            Ok(_) => ActionV::Push { remote: remote@, branch: o.options.branch_name.deep_view() },
            Err(e) => ActionV::Finish {
                outcome: SessionOutcomeV::Failed {
                    reason: FailureReasonV::Repository { message: e@ },
                },
            },
        },
        (Phase::Pushing { .. }, Event::PushFinished { result }) => match result {
            Ok(_) => ActionV::AskContinue,
            Err(e) => ActionV::Finish {
                outcome: SessionOutcomeV::Failed {
                    reason: FailureReasonV::Repository { message: e@ },
                },
            },
        },
        (Phase::LoopDecision, Event::ContinueAnswer { answer }) => {
            if answer == Some(true) {
                ActionV::QueryWorkingTree
            } else {
                ActionV::Finish { outcome: SessionOutcomeV::Done }
            }
        },
        _ => ActionV::QueryWorkingTree,
    }
}

impl CommitOrchestrator {
    /// A fresh session, idle until `Started` is fed in.
    pub fn new(prefs: SessionPreferences, options: CommitCommand) -> (r: CommitOrchestrator)
        ensures
            r.phase is Idle,
            r.prefs == prefs,
            r.options == options,
    {
        CommitOrchestrator { phase: Phase::Idle, prefs, options }
    }

    /// Handles one collaborator answer: moves to the next phase and returns
    /// what the caller must do next.
    pub fn step(&mut self, event: Event) -> (action: Action)
        requires
            event_expected(*old(self), event),
        ensures
            *final(self) == step_next(*old(self), event),
            action@ == step_action(*old(self), event),
    {
        let ghost pre = *self;
        let mut phase = Phase::Idle;
        core::mem::swap(&mut phase, &mut self.phase);
        if let Phase::LoopDecision = phase {
            self.options.stage_all = false;
        }
        let action: Action = match (phase, event) {
            (Phase::Idle, Event::Started) => {
                self.phase = Phase::CheckingChanges;
                Action::QueryWorkingTree
            },
            (Phase::CheckingChanges, Event::FilesReported { changed, staged }) => {
                if changed.len() == 0 && staged.len() == 0 {
                    self.phase = Phase::Done;
                    Action::Finish { outcome: SessionOutcome::Done }
                } else if self.options.stage_all && changed.len() > 0 {
                    self.phase = Phase::Staging;
                    Action::Stage { scope: StageScope::All }
                } else if staged.len() > 0 {
                    let staged_for_action = clone_string_vec(&staged);
                    self.phase = Phase::Diffing { staged };
                    Action::GetStagedDiff { staged: staged_for_action }
                } else {
                    self.phase = Phase::StagingDecision { changed };
                    Action::AskStageAll
                }
            },
            (Phase::StagingDecision { changed }, Event::StageAllAnswer { answer }) => {
                if answer == Some(true) {
                    self.phase = Phase::Staging;
                    Action::Stage { scope: StageScope::All }
                } else if changed.len() > 0 {
                    let changed_for_action = clone_string_vec(&changed);
                    self.phase = Phase::SelectingFiles { changed };
                    Action::AskSelectFiles { changed: changed_for_action }
                } else {
                    self.phase = Phase::Cancelled;
                    Action::Finish { outcome: SessionOutcome::Cancelled }
                }
            },
            (Phase::SelectingFiles { changed }, Event::FilesSelected { selection }) => {
                match selection {
                    Some(sel) => {
                        if sel.len() > 0 {
                            let files = pick_files(&changed, &sel);
                            self.phase = Phase::Staging;
                            Action::Stage { scope: StageScope::Selected { files } }
                        } else {
                            self.phase = Phase::Cancelled;
                            Action::Finish { outcome: SessionOutcome::Cancelled }
                        }
                    },
                    None => {
                        self.phase = Phase::Cancelled;
                        Action::Finish { outcome: SessionOutcome::Cancelled }
                    },
                }
            },
            (Phase::Staging, Event::StageFinished { result }) => match result {
                Ok(_) => {
                    self.phase = Phase::Counting;
                    Action::QueryStaged
                },
                Err(e) => self.fail_repository(e),
            },
            (Phase::Counting, Event::StagedReported { staged }) => {
                if staged.len() > 0 {
                    let staged_for_action = clone_string_vec(&staged);
                    self.phase = Phase::Diffing { staged };
                    Action::GetStagedDiff { staged: staged_for_action }
                } else {
                    self.phase = Phase::CheckingChanges;
                    Action::QueryWorkingTree
                }
            },
            (Phase::Diffing { staged }, Event::DiffReady { result }) => match result {
                Ok(diff) => {
                    let default_message = match &self.prefs.default_commit_message {
                        Some(m) => Some(m.clone()),
                        None => None,
                    };
                    match default_message {
                        Some(message) => self.enter_review(staged, diff, message),
                        None => {
                            if self.options.skip_chatbot {
                                self.phase = Phase::Failed {
                                    reason: FailureReason::MissingDefaultMessage,
                                };
                                Action::Finish {
                                    outcome: SessionOutcome::Failed {
                                        reason: FailureReason::MissingDefaultMessage,
                                    },
                                }
                            } else {
                                let context = self.generation_context(&diff, false);
                                self.phase = Phase::Generating { staged, diff };
                                Action::Generate { context }
                            }
                        },
                    }
                },
                Err(e) => self.fail_repository(e),
            },
            (Phase::Generating { staged, diff }, Event::MessageGenerated { result }) => {
                match result {
                    Ok(message) => self.enter_review(staged, diff, message),
                    Err(error) => {
                        let outcome_error = error.duplicate();
                        self.phase = Phase::Failed {
                            reason: FailureReason::Generation { error },
                        };
                        Action::Finish {
                            outcome: SessionOutcome::Failed {
                                reason: FailureReason::Generation { error: outcome_error },
                            },
                        }
                    },
                }
            },
            (Phase::ReviewingMessage { staged, diff, message }, Event::ReviewAnswer { choice }) => {
                match choice {
                    ReviewChoice::Accept => {
                        let name = self.prefs.author_name.clone();
                        let email = self.prefs.author_email.clone();
                        let message_for_action = message.clone();
                        self.phase = Phase::Committing { message };
                        Action::Commit { message: message_for_action, name, email }
                    },
                    ReviewChoice::Regenerate => {
                        let context = self.generation_context(&diff, true);
                        self.phase = Phase::Generating { staged, diff };
                        Action::Generate { context }
                    },
                    ReviewChoice::Cancel => {
                        self.phase = Phase::Cancelled;
                        Action::Finish { outcome: SessionOutcome::Cancelled }
                    },
                }
            },
            (Phase::Committing { .. }, Event::CommitFinished { result }) => match result {
                Ok(_) => {
                    if self.options.skip_push_confirmation || behavior_is(
                        &self.prefs.default_push_behavior,
                        DefaultBehavior::Yes,
                    ) {
                        self.phase = Phase::RemoteSelection;
                        Action::ListRemotes
                    } else if behavior_is(&self.prefs.default_push_behavior, DefaultBehavior::No) {
                        self.phase = Phase::LoopDecision;
                        Action::AskContinue
                    } else {
                        self.phase = Phase::PushDecision;
                        Action::AskPush
                    }
                },
                Err(e) => self.fail_repository(e),
            },
            (Phase::PushDecision, Event::PushAnswer { answer }) => {
                if answer == Some(true) {
                    self.phase = Phase::RemoteSelection;
                    Action::ListRemotes
                } else {
                    self.phase = Phase::LoopDecision;
                    Action::AskContinue
                }
            },
            (Phase::RemoteSelection, Event::RemotesListed { remotes }) => {
                if remotes.len() == 0 {
                    self.phase = Phase::LoopDecision;
                    Action::AskContinue
                } else if remotes.len() == 1 {
                    let remote = remotes[0].clone();
                    let remote_for_action = remote.clone();
                    self.phase = Phase::PullDecision { remote };
                    Action::AskPull { remote: remote_for_action }
                } else {
                    let remotes_for_action = clone_string_vec(&remotes);
                    self.phase = Phase::ChoosingRemote { remotes };
                    Action::AskRemoteChoice { remotes: remotes_for_action }
                }
            },
            (Phase::ChoosingRemote { remotes }, Event::RemoteChosen { selection }) => {
                match selection {
                    Some(i) => {
                        let remote = remotes[i].clone();
                        let remote_for_action = remote.clone();
                        self.phase = Phase::PullDecision { remote };
                        Action::AskPull { remote: remote_for_action }
                    },
                    None => {
                        self.phase = Phase::LoopDecision;
                        Action::AskContinue
                    },
                }
            },
            (Phase::PullDecision { remote }, Event::PullAnswer { answer }) => {
                if answer == Some(true) {
                    let remote_for_action = remote.clone();
                    self.phase = Phase::Pulling { remote };
                    Action::Pull { remote: remote_for_action }
                } else {
                    let remote_for_action = remote.clone();
                    let branch = self.clone_branch_name();
                    self.phase = Phase::Pushing { remote };
                    Action::Push { remote: remote_for_action, branch }
                }
            },
            (Phase::Pulling { remote }, Event::PullFinished { result }) => match result {
                Ok(_) => {
                    let remote_for_action = remote.clone();
                    let branch = self.clone_branch_name();
                    self.phase = Phase::Pushing { remote };
                    Action::Push { remote: remote_for_action, branch }
                },
                Err(e) => self.fail_repository(e),
            },
            (Phase::Pushing { .. }, Event::PushFinished { result }) => match result {
                Ok(_) => {
                    self.phase = Phase::LoopDecision;
                    Action::AskContinue
                },
                Err(e) => self.fail_repository(e),
            },
            (Phase::LoopDecision, Event::ContinueAnswer { answer }) => {
                if answer == Some(true) {
                    self.phase = Phase::CheckingChanges;
                    Action::QueryWorkingTree
                } else {
                    self.phase = Phase::Done;
                    Action::Finish { outcome: SessionOutcome::Done }
                }
            },
            _ => unreached(),
        };
        action
    }

    /// Records a repository failure and ends the session.
    fn fail_repository(&mut self, e: String) -> (action: Action)
        ensures
            final(self).phase == (Phase::Failed {
                reason: FailureReason::Repository { message: e },
            }),
            final(self).prefs == old(self).prefs,
            final(self).options == old(self).options,
            action@ == (ActionV::Finish {
                outcome: SessionOutcomeV::Failed {
                    reason: FailureReasonV::Repository { message: e@ },
                },
            }),
    {
        let message_for_action = e.clone();
        self.phase = Phase::Failed { reason: FailureReason::Repository { message: e } };
        Action::Finish {
            outcome: SessionOutcome::Failed {
                reason: FailureReason::Repository { message: message_for_action },
            },
        }
    }

    /// Resolves the review entry: commit at once, cancel at once, or ask.
    fn enter_review(&mut self, staged: Vec<String>, diff: String, message: String) -> (action:
        Action)
        ensures
            final(self).phase == review_entry_phase(*old(self), staged, diff, message),
            final(self).prefs == old(self).prefs,
            final(self).options == old(self).options,
            action@ == review_entry_action(*old(self), message),
    {
        if self.options.skip_commit_confirmation && behavior_is(
            &self.prefs.default_commit_behavior,
            DefaultBehavior::Yes,
        ) {
            let name = self.prefs.author_name.clone();
            let email = self.prefs.author_email.clone();
            let message_for_action = message.clone();
            self.phase = Phase::Committing { message };
            Action::Commit { message: message_for_action, name, email }
        } else if self.options.skip_commit_confirmation && behavior_is(
            &self.prefs.default_commit_behavior,
            DefaultBehavior::No,
        ) {
            self.phase = Phase::Cancelled;
            Action::Finish { outcome: SessionOutcome::Cancelled }
        } else {
            let message_for_action = message.clone();
            self.phase = Phase::ReviewingMessage { staged, diff, message };
            Action::AskReview { message: message_for_action }
        }
    }

    /// An owned copy of the requested branch name.
    fn clone_branch_name(&self) -> (r: Option<String>)
        ensures
            r.deep_view() == self.options.branch_name.deep_view(),
    {
        match &self.options.branch_name {
            Some(b) => Some(b.clone()),
            None => None,
        }
    }

    /// Builds the context for one generation attempt, wholly afresh.
    fn generation_context(&self, diff: &String, regen: bool) -> (r: ChatContext)
        ensures
            r@ == generation_context_spec(self.prefs@, diff@, regen),
    {
        let mut context = ChatContextBuilder::build(&self.prefs);
        let content: String = if regen {
            let mut c = String::new();
            c.append("Suggest a professional git commit message\n");
            c.append(diff.as_str());
            proof {
                assert(c@ =~= regen_content_spec(diff@));
            }
            c
        } else {
            diff.clone()
        };
        context.add_message(MessageRole::User, content);
        context
    }
}

/// Whether an optional behavior is exactly the given one.
fn behavior_is(b: &Option<DefaultBehavior>, wanted: DefaultBehavior) -> (r: bool)
    ensures
        r == (*b == Some(wanted)),
{
    match b {
        Some(x) => *x == wanted,
        None => false,
    }
}

/// Rebuilds an owned copy of a list of names.
fn clone_string_vec(v: &Vec<String>) -> (r: Vec<String>)
    ensures
        r.deep_view() == v.deep_view(),
{
    let mut out: Vec<String> = Vec::new();
    let mut i: usize = 0;
    while i < v.len()
        invariant
            i <= v@.len(),
            out@.len() == i,
            forall|j: int| 0 <= j < i ==> #[trigger] out.deep_view()[j] == v.deep_view()[j],
        decreases v@.len() - i,
    {
        let s = v[i].clone();
        let ghost pre = out.deep_view();
        let ghost prev = out@;
        out.push(s);
        proof {
            assert forall|j: int| 0 <= j < i + 1 implies #[trigger] out.deep_view()[j]
                == v.deep_view()[j] by {
                if j < i {
                    assert(out@[j] == prev[j]);
                    assert(pre[j] == v.deep_view()[j]);
                    assert(out.deep_view()[j] == out@[j].deep_view());
                    assert(pre[j] == prev[j].deep_view());
                } else {
                    assert(out@[j] == s);
                }
            }
        }
        i = i + 1;
    }
    proof {
        assert(out.deep_view() =~= v.deep_view());
    }
    out
}

/// Picks the selected names out of the changed list.
fn pick_files(changed: &Vec<String>, sel: &Vec<usize>) -> (r: Vec<String>)
    requires
        forall|j: int| 0 <= j < sel@.len() ==> (#[trigger] sel@[j]) < changed@.len(),
    ensures
        r.deep_view() == selected_files_spec(changed.deep_view(), sel@),
{
    let mut out: Vec<String> = Vec::new();
    let mut i: usize = 0;
    while i < sel.len()
        invariant
            forall|j: int| 0 <= j < sel@.len() ==> (#[trigger] sel@[j]) < changed@.len(),
            i <= sel@.len(),
            out@.len() == i,
            forall|j: int|
                0 <= j < i ==> #[trigger] out.deep_view()[j] == changed.deep_view()[sel@[j] as int],
        decreases sel@.len() - i,
    {
        let idx = sel[i];
        let s = changed[idx].clone();
        let ghost pre = out.deep_view();
        let ghost prev = out@;
        out.push(s);
        proof {
            assert forall|j: int| 0 <= j < i + 1 implies #[trigger] out.deep_view()[j]
                == changed.deep_view()[sel@[j] as int] by {
                if j < i {
                    assert(out@[j] == prev[j]);
                    assert(pre[j] == changed.deep_view()[sel@[j] as int]);
                    assert(out.deep_view()[j] == out@[j].deep_view());
                    assert(pre[j] == prev[j].deep_view());
                } else {
                    assert(out@[j] == s);
                    assert(changed.deep_view()[idx as int] == changed@[idx as int]@);
                }
            }
        }
        i = i + 1;
    }
    proof {
        assert(out.deep_view() =~= selected_files_spec(changed.deep_view(), sel@));
    }
    out
}

/// The staged set is never empty on the way into generation: every phase
/// that carries staged files toward a generator call carries at least one.
pub open spec fn staged_nonempty_inv(o: CommitOrchestrator) -> bool {
    match o.phase {
        Phase::Diffing { staged } => staged@.len() > 0,
        Phase::Generating { staged, diff: _ } => staged@.len() > 0,
        Phase::ReviewingMessage { staged, diff: _, message: _ } => staged@.len() > 0,
        _ => true,
    }
}

/// Every step preserves the staged-set invariant: the machine never enters
/// `Generating` while the staged set is empty.
pub proof fn lemma_step_preserves_staged_nonempty(o: CommitOrchestrator, event: Event)
    requires
        event_expected(o, event),
        staged_nonempty_inv(o),
    ensures
        staged_nonempty_inv(step_next(o, event)),
{
}

/// A generator call is only ever requested with a non-empty staged set: no
/// generation happens on an empty diff.
pub proof fn lemma_generate_needs_staged_files(o: CommitOrchestrator, event: Event)
    requires
        event_expected(o, event),
        staged_nonempty_inv(o),
        step_action(o, event) is Generate,
    ensures
        step_next(o, event).phase matches Phase::Generating { staged, diff } && staged@.len() > 0,
{
}

/// `Committing` is reached only by an explicit accept at review, or by the
/// configured yes-default when confirmation is skipped; no path commits
/// without one of the two.
pub proof fn lemma_commit_needs_accept(o: CommitOrchestrator, event: Event)
    requires
        event_expected(o, event),
        step_next(o, event).phase is Committing,
    ensures
        (o.phase is ReviewingMessage && event matches Event::ReviewAnswer {
            choice: ReviewChoice::Accept,
        }) || ((o.phase is Generating || o.phase is Diffing) && o.options.skip_commit_confirmation
            && o.prefs.default_commit_behavior == Some(DefaultBehavior::Yes)),
{
}

/// The commit action is only ever requested under the same accept signal.
pub proof fn lemma_commit_action_needs_accept(o: CommitOrchestrator, event: Event)
    requires
        event_expected(o, event),
        step_action(o, event) is Commit,
    ensures
        (o.phase is ReviewingMessage && event matches Event::ReviewAnswer {
            choice: ReviewChoice::Accept,
        }) || ((o.phase is Generating || o.phase is Diffing) && o.options.skip_commit_confirmation
            && o.prefs.default_commit_behavior == Some(DefaultBehavior::Yes)),
{
}

/// Each regeneration builds a wholly new context from the preferences and the
/// diff alone: it has one message more than the initial context, however many
/// times the user has already regenerated.
pub proof fn lemma_regeneration_context_fresh(
    o: CommitOrchestrator,
    staged: Vec<String>,
    diff: String,
    message: String,
)
    requires
        o.phase == (Phase::ReviewingMessage { staged, diff, message }),
    ensures
        step_action(o, Event::ReviewAnswer { choice: ReviewChoice::Regenerate })
            == (ActionV::Generate { context: generation_context_spec(o.prefs@, diff@, true) }),
        generation_context_spec(o.prefs@, diff@, true).len() == initial_context_spec(
            o.prefs@,
        ).len() + 1,
{
}

} // verus!
