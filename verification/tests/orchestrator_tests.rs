use autocommit::config_data::SessionPreferences;
use autocommit::default_behavior::DefaultBehavior;
use autocommit::openai::GenerationError;
use autocommit::orchestrator::{
    Action, CommitCommand, CommitOrchestrator, CommitResult, Event, FailureReason, Phase,
    ReviewChoice, SessionOutcome, StageScope,
};

fn plain_prefs() -> SessionPreferences {
    SessionPreferences {
        emoji_enabled: false,
        description_enabled: false,
        locale: String::from("english"),
        author_name: String::from("Ada"),
        author_email: String::from("ada@example.com"),
        default_commit_message: None,
        default_commit_behavior: None,
        default_push_behavior: None,
    }
}

fn plain_options() -> CommitCommand {
    CommitCommand {
        stage_all: false,
        n: 1,
        skip_chatbot: false,
        skip_commit_confirmation: false,
        skip_push_confirmation: false,
        branch_name: None,
    }
}

fn commit_result(message: &str) -> CommitResult {
    CommitResult {
        message: String::from(message),
        branch: String::from("main"),
        commit_hash: String::from("abc123"),
        files_changed: 1,
        insertions: 2,
        deletions: 0,
    }
}

#[test]
fn scenario_no_changes_reaches_done() {
    let mut orch = CommitOrchestrator::new(plain_prefs(), plain_options());
    let action = orch.step(Event::Started);
    assert!(matches!(action, Action::QueryWorkingTree));
    let action = orch.step(Event::FilesReported { changed: vec![], staged: vec![] });
    assert!(matches!(
        action,
        Action::Finish { outcome: SessionOutcome::Done }
    ));
    assert!(matches!(orch.phase, Phase::Done));
}

#[test]
fn scenario_default_message_skips_generator() {
    let mut prefs = plain_prefs();
    prefs.default_commit_message = Some(String::from("Fix typo"));
    prefs.default_commit_behavior = Some(DefaultBehavior::Yes);
    let mut options = plain_options();
    options.skip_chatbot = true;
    options.skip_commit_confirmation = true;
    let mut orch = CommitOrchestrator::new(prefs, options);
    let mut generate_calls = 0;
    let mut commit_messages: Vec<String> = vec![];

    let action = orch.step(Event::Started);
    assert!(matches!(action, Action::QueryWorkingTree));
    let action = orch.step(Event::FilesReported {
        changed: vec![],
        staged: vec![String::from("src/lib.rs")],
    });
    let staged = match action {
        Action::GetStagedDiff { staged } => staged,
        _ => panic!("expected a diff request"),
    };
    assert_eq!(staged, vec![String::from("src/lib.rs")]);
    let action = orch.step(Event::DiffReady { result: Ok(String::from("some diff")) });
    match action {
        Action::Generate { .. } => generate_calls += 1,
        Action::Commit { message, name, email } => {
            commit_messages.push(message);
            assert_eq!(name, "Ada");
            assert_eq!(email, "ada@example.com");
        }
        _ => panic!("expected an immediate commit"),
    }
    assert_eq!(generate_calls, 0);
    assert_eq!(commit_messages, vec![String::from("Fix typo")]);
    assert!(matches!(orch.phase, Phase::Committing { .. }));
    let action = orch.step(Event::CommitFinished { result: Ok(commit_result("Fix typo")) });
    assert!(matches!(action, Action::AskPush));
}

#[test]
fn scenario_rate_limited_generation_fails_session() {
    let mut orch = CommitOrchestrator::new(plain_prefs(), plain_options());
    orch.step(Event::Started);
    let action = orch.step(Event::FilesReported {
        changed: vec![],
        staged: vec![String::from("a.rs")],
    });
    assert!(matches!(action, Action::GetStagedDiff { .. }));
    let action = orch.step(Event::DiffReady { result: Ok(String::from("diff text")) });
    assert!(matches!(action, Action::Generate { .. }));
    let action = orch.step(Event::MessageGenerated {
        result: Err(GenerationError::RateLimited),
    });
    match action {
        Action::Finish { outcome: SessionOutcome::Failed { reason } } => match reason {
            FailureReason::Generation { error } => {
                assert!(matches!(error, GenerationError::RateLimited))
            }
            _ => panic!("expected a generation failure"),
        },
        _ => panic!("expected the session to fail"),
    }
    assert!(matches!(orch.phase, Phase::Failed { .. }));
}

#[test]
fn scenario_three_regenerations_four_calls_one_commit() {
    let mut orch = CommitOrchestrator::new(plain_prefs(), plain_options());
    orch.step(Event::Started);
    orch.step(Event::FilesReported { changed: vec![], staged: vec![String::from("a.rs")] });
    let action = orch.step(Event::DiffReady { result: Ok(String::from("diff text")) });
    let mut generate_calls = 0;
    let mut context_sizes: Vec<usize> = vec![];
    match action {
        Action::Generate { context } => {
            generate_calls += 1;
            context_sizes.push(context.get_messages().len());
        }
        _ => panic!("expected a generator call"),
    }
    for round in 0..3 {
        let action = orch.step(Event::MessageGenerated {
            result: Ok(format!("candidate {}", round)),
        });
        assert!(matches!(action, Action::AskReview { .. }));
        let action = orch.step(Event::ReviewAnswer { choice: ReviewChoice::Regenerate });
        match action {
            Action::Generate { context } => {
                generate_calls += 1;
                context_sizes.push(context.get_messages().len());
            }
            _ => panic!("expected a generator call"),
        }
    }
    let action = orch.step(Event::MessageGenerated { result: Ok(String::from("final message")) });
    assert!(matches!(action, Action::AskReview { .. }));
    let action = orch.step(Event::ReviewAnswer { choice: ReviewChoice::Accept });
    let mut commit_calls = 0;
    match action {
        Action::Commit { message, .. } => {
            commit_calls += 1;
            assert_eq!(message, "final message");
        }
        _ => panic!("expected a commit"),
    }
    assert_eq!(generate_calls, 4);
    assert_eq!(commit_calls, 1);
    // every context is built afresh: none grows beyond one message over the
    // initial three (system, exemplar user, exemplar assistant, diff)
    for size in &context_sizes {
        assert_eq!(*size, 4);
    }
}

#[test]
fn scenario_two_remotes_decline_pull_push_once() {
    let mut orch = CommitOrchestrator::new(plain_prefs(), plain_options());
    orch.step(Event::Started);
    orch.step(Event::FilesReported { changed: vec![], staged: vec![String::from("a.rs")] });
    orch.step(Event::DiffReady { result: Ok(String::from("diff text")) });
    orch.step(Event::MessageGenerated { result: Ok(String::from("msg")) });
    let action = orch.step(Event::ReviewAnswer { choice: ReviewChoice::Accept });
    assert!(matches!(action, Action::Commit { .. }));
    let action = orch.step(Event::CommitFinished { result: Ok(commit_result("msg")) });
    assert!(matches!(action, Action::AskPush));
    let mut pull_calls = 0;
    let mut push_remotes: Vec<String> = vec![];
    let action = orch.step(Event::PushAnswer { answer: Some(true) });
    assert!(matches!(action, Action::ListRemotes));
    let action = orch.step(Event::RemotesListed {
        remotes: vec![String::from("origin"), String::from("backup")],
    });
    assert!(matches!(action, Action::AskRemoteChoice { .. }));
    let action = orch.step(Event::RemoteChosen { selection: Some(1) });
    match action {
        Action::AskPull { remote } => assert_eq!(remote, "backup"),
        _ => panic!("expected the pull question"),
    }
    let action = orch.step(Event::PullAnswer { answer: Some(false) });
    match action {
        Action::Pull { .. } => pull_calls += 1,
        Action::Push { remote, branch } => {
            assert!(branch.is_none());
            push_remotes.push(remote);
        }
        _ => panic!("expected a push"),
    }
    let action = orch.step(Event::PushFinished { result: Ok(()) });
    assert!(matches!(action, Action::AskContinue));
    let action = orch.step(Event::ContinueAnswer { answer: Some(false) });
    assert!(matches!(action, Action::Finish { outcome: SessionOutcome::Done }));
    assert_eq!(pull_calls, 0);
    assert_eq!(push_remotes, vec![String::from("backup")]);
}

#[test]
fn empty_staging_declined_cancels_without_generation() {
    let mut orch = CommitOrchestrator::new(plain_prefs(), plain_options());
    orch.step(Event::Started);
    let action = orch.step(Event::FilesReported {
        changed: vec![String::from("a.rs")],
        staged: vec![],
    });
    assert!(matches!(action, Action::AskStageAll));
    let action = orch.step(Event::StageAllAnswer { answer: Some(false) });
    assert!(matches!(action, Action::AskSelectFiles { .. }));
    let action = orch.step(Event::FilesSelected { selection: None });
    assert!(matches!(
        action,
        Action::Finish { outcome: SessionOutcome::Cancelled }
    ));
    assert!(matches!(orch.phase, Phase::Cancelled));
}

#[test]
fn staging_selection_stages_chosen_files() {
    let mut orch = CommitOrchestrator::new(plain_prefs(), plain_options());
    orch.step(Event::Started);
    orch.step(Event::FilesReported {
        changed: vec![String::from("a.rs"), String::from("b.rs"), String::from("c.rs")],
        staged: vec![],
    });
    orch.step(Event::StageAllAnswer { answer: Some(false) });
    let action = orch.step(Event::FilesSelected { selection: Some(vec![2, 0]) });
    match action {
        Action::Stage { scope: StageScope::Selected { files } } => {
            assert_eq!(files, vec![String::from("c.rs"), String::from("a.rs")]);
        }
        _ => panic!("expected staging of the chosen files"),
    }
    let action = orch.step(Event::StageFinished { result: Ok(()) });
    assert!(matches!(action, Action::QueryStaged));
    let action = orch.step(Event::StagedReported {
        staged: vec![String::from("a.rs"), String::from("c.rs")],
    });
    assert!(matches!(action, Action::GetStagedDiff { .. }));
}

#[test]
fn empty_recount_loops_back_to_checking() {
    let mut orch = CommitOrchestrator::new(plain_prefs(), plain_options());
    orch.step(Event::Started);
    orch.step(Event::FilesReported { changed: vec![String::from("a.rs")], staged: vec![] });
    let action = orch.step(Event::StageAllAnswer { answer: Some(true) });
    assert!(matches!(action, Action::Stage { scope: StageScope::All }));
    orch.step(Event::StageFinished { result: Ok(()) });
    let action = orch.step(Event::StagedReported { staged: vec![] });
    assert!(matches!(action, Action::QueryWorkingTree));
    assert!(matches!(orch.phase, Phase::CheckingChanges));
}

#[test]
fn pull_failure_aborts_push() {
    let mut orch = CommitOrchestrator::new(plain_prefs(), plain_options());
    orch.step(Event::Started);
    orch.step(Event::FilesReported { changed: vec![], staged: vec![String::from("a.rs")] });
    orch.step(Event::DiffReady { result: Ok(String::from("diff")) });
    orch.step(Event::MessageGenerated { result: Ok(String::from("msg")) });
    orch.step(Event::ReviewAnswer { choice: ReviewChoice::Accept });
    orch.step(Event::CommitFinished { result: Ok(commit_result("msg")) });
    orch.step(Event::PushAnswer { answer: Some(true) });
    let action = orch.step(Event::RemotesListed { remotes: vec![String::from("origin")] });
    assert!(matches!(action, Action::AskPull { .. }));
    let action = orch.step(Event::PullAnswer { answer: Some(true) });
    assert!(matches!(action, Action::Pull { .. }));
    let action = orch.step(Event::PullFinished {
        result: Err(String::from("pull refused")),
    });
    match action {
        Action::Finish { outcome: SessionOutcome::Failed { reason } } => match reason {
            FailureReason::Repository { message } => assert_eq!(message, "pull refused"),
            _ => panic!("expected a repository failure"),
        },
        _ => panic!("expected the session to fail"),
    }
}

#[test]
fn commit_failure_surfaces_message() {
    let mut orch = CommitOrchestrator::new(plain_prefs(), plain_options());
    orch.step(Event::Started);
    orch.step(Event::FilesReported { changed: vec![], staged: vec![String::from("a.rs")] });
    orch.step(Event::DiffReady { result: Ok(String::from("diff")) });
    orch.step(Event::MessageGenerated { result: Ok(String::from("msg")) });
    orch.step(Event::ReviewAnswer { choice: ReviewChoice::Accept });
    let action = orch.step(Event::CommitFinished {
        result: Err(String::from("Failed to commit. Have you manually committed recently?")),
    });
    match action {
        Action::Finish { outcome: SessionOutcome::Failed { reason } } => match reason {
            FailureReason::Repository { message } => {
                assert_eq!(message, "Failed to commit. Have you manually committed recently?")
            }
            _ => panic!("expected a repository failure"),
        },
        _ => panic!("expected the session to fail"),
    }
}

#[test]
fn no_remotes_skips_push() {
    let mut orch = CommitOrchestrator::new(plain_prefs(), plain_options());
    orch.step(Event::Started);
    orch.step(Event::FilesReported { changed: vec![], staged: vec![String::from("a.rs")] });
    orch.step(Event::DiffReady { result: Ok(String::from("diff")) });
    orch.step(Event::MessageGenerated { result: Ok(String::from("msg")) });
    orch.step(Event::ReviewAnswer { choice: ReviewChoice::Accept });
    orch.step(Event::CommitFinished { result: Ok(commit_result("msg")) });
    orch.step(Event::PushAnswer { answer: Some(true) });
    let action = orch.step(Event::RemotesListed { remotes: vec![] });
    assert!(matches!(action, Action::AskContinue));
    let action = orch.step(Event::ContinueAnswer { answer: None });
    assert!(matches!(action, Action::Finish { outcome: SessionOutcome::Done }));
}

#[test]
fn push_default_no_skips_to_loop_decision() {
    let mut prefs = plain_prefs();
    prefs.default_push_behavior = Some(DefaultBehavior::No);
    let mut orch = CommitOrchestrator::new(prefs, plain_options());
    orch.step(Event::Started);
    orch.step(Event::FilesReported { changed: vec![], staged: vec![String::from("a.rs")] });
    orch.step(Event::DiffReady { result: Ok(String::from("diff")) });
    orch.step(Event::MessageGenerated { result: Ok(String::from("msg")) });
    orch.step(Event::ReviewAnswer { choice: ReviewChoice::Accept });
    let action = orch.step(Event::CommitFinished { result: Ok(commit_result("msg")) });
    assert!(matches!(action, Action::AskContinue));
    assert!(matches!(orch.phase, Phase::LoopDecision));
}

#[test]
fn continue_answer_resets_stage_all() {
    let mut options = plain_options();
    options.stage_all = true;
    let mut orch = CommitOrchestrator::new(plain_prefs(), options);
    orch.step(Event::Started);
    let action = orch.step(Event::FilesReported {
        changed: vec![String::from("a.rs")],
        staged: vec![],
    });
    assert!(matches!(action, Action::Stage { scope: StageScope::All }));
    orch.step(Event::StageFinished { result: Ok(()) });
    orch.step(Event::StagedReported { staged: vec![String::from("a.rs")] });
    orch.step(Event::DiffReady { result: Ok(String::from("diff")) });
    orch.step(Event::MessageGenerated { result: Ok(String::from("msg")) });
    orch.step(Event::ReviewAnswer { choice: ReviewChoice::Cancel });
    assert!(matches!(orch.phase, Phase::Cancelled));
    assert!(orch.options.stage_all);

    // a second session reaching the loop decision resets the flag
    let mut options = plain_options();
    options.stage_all = true;
    let mut prefs = plain_prefs();
    prefs.default_push_behavior = Some(DefaultBehavior::No);
    let mut orch = CommitOrchestrator::new(prefs, options);
    orch.step(Event::Started);
    orch.step(Event::FilesReported { changed: vec![String::from("a.rs")], staged: vec![] });
    orch.step(Event::StageFinished { result: Ok(()) });
    orch.step(Event::StagedReported { staged: vec![String::from("a.rs")] });
    orch.step(Event::DiffReady { result: Ok(String::from("diff")) });
    orch.step(Event::MessageGenerated { result: Ok(String::from("msg")) });
    orch.step(Event::ReviewAnswer { choice: ReviewChoice::Accept });
    orch.step(Event::CommitFinished { result: Ok(commit_result("msg")) });
    let action = orch.step(Event::ContinueAnswer { answer: Some(true) });
    assert!(matches!(action, Action::QueryWorkingTree));
    assert!(!orch.options.stage_all);
}

#[test]
fn skip_chatbot_without_default_message_fails() {
    let mut options = plain_options();
    options.skip_chatbot = true;
    let mut orch = CommitOrchestrator::new(plain_prefs(), options);
    orch.step(Event::Started);
    orch.step(Event::FilesReported { changed: vec![], staged: vec![String::from("a.rs")] });
    let action = orch.step(Event::DiffReady { result: Ok(String::from("diff")) });
    match action {
        Action::Finish { outcome: SessionOutcome::Failed { reason } } => {
            assert!(matches!(reason, FailureReason::MissingDefaultMessage))
        }
        _ => panic!("expected the session to fail"),
    }
}
