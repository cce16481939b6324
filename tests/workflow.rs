use check_commit::git::{outcome, GitError, GitStep};
use check_commit::workflow::{Action, CommitError, CommitFlow, CommitRequest, DodConfig, Event, Phase};

fn request(skip: bool, issue: Option<&str>) -> CommitRequest {
    CommitRequest {
        commit_type: "feat".to_string(),
        scope: Some("ui".to_string()),
        message: "Add new button".to_string(),
        skip_checklist: skip,
        issue: issue.map(|s| s.to_string()),
    }
}

fn config(required: Option<bool>, items: &[&str]) -> DodConfig {
    DodConfig {
        issue_reference_required: required,
        checklist: items.iter().map(|s| s.to_string()).collect(),
    }
}

fn is_run(a: &Action) -> bool {
    matches!(a, Action::Run(_))
}

#[test]
fn missing_issue_fails_without_checklist() {
    let mut flow = CommitFlow::new(request(true, None), config(Some(true), &["a"]));
    let a = flow.advance(Event::Begin);
    assert!(matches!(a, Action::Finish(Err(CommitError::MissingIssueReference))));
    assert_eq!(flow.phase, Phase::Failed);
    assert!(!flow.accepts(&Event::StepSucceeded));
}

#[test]
fn missing_issue_fails_after_interactive_checklist() {
    let mut flow = CommitFlow::new(request(false, None), config(Some(true), &["a", "b"]));
    assert!(matches!(flow.advance(Event::Begin), Action::PromptChecklist));
    let a = flow.advance(Event::Selected(vec![0, 1]));
    assert!(matches!(a, Action::Finish(Err(CommitError::MissingIssueReference))));
    assert_eq!(flow.phase, Phase::Failed);
}

#[test]
fn missing_issue_fails_after_accepting_todo() {
    let mut flow = CommitFlow::new(request(false, None), config(Some(true), &["a", "b"]));
    flow.advance(Event::Begin);
    assert!(matches!(flow.advance(Event::Selected(vec![1])), Action::PromptProceed));
    let a = flow.advance(Event::Proceed(true));
    assert!(!is_run(&a));
    assert!(matches!(a, Action::Finish(Err(CommitError::MissingIssueReference))));
}

#[test]
fn declining_todo_aborts_cleanly() {
    let mut flow = CommitFlow::new(request(false, Some("#7")), config(None, &["a", "b"]));
    assert!(matches!(flow.advance(Event::Begin), Action::PromptChecklist));
    assert!(matches!(flow.advance(Event::Selected(vec![])), Action::PromptProceed));
    let a = flow.advance(Event::Proceed(false));
    assert!(matches!(a, Action::Finish(Ok(false))));
    assert_eq!(flow.phase, Phase::Aborted);
    assert!(!flow.accepts(&Event::StepSucceeded));
    assert!(!flow.accepts(&Event::Begin));
}

#[test]
fn accepting_todo_adds_footer_and_trailer() {
    let mut flow = CommitFlow::new(request(false, Some("#7")), config(Some(true), &["a", "b", "c"]));
    flow.advance(Event::Begin);
    flow.advance(Event::Selected(vec![1]));
    let a = flow.advance(Event::Proceed(true));
    assert!(matches!(a, Action::Run(GitStep::Stage)));
    assert_eq!(
        flow.commit_message(),
        "feat(ui): Add new button\n\nTODO:\n- [ ] a\n- [ ] c\n\nRefs: #7"
    );
}

#[test]
fn full_confirmation_leaves_no_footer() {
    let mut flow = CommitFlow::new(request(false, None), config(Some(false), &["a", "b"]));
    flow.advance(Event::Begin);
    let a = flow.advance(Event::Selected(vec![1, 0]));
    assert!(matches!(a, Action::Run(GitStep::Stage)));
    assert_eq!(flow.commit_message(), "feat(ui): Add new button");
}

#[test]
fn empty_checklist_skips_prompt() {
    let mut flow = CommitFlow::new(request(false, None), config(None, &[]));
    assert!(matches!(flow.advance(Event::Begin), Action::Run(GitStep::Stage)));
}

#[test]
fn skipped_checklist_still_adds_issue_trailer() {
    let mut flow = CommitFlow::new(request(true, Some("ABC-1")), config(None, &["a"]));
    assert!(matches!(flow.advance(Event::Begin), Action::Run(GitStep::Stage)));
    assert_eq!(flow.commit_message(), "feat(ui): Add new button\n\nRefs: ABC-1");
    let inv = flow.invocation(GitStep::Commit, true);
    assert_eq!(inv.args[1], "feat(ui): Add new button\n\nRefs: ABC-1");
    assert!(inv.verbose);
}

#[test]
fn end_to_end_runs_four_steps_in_order() {
    let mut flow = CommitFlow::new(request(true, None), config(None, &[]));
    let mut actions = vec![flow.advance(Event::Begin)];
    for _ in 0..4 {
        actions.push(flow.advance(Event::StepSucceeded));
    }
    assert!(matches!(actions[0], Action::Run(GitStep::Stage)));
    assert!(matches!(actions[1], Action::Run(GitStep::RebasePull)));
    assert!(matches!(actions[2], Action::Run(GitStep::Commit)));
    assert!(matches!(actions[3], Action::Run(GitStep::Push)));
    assert!(matches!(actions[4], Action::Finish(Ok(true))));
    assert_eq!(flow.phase, Phase::Done);
    assert_eq!(flow.commit_message(), "feat(ui): Add new button");
}

#[test]
fn failed_rebase_halts_with_its_text() {
    let mut flow = CommitFlow::new(request(true, None), config(None, &[]));
    assert!(matches!(flow.advance(Event::Begin), Action::Run(GitStep::Stage)));
    assert!(matches!(flow.advance(Event::StepSucceeded), Action::Run(GitStep::RebasePull)));
    let err = outcome(false, "", "error: could not apply 1a2b3c\nCONFLICT in a.rs\n").unwrap_err();
    let a = flow.advance(Event::StepFailed(err));
    match a {
        Action::Finish(Err(e)) => {
            assert!(e.describe().contains("CONFLICT in a.rs"));
            match e {
                CommitError::Gateway(GitError::Git(text)) => {
                    assert_eq!(text, "error: could not apply 1a2b3c\nCONFLICT in a.rs")
                }
                _ => panic!("expected a git failure"),
            }
        }
        other => panic!("unexpected action {:?}", other),
    }
    assert_eq!(flow.phase, Phase::Failed);
    assert!(!flow.accepts(&Event::StepSucceeded));
}

#[test]
fn missing_issue_description() {
    assert_eq!(CommitError::MissingIssueReference.describe(), "Aborted: Issue reference required.");
}
