use check_commit::cli::{status_report, Commands};
use check_commit::git::{outcome, status};
use check_commit::workflow::{Action, CommitFlow, CommitRequest, DodConfig, Event};

fn dod_checklist() -> Vec<String> {
    vec![
        "Code is clean, readable, and adheres to team coding standards.".to_string(),
        "All relevant automated tests (unit, integration) pass successfully.".to_string(),
        "New features or bug fixes are covered by appropriate new tests.".to_string(),
        "Security implications of this change have been considered.".to_string(),
        "Relevant documentation (code comments, READMEs, etc.) is updated.".to_string(),
    ]
}

#[test]
fn test_status_command() {
    let inv = status(false);
    assert_eq!(inv.command, "status");
    assert_eq!(inv.args, vec!["--short".to_string()]);
    let text = outcome(true, " M src/lib.rs\n", "").unwrap();
    let report = status_report(&text);
    assert!(report.contains("Git Status"));
    assert_eq!(report, "Git Status:\nM src/lib.rs");
}

#[test]
fn test_commit_command() {
    let command = Commands::Commit {
        commit_type: "feat".to_string(),
        scope: Some("ui".to_string()),
        message: "Add new button".to_string(),
        skip_checklist: true,
        issue: None,
    };
    let request = command.request().unwrap();
    let config = DodConfig { issue_reference_required: Some(false), checklist: dod_checklist() };
    let mut flow = CommitFlow::new(request, config);
    let mut steps = Vec::new();
    let mut action = flow.advance(Event::Begin);
    loop {
        match action {
            Action::Run(step) => {
                let inv = flow.invocation(step, false);
                steps.push((inv.command.clone(), inv.args.clone()));
                action = flow.advance(Event::StepSucceeded);
            }
            Action::Finish(result) => {
                assert!(matches!(result, Ok(true)));
                break;
            }
            other => panic!("unexpected action {:?}", other),
        }
    }
    assert_eq!(flow.commit_message(), "feat(ui): Add new button");
    assert_eq!(steps.len(), 4);
    assert_eq!(steps[0].0, "add");
    assert_eq!(steps[1].0, "pull");
    assert_eq!(steps[2].0, "commit");
    assert_eq!(steps[2].1, vec!["-m".to_string(), "feat(ui): Add new button".to_string()]);
    assert_eq!(steps[3].0, "push");
}
