use check_commit::message::{build_header, build_issue_trailer, build_todo_footer, holds_index};

fn items() -> Vec<String> {
    vec!["Tests pass".to_string(), "Docs updated".to_string(), "Reviewed".to_string()]
}

#[test]
fn header_with_scope() {
    assert_eq!(build_header("feat", Some("ui"), "Add button"), "feat(ui): Add button");
}

#[test]
fn header_without_scope() {
    assert_eq!(build_header("fix", None, "x"), "fix: x");
}

#[test]
fn header_with_empty_scope_has_no_parentheses() {
    assert_eq!(build_header("chore", Some(""), "tidy"), "chore: tidy");
}

#[test]
fn footer_empty_when_all_confirmed() {
    assert_eq!(build_todo_footer(&items(), &vec![2, 0, 1]), "");
}

#[test]
fn footer_empty_for_empty_checklist() {
    assert_eq!(build_todo_footer(&Vec::new(), &Vec::new()), "");
}

#[test]
fn footer_lists_unconfirmed_in_order() {
    assert_eq!(
        build_todo_footer(&items(), &vec![1]),
        "\n\nTODO:\n- [ ] Tests pass\n- [ ] Reviewed"
    );
}

#[test]
fn footer_lists_all_when_none_confirmed() {
    assert_eq!(
        build_todo_footer(&items(), &Vec::new()),
        "\n\nTODO:\n- [ ] Tests pass\n- [ ] Docs updated\n- [ ] Reviewed"
    );
}

#[test]
fn footer_single_unconfirmed() {
    assert_eq!(build_todo_footer(&items(), &vec![0, 2]), "\n\nTODO:\n- [ ] Docs updated");
}

#[test]
fn trailer_with_issue() {
    assert_eq!(build_issue_trailer(Some("#42")), "\n\nRefs: #42");
}

#[test]
fn trailer_without_issue() {
    assert_eq!(build_issue_trailer(None), "");
}

#[test]
fn index_lookup() {
    assert!(holds_index(&vec![3, 5, 7], 5));
    assert!(!holds_index(&vec![3, 5, 7], 4));
    assert!(!holds_index(&Vec::new(), 0));
}
