use harper_c::{
    harper_create_document, harper_free_lints, harper_get_lint_end, harper_get_lint_message,
    harper_get_lint_start, harper_get_lints, Lint, Span,
};

#[test]
fn lints_null_document_returns_null() {
    let findings = vec![Lint::new("unused".to_string(), 0, 1)];
    assert!(harper_get_lints(None, Some(findings)).is_none());
}

#[test]
fn lints_absent_findings_return_null() {
    let doc = harper_create_document(Some(b"The cat sat.".to_vec()), Vec::new()).unwrap();
    assert!(harper_get_lints(Some(&doc), None).is_none());
}

#[test]
fn clean_text_yields_empty_array() {
    // A document with no findings: the array exists and its count is zero.
    let doc = harper_create_document(Some(b"The cat sat.".to_vec()), Vec::new()).unwrap();
    let lints = harper_get_lints(Some(&doc), Some(Vec::new())).unwrap();
    assert_eq!(lints.len(), 0);
}

#[test]
fn findings_pass_through_in_order() {
    // A misspelling finding covering "Teh" in "Teh cat sat.", then a second
    // finding: both come back unchanged and in the engine's order.
    let spans = vec![Span { start: 0, end: 3 }];
    let doc = harper_create_document(Some(b"Teh cat sat.".to_vec()), spans).unwrap();
    let findings = vec![
        Lint::new("Did you mean to spell \u{201c}Teh\u{201d} this way?".to_string(), 0, 3),
        Lint::new("Sentence starts with a lowercase letter.".to_string(), 4, 7),
    ];
    let lints = harper_get_lints(Some(&doc), Some(findings)).unwrap();
    assert_eq!(lints.len(), 2);
    let first_message = harper_get_lint_message(Some(&lints[0])).unwrap();
    assert!(!first_message.is_empty());
    assert_eq!(harper_get_lint_start(Some(&lints[0])), 0);
    assert_eq!(harper_get_lint_end(Some(&lints[0])), 3);
    assert_eq!(harper_get_lint_start(Some(&lints[1])), 4);
    assert_eq!(harper_get_lint_end(Some(&lints[1])), 7);
    harper_free_lints(Some(lints));
}

#[test]
fn lint_message_returns_exact_bytes() {
    let lint = Lint::new("a b c".to_string(), 2, 5);
    assert_eq!(harper_get_lint_message(Some(&lint)).unwrap(), b"a b c".to_vec());
}

#[test]
fn lint_message_null_returns_null() {
    assert!(harper_get_lint_message(None).is_none());
}

#[test]
fn lint_message_rejects_interior_nul() {
    let lint = Lint::new("a\0b".to_string(), 0, 1);
    assert!(harper_get_lint_message(Some(&lint)).is_none());
}

#[test]
fn lint_offsets_null_return_minus_one() {
    assert_eq!(harper_get_lint_start(None), -1);
    assert_eq!(harper_get_lint_end(None), -1);
}

#[test]
fn lint_offsets_return_span() {
    let lint = Lint::new("m".to_string(), 5, 9);
    assert_eq!(harper_get_lint_start(Some(&lint)), 5);
    assert_eq!(harper_get_lint_end(Some(&lint)), 9);
}

#[test]
fn lint_offsets_clamp_to_integer_maximum() {
    let lint = Lint::new("m".to_string(), usize::MAX, usize::MAX);
    assert_eq!(harper_get_lint_start(Some(&lint)), i32::MAX);
    assert_eq!(harper_get_lint_end(Some(&lint)), i32::MAX);
}

#[test]
fn lint_accessors_are_idempotent() {
    let lint = Lint::new("same either time".to_string(), 1, 4);
    assert_eq!(
        harper_get_lint_message(Some(&lint)),
        harper_get_lint_message(Some(&lint))
    );
    assert_eq!(
        harper_get_lint_start(Some(&lint)),
        harper_get_lint_start(Some(&lint))
    );
}

#[test]
fn free_lints_accepts_null_and_owned() {
    harper_free_lints(None);
    let batch = vec![Lint::new("x".to_string(), 0, 1), Lint::new("y".to_string(), 1, 2)];
    harper_free_lints(Some(batch));
}
