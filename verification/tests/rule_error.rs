use rome_js_analyze::rule_error::RuleError;

#[test]
fn message_names_group_and_rule() {
    let e = RuleError::ReplacedRootWithNonRootError {
        rule_name: Some(("correctness".to_string(), "noDoubleEquals".to_string())),
    };
    assert_eq!(
        e.message(),
        "the rule 'correctness/noDoubleEquals' replaced the root of the file with a non-root node."
    );
}

#[test]
fn message_of_anonymous_action() {
    let e = RuleError::ReplacedRootWithNonRootError { rule_name: None };
    assert_eq!(
        e.message(),
        "a code action replaced the root of the file with a non-root node."
    );
}

#[test]
fn message_with_empty_names() {
    let e = RuleError::ReplacedRootWithNonRootError {
        rule_name: Some((String::new(), String::new())),
    };
    assert_eq!(
        e.message(),
        "the rule '/' replaced the root of the file with a non-root node."
    );
}

#[test]
fn rule_errors_compare_by_rule_name() {
    let a = RuleError::ReplacedRootWithNonRootError {
        rule_name: Some(("a".to_string(), "b".to_string())),
    };
    assert_eq!(a.clone(), a);
    assert_ne!(a, RuleError::ReplacedRootWithNonRootError { rule_name: None });
}
