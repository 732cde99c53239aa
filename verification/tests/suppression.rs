use rome_js_analyze::suppression::{
    linter_suppression_kinds, suppression_kind, SuppressionCategory, SuppressionKind,
};

fn cat(name: &str, value: Option<&str>) -> SuppressionCategory {
    SuppressionCategory { name: name.to_string(), value: value.map(|v| v.to_string()) }
}

#[test]
fn lint_without_value_suppresses_everything() {
    assert_eq!(suppression_kind(&cat("lint", None)), Some(SuppressionKind::Everything));
}

#[test]
fn lint_with_value_is_maybe_legacy() {
    assert_eq!(
        suppression_kind(&cat("lint", Some("correctness/noDoubleEquals"))),
        Some(SuppressionKind::MaybeLegacy("correctness/noDoubleEquals".to_string()))
    );
}

#[test]
fn lint_rule_path_is_stripped() {
    assert_eq!(
        suppression_kind(&cat("lint/correctness/noDoubleEquals", None)),
        Some(SuppressionKind::Rule("correctness/noDoubleEquals".to_string()))
    );
    assert_eq!(
        suppression_kind(&cat("lint/correctness", Some("ignored"))),
        Some(SuppressionKind::Rule("correctness".to_string()))
    );
}

#[test]
fn bare_lint_slash_gives_empty_rule() {
    assert_eq!(suppression_kind(&cat("lint/", None)), Some(SuppressionKind::Rule(String::new())));
}

#[test]
fn other_categories_are_ignored() {
    assert_eq!(suppression_kind(&cat("suppressions/unused", None)), None);
    assert_eq!(suppression_kind(&cat("linter", None)), None);
    assert_eq!(suppression_kind(&cat("lin", None)), None);
    assert_eq!(suppression_kind(&cat("", None)), None);
    assert_eq!(suppression_kind(&cat("Lint/correctness", None)), None);
    assert_eq!(suppression_kind(&cat("format", Some("x"))), None);
}

#[test]
fn kinds_keep_the_order_of_categories() {
    let cats = vec![
        cat("lint/correctness/useWhile", None),
        cat("suppressions/unused", None),
        cat("lint", Some("correctness/noDoubleEquals")),
        cat("lint", None),
    ];
    assert_eq!(
        linter_suppression_kinds(&cats),
        vec![
            SuppressionKind::Rule("correctness/useWhile".to_string()),
            SuppressionKind::MaybeLegacy("correctness/noDoubleEquals".to_string()),
            SuppressionKind::Everything,
        ]
    );
}

#[test]
fn kinds_of_concatenated_categories_concatenate() {
    let a = vec![cat("lint/a", None), cat("x", None)];
    let b = vec![cat("lint", None), cat("lint/b/c", None)];
    let mut ab = a.clone();
    ab.extend(b.clone());
    let mut expected = linter_suppression_kinds(&a);
    expected.extend(linter_suppression_kinds(&b));
    assert_eq!(linter_suppression_kinds(&ab), expected);
    assert!(linter_suppression_kinds(&ab).len() <= ab.len());
}

#[test]
fn no_categories_no_kinds() {
    assert_eq!(linter_suppression_kinds(&Vec::new()), Vec::new());
}
