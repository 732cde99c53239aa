use rome_js_analyze::export_from_clause::{
    FormatError, FormatJsExportFromClause, JsExportFromClauseFields, SyntaxError,
};

fn fields(
    export_as: Option<&str>,
    assertion: Option<&str>,
    semicolon: Option<&str>,
) -> JsExportFromClauseFields {
    JsExportFromClauseFields {
        star_token: Ok("*".to_string()),
        export_as: export_as.map(|s| Ok(s.to_string())),
        from_token: Ok("from".to_string()),
        source: Ok("\"mod\"".to_string()),
        assertion: assertion.map(|s| Ok(s.to_string())),
        semicolon_token: semicolon.map(|s| s.to_string()),
    }
}

#[test]
fn formats_plain_export_star() {
    let out = FormatJsExportFromClause.fmt_fields(&fields(None, None, Some(";")));
    assert_eq!(out, Ok("* from \"mod\";".to_string()));
}

#[test]
fn formats_export_as_and_assertion() {
    let out = FormatJsExportFromClause
        .fmt_fields(&fields(Some("as ns"), Some("assert { type: \"json\" }"), Some(";")));
    assert_eq!(out, Ok("* as ns from \"mod\" assert { type: \"json\" };".to_string()));
}

#[test]
fn inserts_missing_semicolon() {
    let out = FormatJsExportFromClause.fmt_fields(&fields(Some("as ns"), None, None));
    assert_eq!(out, Ok("* as ns from \"mod\";".to_string()));
}

#[test]
fn missing_required_child_is_a_syntax_error() {
    let mut f = fields(None, None, None);
    f.source = Err(SyntaxError::MissingRequiredChild);
    assert_eq!(FormatJsExportFromClause.fmt_fields(&f), Err(FormatError::SyntaxError));
    let mut g = fields(None, None, None);
    g.star_token = Err(SyntaxError::MissingRequiredChild);
    assert_eq!(FormatJsExportFromClause.fmt_fields(&g), Err(FormatError::SyntaxError));
    let mut h = fields(None, None, None);
    h.from_token = Err(SyntaxError::MissingRequiredChild);
    assert_eq!(FormatJsExportFromClause.fmt_fields(&h), Err(FormatError::SyntaxError));
}

#[test]
fn failing_optional_child_is_a_syntax_error() {
    let mut f = fields(Some("as ns"), None, Some(";"));
    f.export_as = Some(Err(SyntaxError::MissingRequiredChild));
    assert_eq!(FormatJsExportFromClause.fmt_fields(&f), Err(FormatError::SyntaxError));
    let mut g = fields(None, Some("assert {}"), Some(";"));
    g.assertion = Some(Err(SyntaxError::MissingRequiredChild));
    assert_eq!(FormatJsExportFromClause.fmt_fields(&g), Err(FormatError::SyntaxError));
}
