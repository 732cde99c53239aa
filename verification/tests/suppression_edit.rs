use rome_js_analyze::suppression_edit::{
    choose_suppression_token, suppression_comment_edit, SuppressionEdit, TokenAtOffset,
    TriviaPiece, TriviaPieceKind,
};
use rome_js_analyze::tokens::TokenInfo;

fn tok(start: u32, nl: bool, jsx: Option<usize>) -> TokenInfo {
    TokenInfo { start, leading_trivia_has_newline: nl, text_has_newline: false, jsx_child_ancestor: jsx }
}

fn piece(kind: TriviaPieceKind, text: &str) -> TriviaPiece {
    TriviaPiece { kind, text: text.to_string() }
}

#[test]
fn single_token_takes_first_token_of_line() {
    let tokens = vec![tok(0, false, None), tok(3, true, None), tok(5, false, None)];
    assert_eq!(choose_suppression_token(&tokens, TokenAtOffset::Single(2), 5), Some(1));
}

#[test]
fn single_token_on_first_row_takes_first_token() {
    let tokens = vec![tok(0, false, None), tok(2, false, None), tok(5, false, None)];
    assert_eq!(choose_suppression_token(&tokens, TokenAtOffset::Single(2), 5), Some(0));
}

#[test]
fn between_tokens_takes_right_when_diagnostic_starts_there() {
    let tokens = vec![tok(0, false, None), tok(4, false, None)];
    assert_eq!(choose_suppression_token(&tokens, TokenAtOffset::Between(0, 1), 4), Some(1));
    assert_eq!(choose_suppression_token(&tokens, TokenAtOffset::Between(0, 1), 3), Some(0));
}

#[test]
fn no_token_no_edit() {
    let tokens = vec![tok(0, false, None)];
    assert_eq!(choose_suppression_token(&tokens, TokenAtOffset::NoToken, 0), None);
    assert_eq!(suppression_comment_edit(&tokens, TokenAtOffset::NoToken, 0, "rome-ignore lint: x"), None);
}

#[test]
fn line_comment_goes_on_its_own_line() {
    let tokens = vec![tok(0, false, None), tok(3, true, None), tok(5, false, None)];
    let edit = suppression_comment_edit(
        &tokens,
        TokenAtOffset::Single(2),
        5,
        "rome-ignore lint/correctness/noDoubleEquals: <explanation>",
    );
    assert_eq!(
        edit,
        Some(SuppressionEdit::ReplaceTokenLeadingTrivia {
            token: 1,
            trivia: vec![
                piece(TriviaPieceKind::Newline, "\n"),
                piece(
                    TriviaPieceKind::SingleLineComment,
                    "// rome-ignore lint/correctness/noDoubleEquals: <explanation> "
                ),
                piece(TriviaPieceKind::Newline, "\n"),
            ],
        })
    );
}

#[test]
fn jsx_comment_goes_before_the_jsx_child() {
    let tokens = vec![tok(0, false, None), tok(3, true, Some(7)), tok(5, false, Some(7))];
    let edit = suppression_comment_edit(&tokens, TokenAtOffset::Single(2), 5, "rome-ignore lint/a11y/useAltText: x");
    assert_eq!(
        edit,
        Some(SuppressionEdit::InsertJsxComment {
            element: 7,
            comment: piece(TriviaPieceKind::SingleLineComment, "/* rome-ignore lint/a11y/useAltText: x */"),
        })
    );
}

#[test]
fn between_tokens_edit_uses_left_token() {
    let tokens = vec![tok(0, true, None), tok(4, false, None)];
    let edit = suppression_comment_edit(&tokens, TokenAtOffset::Between(0, 1), 2, "t");
    assert_eq!(
        edit,
        Some(SuppressionEdit::ReplaceTokenLeadingTrivia {
            token: 0,
            trivia: vec![
                piece(TriviaPieceKind::Newline, "\n"),
                piece(TriviaPieceKind::SingleLineComment, "// t "),
                piece(TriviaPieceKind::Newline, "\n"),
            ],
        })
    );
}
