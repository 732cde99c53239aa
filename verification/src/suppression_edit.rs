use vstd::prelude::*;
use vstd::string::*;

use crate::tokens::{
    TokenInfo, find_token_with_newline, has_newline, is_nearest_newline_token,
    lemma_nearest_newline_token_exists, lemma_nearest_newline_token_unique,
};

verus! {

/// Where, in a tree's tokens, the range of a diagnostic starts.
#[derive(Debug, Clone, Copy, PartialEq, Eq)]
pub enum TokenAtOffset {
    /// No token covers the offset.
    NoToken,
    /// One token covers the offset, by its index.
    Single(usize),
    /// The offset falls between two tokens: (left, right).
    Between(usize, usize),
}

/// The kind of a piece of trivia.
#[derive(Debug, Clone, Copy, PartialEq, Eq)]
pub enum TriviaPieceKind {
    Newline,
    SingleLineComment,
}

/// A piece of trivia: its kind and text.
#[derive(Debug, Clone, PartialEq, Eq)]
pub struct TriviaPiece {
    pub kind: TriviaPieceKind,
    pub text: String,
}

/// The edit that places a suppression comment in a tree.
#[derive(Debug, Clone, PartialEq, Eq)]
pub enum SuppressionEdit {
    /// Insert, before the JSX child of the given index, an expression child `{}`
    /// whose `{` carries the comment piece as trailing trivia.
    InsertJsxComment { element: usize, comment: TriviaPiece },
    /// Replace the token of the given index with a copy that carries the given
    /// pieces as leading trivia, transferring the trivia of the old token.
    ReplaceTokenLeadingTrivia { token: usize, trivia: Vec<TriviaPiece> },
}

/// The model of a trivia piece.
pub open spec fn piece_model(p: TriviaPiece) -> (TriviaPieceKind, Seq<char>) {
    (p.kind, p.text@)
}

/// The model of an edit.
pub enum SuppressionEditModel {
    InsertJsxComment { element: int, comment: (TriviaPieceKind, Seq<char>) },
    ReplaceTokenLeadingTrivia { token: int, trivia: Seq<(TriviaPieceKind, Seq<char>)> },
}

impl View for SuppressionEdit {
    type V = SuppressionEditModel;

    open spec fn view(&self) -> SuppressionEditModel {
        match self {
            SuppressionEdit::InsertJsxComment { element, comment } =>
                SuppressionEditModel::InsertJsxComment { element: *element as int, comment: piece_model(*comment) },
            SuppressionEdit::ReplaceTokenLeadingTrivia { token, trivia } =>
                SuppressionEditModel::ReplaceTokenLeadingTrivia {
                    token: *token as int,
                    trivia: trivia@.map_values(|p: TriviaPiece| piece_model(p)),
                },
        }
    }
}

/// The indices of `at` point at tokens of `tokens`.
pub open spec fn offset_in_range(tokens: Seq<TokenInfo>, at: TokenAtOffset) -> bool {
    match at {
        TokenAtOffset::NoToken => true,
        TokenAtOffset::Single(t) => t < tokens.len(),
        TokenAtOffset::Between(l, r) => l < tokens.len() && r < tokens.len(),
    }
}

/// The token that receives the suppression comment. Suppression comments are
/// detected line by line, so for a single token it is the nearest token at or
/// before it that has a newline among its leading trivia (or in its text); where
/// there is none, the diagnostic is on the first row and the comment goes before
/// the root, whose first token is the first token of the tree. Between two
/// tokens, it is the right one where the diagnostic starts exactly at it, else
/// the left one.
pub open spec fn suppression_token(tokens: Seq<TokenInfo>, at: TokenAtOffset, diagnostic_start: u32) -> Option<int> {
    match at {
        TokenAtOffset::NoToken => None,
        TokenAtOffset::Single(t) =>
            if exists|j: int| is_nearest_newline_token(tokens, t as int, j) {
                Some(choose|j: int| is_nearest_newline_token(tokens, t as int, j))
            } else {
                Some(0)
            },
        TokenAtOffset::Between(l, r) =>
            if tokens[r as int].start == diagnostic_start {
                Some(r as int)
            } else {
                Some(l as int)
            },
    }
}

/// The text of a suppression comment inside JSX: `/* text */`.
pub open spec fn jsx_comment_text(text: Seq<char>) -> Seq<char> {
    "/* "@ + text + " */"@
}

/// The text of a suppression comment on a line of its own: `// text `.
pub open spec fn line_comment_text(text: Seq<char>) -> Seq<char> {
    "// "@ + text + " "@
}

/// The leading trivia that puts the suppression comment on a line of its own
/// just above the token: a newline, the comment, a newline.
pub open spec fn line_comment_trivia(text: Seq<char>) -> Seq<(TriviaPieceKind, Seq<char>)> {
    seq![
        (TriviaPieceKind::Newline, "\n"@),
        (TriviaPieceKind::SingleLineComment, line_comment_text(text)),
        (TriviaPieceKind::Newline, "\n"@),
    ]
}

/// The edit that places the suppression comment `text` for a diagnostic that
/// starts at `diagnostic_start`, found at `at` in `tokens`: inside JSX a comment
/// child before the nearest JSX child around the chosen token, elsewhere a line
/// comment in the chosen token's leading trivia; none where no token is found.
pub open spec fn suppression_edit_model(
    tokens: Seq<TokenInfo>,
    at: TokenAtOffset,
    diagnostic_start: u32,
    text: Seq<char>,
) -> Option<SuppressionEditModel> {
    match suppression_token(tokens, at, diagnostic_start) {
        None => None,
        Some(j) => match tokens[j].jsx_child_ancestor {
            Some(e) => Some(SuppressionEditModel::InsertJsxComment {
                element: e as int,
                comment: (TriviaPieceKind::SingleLineComment, jsx_comment_text(text)),
            }),
            None => Some(SuppressionEditModel::ReplaceTokenLeadingTrivia {
                token: j,
                trivia: line_comment_trivia(text),
            }),
        },
    }
}

/// Picks the token that receives a suppression comment (see `suppression_token`).
pub fn choose_suppression_token(tokens: &Vec<TokenInfo>, at: TokenAtOffset, diagnostic_start: u32) -> (chosen: Option<usize>)
    requires
        offset_in_range(tokens@, at),
    ensures
        match chosen {
            Some(j) => suppression_token(tokens@, at, diagnostic_start) == Some(j as int) && j < tokens.len(),
            None => suppression_token(tokens@, at, diagnostic_start) is None,
        },
        // The same, read off the tokens themselves.
        (at is NoToken) <==> chosen is None,
        at matches TokenAtOffset::Between(l, r) ==> chosen == Some(
            if tokens@[r as int].start == diagnostic_start { r } else { l },
        ),
        at matches TokenAtOffset::Single(t) ==> (chosen matches Some(j) && j <= t && (
            tokens@[j as int].leading_trivia_has_newline || tokens@[j as int].text_has_newline || j == 0)
            && forall|k: int| j < k <= t ==> !(#[trigger] tokens@[k]).leading_trivia_has_newline
                && !tokens@[k].text_has_newline),
{
    match at {
        TokenAtOffset::NoToken => None,
        TokenAtOffset::Single(t) => match find_token_with_newline(tokens, t) {
            Some(j) => {
                proof {
                    assert(exists|k: int| is_nearest_newline_token(tokens@, t as int, k));
                    let c = choose|k: int| is_nearest_newline_token(tokens@, t as int, k);
                    lemma_nearest_newline_token_unique(tokens@, t as int, c, j as int);
                }
                Some(j)
            },
            None => {
                proof {
                    if exists|k: int| is_nearest_newline_token(tokens@, t as int, k) {
                        let c = choose|k: int| is_nearest_newline_token(tokens@, t as int, k);
                        assert(has_newline(tokens@[c]));
                    }
                }
                Some(0)
            },
        },
        TokenAtOffset::Between(l, r) => {
            if tokens[r].start == diagnostic_start {
                Some(r)
            } else {
                Some(l)
            }
        },
    }
}

/// For a diagnostic within one token, the comment goes before the first token of
/// the diagnostic's line: the chosen token comes at or before the diagnostic's
/// token, no token after it up to the diagnostic's starts a line, and it starts a
/// line itself or is the first token of the tree.
pub proof fn lemma_comment_token_starts_the_line(tokens: Seq<TokenInfo>, t: usize, diagnostic_start: u32)
    requires
        t < tokens.len(),
    ensures
        suppression_token(tokens, TokenAtOffset::Single(t), diagnostic_start) matches Some(j) && {
            &&& 0 <= j <= t
            &&& tokens[j].leading_trivia_has_newline || tokens[j].text_has_newline || j == 0
            &&& forall|k: int| j < k <= t ==> !(#[trigger] tokens[k]).leading_trivia_has_newline
                && !tokens[k].text_has_newline
        },
{
    if exists|j: int| is_nearest_newline_token(tokens, t as int, j) {
        let c = choose|j: int| is_nearest_newline_token(tokens, t as int, j);
        assert(is_nearest_newline_token(tokens, t as int, c));
        let at = TokenAtOffset::Single(t);
        assert(at matches TokenAtOffset::Single(u) && u == t);
        assert(suppression_token(tokens, at, diagnostic_start) == Some(c));
    } else {
        assert forall|k: int| 0 <= k <= t implies !has_newline(#[trigger] tokens[k]) by {
            if has_newline(tokens[k]) {
                lemma_nearest_newline_token_exists(tokens, t as int, k);
            }
        }
        assert(suppression_token(tokens, TokenAtOffset::Single(t), diagnostic_start) == Some(0int));
    }
}

/// The comment piece `/* text */` placed inside JSX.
fn jsx_comment_piece(text: &str) -> (p: TriviaPiece)
    ensures
        piece_model(p) == (TriviaPieceKind::SingleLineComment, jsx_comment_text(text@)),
{
    let mut s = String::from_str("/* ");
    s.append(text);
    s.append(" */");
    TriviaPiece { kind: TriviaPieceKind::SingleLineComment, text: s }
}

/// The trivia pieces newline, `// text `, newline.
fn line_comment_pieces(text: &str) -> (pieces: Vec<TriviaPiece>)
    ensures
        pieces@.map_values(|p: TriviaPiece| piece_model(p)) == line_comment_trivia(text@),
        pieces@.len() == 3,
        pieces@[0].kind == TriviaPieceKind::Newline && pieces@[0].text@ == "\n"@,
        pieces@[1].kind == TriviaPieceKind::SingleLineComment && pieces@[1].text@ == "// "@ + text@ + " "@,
        pieces@[2].kind == TriviaPieceKind::Newline && pieces@[2].text@ == "\n"@,
{
    let mut comment = String::from_str("// ");
    comment.append(text);
    comment.append(" ");
    let mut pieces: Vec<TriviaPiece> = Vec::new();
    pieces.push(TriviaPiece { kind: TriviaPieceKind::Newline, text: String::from_str("\n") });
    pieces.push(TriviaPiece { kind: TriviaPieceKind::SingleLineComment, text: comment });
    pieces.push(TriviaPiece { kind: TriviaPieceKind::Newline, text: String::from_str("\n") });
    assert(pieces@.map_values(|p: TriviaPiece| piece_model(p)) =~= line_comment_trivia(text@));
    pieces
}

/// Decides where and how the suppression comment `suppression_text` goes, for a
/// diagnostic whose range starts at `diagnostic_start` and is found at `at`.
/// The line-based suppression of the linter wants the comment on the line above
/// the diagnostic, so the chosen token is the first one of its line.
pub fn suppression_comment_edit(
    tokens: &Vec<TokenInfo>,
    at: TokenAtOffset,
    diagnostic_start: u32,
    suppression_text: &str,
) -> (edit: Option<SuppressionEdit>)
    requires
        offset_in_range(tokens@, at),
    ensures
        match edit {
            Some(e) => suppression_edit_model(tokens@, at, diagnostic_start, suppression_text@) == Some(e@),
            None => suppression_edit_model(tokens@, at, diagnostic_start, suppression_text@) is None,
        },
        // Every found token gets a comment; what the edit holds, read off directly.
        (at is NoToken) <==> edit is None,
        edit matches Some(SuppressionEdit::ReplaceTokenLeadingTrivia { token, trivia }) ==> {
            &&& suppression_token(tokens@, at, diagnostic_start) == Some(token as int)
            &&& tokens@[token as int].jsx_child_ancestor is None
            &&& trivia@.len() == 3
            &&& trivia@[0].kind == TriviaPieceKind::Newline && trivia@[0].text@ == "\n"@
            &&& trivia@[1].kind == TriviaPieceKind::SingleLineComment
            &&& trivia@[1].text@ == "// "@ + suppression_text@ + " "@
            &&& trivia@[2].kind == TriviaPieceKind::Newline && trivia@[2].text@ == "\n"@
        },
        edit matches Some(SuppressionEdit::InsertJsxComment { element, comment }) ==> {
            &&& suppression_token(tokens@, at, diagnostic_start) matches Some(j)
            &&& tokens@[j].jsx_child_ancestor == Some(element)
            &&& comment.kind == TriviaPieceKind::SingleLineComment
            &&& comment.text@ == "/* "@ + suppression_text@ + " */"@
        },
{
    match choose_suppression_token(tokens, at, diagnostic_start) {
        None => None,
        Some(j) => match tokens[j].jsx_child_ancestor {
            Some(e) => Some(SuppressionEdit::InsertJsxComment { element: e, comment: jsx_comment_piece(suppression_text) }),
            None => Some(SuppressionEdit::ReplaceTokenLeadingTrivia { token: j, trivia: line_comment_pieces(suppression_text) }),
        },
    }
}

/// Between two tokens, the comment goes on the right one exactly when the
/// diagnostic starts at it, and on the left one otherwise; nothing else of the
/// tokens matters.
pub proof fn lemma_between_tokens_choice(tokens: Seq<TokenInfo>, l: usize, r: usize, diagnostic_start: u32)
    requires
        l < tokens.len(),
        r < tokens.len(),
    ensures
        tokens[r as int].start == diagnostic_start ==> suppression_token(
            tokens,
            TokenAtOffset::Between(l, r),
            diagnostic_start,
        ) == Some(r as int),
        tokens[r as int].start != diagnostic_start ==> suppression_token(
            tokens,
            TokenAtOffset::Between(l, r),
            diagnostic_start,
        ) == Some(l as int),
{
}

/// Wherever a token is found at the diagnostic's offset, a comment is placed:
/// inside JSX a `{/* text */}` child before the chosen token's nearest JSX child,
/// elsewhere the pieces newline, `// text `, newline on the chosen token, whether
/// or not that token has a newline of its own.
pub proof fn lemma_comment_always_placed(
    tokens: Seq<TokenInfo>,
    at: TokenAtOffset,
    diagnostic_start: u32,
    text: Seq<char>,
)
    requires
        offset_in_range(tokens, at),
        !(at is NoToken),
    ensures
        suppression_token(tokens, at, diagnostic_start) matches Some(j) && 0 <= j < tokens.len() && {
            let edit = suppression_edit_model(tokens, at, diagnostic_start, text);
            &&& tokens[j].jsx_child_ancestor is None ==> edit == Some(
                SuppressionEditModel::ReplaceTokenLeadingTrivia {
                    token: j,
                    trivia: seq![
                        (TriviaPieceKind::Newline, "\n"@),
                        (TriviaPieceKind::SingleLineComment, "// "@ + text + " "@),
                        (TriviaPieceKind::Newline, "\n"@),
                    ],
                },
            )
            &&& tokens[j].jsx_child_ancestor matches Some(e) ==> edit == Some(
                SuppressionEditModel::InsertJsxComment {
                    element: e as int,
                    comment: (TriviaPieceKind::SingleLineComment, "/* "@ + text + " */"@),
                },
            )
        },
{
    match at {
        TokenAtOffset::NoToken => {},
        TokenAtOffset::Single(t) => {
            lemma_comment_token_starts_the_line(tokens, t, diagnostic_start);
        },
        TokenAtOffset::Between(l, r) => {},
    }
}

} // verus!
