use vstd::prelude::*;
use vstd::string::*;

verus! {

/// Why a child that the grammar requires is not in the tree.
#[derive(Debug, Clone, Copy, PartialEq, Eq)]
pub enum SyntaxError {
    MissingRequiredChild,
}

/// Why formatting failed.
#[derive(Debug, Clone, Copy, PartialEq, Eq)]
pub enum FormatError {
    /// A child that the grammar requires is missing.
    SyntaxError,
}

/// The children of an `export * [as name] from "source" [assert { .. }] [;]`
/// clause, each given by the text it formats to. A required child is
/// `Err(SyntaxError::MissingRequiredChild)` where the tree lacks it. An optional
/// child is `None` where it is absent, and `Some(Err(..))` where it is there but
/// its own formatting fails for a missing child of its own (an `as` clause
/// without its name, an assertion without its brace).
#[derive(Debug, PartialEq, Eq)]
pub struct JsExportFromClauseFields {
    pub star_token: Result<String, SyntaxError>,
    pub export_as: Option<Result<String, SyntaxError>>,
    pub from_token: Result<String, SyntaxError>,
    pub source: Result<String, SyntaxError>,
    pub assertion: Option<Result<String, SyntaxError>>,
    pub semicolon_token: Option<String>,
}

/// The formatting rule of a `JsExportFromClause`.
#[derive(Debug, Clone, Copy, Default)]
pub struct FormatJsExportFromClause;

/// An optional child formats: it is absent, or it is there and formats.
pub open spec fn optional_child_formats(c: Option<Result<String, SyntaxError>>) -> bool {
    !(c matches Some(Err(_)))
}

/// Whether every child formats: the required ones are there, and the optional
/// ones that are there format.
pub open spec fn children_format(node: JsExportFromClauseFields) -> bool {
    &&& node.star_token is Ok
    &&& optional_child_formats(node.export_as)
    &&& node.from_token is Ok
    &&& node.source is Ok
    &&& optional_child_formats(node.assertion)
}

/// The formatted clause: `*`, a space, the `as` clause and a space where there is
/// one, `from`, a space, the source, a space and the assertion where there is
/// one, and the semicolon, inserted where the source has none.
pub open spec fn formatted_export_from_clause(node: JsExportFromClauseFields) -> Seq<char>
    recommends
        children_format(node),
{
    node.star_token->Ok_0@ + " "@
        + (match node.export_as {
            Some(Ok(a)) => a@ + " "@,
            _ => Seq::empty(),
        })
        + node.from_token->Ok_0@ + " "@ + node.source->Ok_0@
        + (match node.assertion {
            Some(Ok(a)) => " "@ + a@,
            _ => Seq::empty(),
        })
        + (match node.semicolon_token {
            Some(s) => s@,
            None => ";"@,
        })
}

/// The text of a required child, or the formatting error where it is missing.
fn required_text(child: &Result<String, SyntaxError>) -> (r: Result<&str, FormatError>)
    ensures
        match child {
            Ok(s) => r is Ok && r->Ok_0@ == s@,
            Err(_) => r == Err::<&str, FormatError>(FormatError::SyntaxError),
        },
{
    match child {
        Ok(s) => Ok(s.as_str()),
        Err(_) => Err(FormatError::SyntaxError),
    }
}

/// The text of an optional child (`None` where it is absent), or the formatting
/// error where it is there and fails.
fn optional_text(child: &Option<Result<String, SyntaxError>>) -> (r: Result<Option<&str>, FormatError>)
    ensures
        match child {
            None => r == Ok::<Option<&str>, FormatError>(None),
            Some(Ok(s)) => r is Ok && r->Ok_0 is Some && r->Ok_0->Some_0@ == s@,
            Some(Err(_)) => r == Err::<Option<&str>, FormatError>(FormatError::SyntaxError),
        },
{
    match child {
        None => Ok(None),
        Some(Ok(s)) => Ok(Some(s.as_str())),
        Some(Err(_)) => Err(FormatError::SyntaxError),
    }
}

impl FormatJsExportFromClause {
    /// Formats the clause. Fails with `FormatError::SyntaxError` exactly where a
    /// required child is missing or a present optional child fails to format.
    pub fn fmt_fields(&self, node: &JsExportFromClauseFields) -> (res: Result<String, FormatError>)
        ensures
            match res {
                Ok(text) => children_format(*node) && text@ == formatted_export_from_clause(*node),
                Err(e) => !children_format(*node) && e == FormatError::SyntaxError,
            },
            // The same, read off the children themselves.
            res is Ok <==> (node.star_token is Ok && node.from_token is Ok && node.source is Ok
                && !(node.export_as matches Some(Err(_))) && !(node.assertion matches Some(Err(_)))),
            res matches Ok(text) ==> text@.take(node.star_token->Ok_0@.len() + 1int)
                == node.star_token->Ok_0@ + " "@,
            res matches Ok(text) ==> (node.semicolon_token is None ==> (text@.len() > 0
                && text@.last() == ';')),
            res matches Ok(text) ==> (node.semicolon_token matches Some(semi) ==> (text@.len()
                >= semi@.len() && text@.skip(text@.len() - semi@.len()) == semi@)),
    {
        let star = required_text(&node.star_token)?;
        let mut out = String::from_str(star);
        out.append(" ");
        match optional_text(&node.export_as)? {
            Some(a) => {
                out.append(a);
                out.append(" ");
            },
            None => {},
        }
        let from = required_text(&node.from_token)?;
        out.append(from);
        out.append(" ");
        let source = required_text(&node.source)?;
        out.append(source);
        match optional_text(&node.assertion)? {
            Some(a) => {
                out.append(" ");
                out.append(a);
            },
            None => {},
        }
        match &node.semicolon_token {
            Some(s) => out.append(s.as_str()),
            None => out.append(";"),
        }
        proof {
            let ghost expected = formatted_export_from_clause(*node);
            assert(out@ =~= expected);
            lemma_text_starts_with_star(*node);
            lemma_text_ends_with_semicolon(*node);
        }
        Ok(out)
    }
}

/// The formatted clause starts with the star token and one space.
pub proof fn lemma_text_starts_with_star(node: JsExportFromClauseFields)
    requires
        children_format(node),
    ensures
        formatted_export_from_clause(node).take(node.star_token->Ok_0@.len() + 1int)
            == node.star_token->Ok_0@ + " "@,
{
    reveal_strlit(" ");
    let star = node.star_token->Ok_0@;
    let f = formatted_export_from_clause(node);
    assert(f.take(star.len() + 1int) =~= star + " "@);
}

/// The formatted clause ends with the source's semicolon, or with an inserted
/// `;` where the source has none, whatever the `as` clause and the assertion.
pub proof fn lemma_text_ends_with_semicolon(node: JsExportFromClauseFields)
    requires
        children_format(node),
    ensures
        node.semicolon_token is None ==> formatted_export_from_clause(node).len() > 0
            && formatted_export_from_clause(node).last() == ';',
        node.semicolon_token matches Some(semi) ==> {
            let f = formatted_export_from_clause(node);
            f.len() >= semi@.len() && f.skip(f.len() - semi@.len()) == semi@
        },
{
    reveal_strlit(";");
    let f = formatted_export_from_clause(node);
    match node.semicolon_token {
        Some(semi) => {
            assert(f.skip(f.len() - semi@.len()) =~= semi@);
        },
        None => {},
    }
}

/// An inserted semicolon reads as a written one: the clause without a semicolon
/// formats as the same clause with a `;` token.
pub proof fn lemma_inserted_semicolon_as_written(node: JsExportFromClauseFields, semi: String)
    requires
        children_format(node),
        node.semicolon_token is None,
        semi@ == ";"@,
    ensures
        formatted_export_from_clause(node) == formatted_export_from_clause(
            JsExportFromClauseFields {
                star_token: node.star_token,
                export_as: node.export_as,
                from_token: node.from_token,
                source: node.source,
                assertion: node.assertion,
                semicolon_token: Some(semi),
            },
        ),
{
}

/// Adding an `as` clause puts it, and one space, right after `* `, and leaves
/// the rest of the text as it was.
pub proof fn lemma_as_clause_after_star(node: JsExportFromClauseFields, as_clause: String)
    requires
        children_format(node),
        node.export_as is None,
    ensures
        ({
            let star = node.star_token->Ok_0@;
            let with_as = JsExportFromClauseFields {
                star_token: node.star_token,
                export_as: Some(Ok(as_clause)),
                from_token: node.from_token,
                source: node.source,
                assertion: node.assertion,
                semicolon_token: node.semicolon_token,
            };
            formatted_export_from_clause(with_as) == star + " "@ + as_clause@ + " "@
                + formatted_export_from_clause(node).skip(star.len() + 1int)
        }),
{
    reveal_strlit(" ");
    let star = node.star_token->Ok_0@;
    let with_as = JsExportFromClauseFields {
        star_token: node.star_token,
        export_as: Some(Ok(as_clause)),
        from_token: node.from_token,
        source: node.source,
        assertion: node.assertion,
        semicolon_token: node.semicolon_token,
    };
    assert(formatted_export_from_clause(with_as) =~= star + " "@ + as_clause@ + " "@
        + formatted_export_from_clause(node).skip(star.len() + 1int));
}

/// Without an `as` clause and an assertion, the clause reads `* from source`
/// followed by its semicolon or an inserted `;`.
pub proof fn lemma_bare_clause(node: JsExportFromClauseFields)
    requires
        children_format(node),
        node.export_as is None,
        node.assertion is None,
    ensures
        formatted_export_from_clause(node) == node.star_token->Ok_0@ + " "@ + node.from_token->Ok_0@
            + " "@ + node.source->Ok_0@ + (match node.semicolon_token {
            Some(s) => s@,
            None => ";"@,
        }),
{
    assert(formatted_export_from_clause(node) =~= node.star_token->Ok_0@ + " "@
        + node.from_token->Ok_0@ + " "@ + node.source->Ok_0@ + (match node.semicolon_token {
        Some(s) => s@,
        None => ";"@,
    }));
}

} // verus!
