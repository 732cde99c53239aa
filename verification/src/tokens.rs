use vstd::prelude::*;

verus! {

/// What the suppression logic reads of one token of a syntax tree.
#[derive(Debug, Clone, Copy, PartialEq, Eq)]
pub struct TokenInfo {
    /// The offset at which the token's range starts.
    pub start: u32,
    /// Whether one of the pieces of the token's leading trivia is a newline.
    pub leading_trivia_has_newline: bool,
    /// Whether the token's trimmed text contains `'\n'`.
    pub text_has_newline: bool,
    /// The nearest ancestor of the token that is a JSX child, by its index among
    /// the JSX children of the tree, if the token has one.
    pub jsx_child_ancestor: Option<usize>,
}

/// Whether a token starts a line of its own: a newline precedes it in its
/// leading trivia, or its own text spans lines.
pub open spec fn has_newline(t: TokenInfo) -> bool {
    t.leading_trivia_has_newline || t.text_has_newline
}

/// `j` is the nearest token at or before `index` that has a newline.
pub open spec fn is_nearest_newline_token(tokens: Seq<TokenInfo>, index: int, j: int) -> bool {
    &&& 0 <= j <= index
    &&& has_newline(tokens[j])
    &&& forall|k: int| j < k <= index ==> !has_newline(#[trigger] tokens[k])
}

/// No token at or before `index` has a newline.
pub open spec fn no_newline_token_up_to(tokens: Seq<TokenInfo>, index: int) -> bool {
    forall|k: int| 0 <= k <= index ==> !has_newline(#[trigger] tokens[k])
}

/// Starting at the token at `index` of the tree's tokens (in source order),
/// walks back over the previous tokens and returns the first one that has a
/// newline in its leading trivia or its text; `None` if it reaches the first
/// token without finding one.
pub fn find_token_with_newline(tokens: &Vec<TokenInfo>, index: usize) -> (found: Option<usize>)
    requires
        index < tokens.len(),
    ensures
        match found {
            Some(j) => is_nearest_newline_token(tokens@, index as int, j as int),
            None => no_newline_token_up_to(tokens@, index as int),
        },
        // The same, read off the token fields themselves.
        tokens@[index as int].leading_trivia_has_newline || tokens@[index as int].text_has_newline
            ==> found == Some(index),
        found matches Some(j) ==> j <= index && (tokens@[j as int].leading_trivia_has_newline
            || tokens@[j as int].text_has_newline),
        forall|k: int|
            (match found { Some(j) => j < k, None => 0 <= k }) && k <= index
                ==> !(#[trigger] tokens@[k]).leading_trivia_has_newline && !tokens@[k].text_has_newline,
{
    let mut current: usize = index;
    loop
        invariant
            current <= index < tokens.len(),
            forall|k: int| current < k <= index ==> !has_newline(#[trigger] tokens@[k]),
        decreases current,
    {
        let t = tokens[current];
        if t.leading_trivia_has_newline || t.text_has_newline {
            return Some(current);
        }
        if current == 0 {
            return None;
        }
        current = current - 1;
    }
}

/// A token starts a line exactly when its leading trivia holds a newline or its
/// own text spans lines, whatever its ancestors are.
pub proof fn lemma_has_newline_fields(t: TokenInfo)
    ensures
        t.text_has_newline ==> has_newline(t),
        t.leading_trivia_has_newline ==> has_newline(t),
        !t.text_has_newline && !t.leading_trivia_has_newline ==> !has_newline(t),
{
}

/// The search stops at once on a token whose leading trivia or own text holds a
/// newline: that token is the answer, whatever stands before it.
pub proof fn lemma_token_with_newline_found_itself(tokens: Seq<TokenInfo>, index: int)
    requires
        0 <= index < tokens.len(),
        tokens[index].text_has_newline || tokens[index].leading_trivia_has_newline,
    ensures
        is_nearest_newline_token(tokens, index, index),
        forall|j: int| is_nearest_newline_token(tokens, index, j) ==> j == index,
{
    assert forall|j: int| is_nearest_newline_token(tokens, index, j) implies j == index by {
        lemma_nearest_newline_token_unique(tokens, index, index, j);
    }
}

/// A token that has a newline is found at once: looking again from the token
/// that was found gives that same token back.
pub proof fn lemma_found_token_is_fixed_point(tokens: Seq<TokenInfo>, index: int, j: int)
    requires
        0 <= index < tokens.len(),
        is_nearest_newline_token(tokens, index, j),
    ensures
        is_nearest_newline_token(tokens, j, j),
{
}

/// The nearest token with a newline is unique: the search has one answer.
pub proof fn lemma_nearest_newline_token_unique(tokens: Seq<TokenInfo>, index: int, j1: int, j2: int)
    requires
        is_nearest_newline_token(tokens, index, j1),
        is_nearest_newline_token(tokens, index, j2),
    ensures
        j1 == j2,
{
    if j1 < j2 {
        assert(!has_newline(tokens[j2]));
    } else if j2 < j1 {
        assert(!has_newline(tokens[j1]));
    }
}

/// Where some token at or before `index` has a newline, there is a nearest one.
pub proof fn lemma_nearest_newline_token_exists(tokens: Seq<TokenInfo>, index: int, k: int)
    requires
        0 <= k <= index < tokens.len(),
        has_newline(tokens[k]),
    ensures
        exists|j: int| is_nearest_newline_token(tokens, index, j),
    decreases index - k,
{
    if forall|m: int| k < m <= index ==> !has_newline(#[trigger] tokens[m]) {
        assert(is_nearest_newline_token(tokens, index, k));
    } else {
        let m = choose|m: int| k < m <= index && has_newline(#[trigger] tokens[m]);
        lemma_nearest_newline_token_exists(tokens, index, m);
    }
}

/// Looking back from any token between the one found and the start gives the
/// same token: every token of that stretch shares the line start.
pub proof fn lemma_same_token_from_stretch(tokens: Seq<TokenInfo>, index: int, j: int, m: int)
    requires
        is_nearest_newline_token(tokens, index, j),
        j <= m <= index,
    ensures
        is_nearest_newline_token(tokens, m, j),
{
}

} // verus!
