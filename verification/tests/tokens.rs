use rome_js_analyze::tokens::{find_token_with_newline, TokenInfo};

fn tok(start: u32, trivia_nl: bool, text_nl: bool) -> TokenInfo {
    TokenInfo { start, leading_trivia_has_newline: trivia_nl, text_has_newline: text_nl, jsx_child_ancestor: None }
}

#[test]
fn token_with_newline_is_found_itself() {
    let tokens = vec![tok(0, false, false), tok(2, true, false)];
    assert_eq!(find_token_with_newline(&tokens, 1), Some(1));
}

#[test]
fn walks_back_to_the_token_starting_the_line() {
    // `a;\nb == c` : tokens a ; b == c
    let tokens = vec![
        tok(0, false, false),
        tok(1, false, false),
        tok(3, true, false),
        tok(5, false, false),
        tok(8, false, false),
    ];
    assert_eq!(find_token_with_newline(&tokens, 3), Some(2));
    assert_eq!(find_token_with_newline(&tokens, 4), Some(2));
}

#[test]
fn multiline_text_counts_as_newline() {
    let tokens = vec![tok(0, false, false), tok(1, false, true), tok(9, false, false)];
    assert_eq!(find_token_with_newline(&tokens, 2), Some(1));
}

#[test]
fn first_row_has_no_token_with_newline() {
    let tokens = vec![tok(0, false, false), tok(2, false, false)];
    assert_eq!(find_token_with_newline(&tokens, 1), None);
    assert_eq!(find_token_with_newline(&tokens, 0), None);
}

#[test]
fn search_from_found_token_is_fixed() {
    let tokens = vec![tok(0, true, false), tok(2, false, false), tok(4, true, false), tok(6, false, false)];
    let found = find_token_with_newline(&tokens, 3).unwrap();
    assert_eq!(found, 2);
    assert_eq!(find_token_with_newline(&tokens, found), Some(found));
}
