use dev_console::errors::ConsoleError;
use dev_console::tokenizer::tokenize;

fn words(toks: &[&str]) -> Vec<String> {
    toks.iter().map(|t| t.to_string()).collect()
}

#[test]
fn empty_line_yields_no_tokens() {
    assert_eq!(tokenize(""), Ok(vec![]));
}

#[test]
fn whitespace_line_yields_no_tokens() {
    assert_eq!(tokenize("   "), Ok(vec![]));
    assert_eq!(tokenize(" \t \r\n "), Ok(vec![]));
}

#[test]
fn splits_on_whitespace() {
    assert_eq!(tokenize("spawn red  goblin"), Ok(words(&["spawn", "red", "goblin"])));
    assert_eq!(tokenize("  heal 10 "), Ok(words(&["heal", "10"])));
}

#[test]
fn double_quoted_span_is_one_token() {
    assert_eq!(tokenize("foo \"bar baz\" qux"), Ok(words(&["foo", "bar baz", "qux"])));
}

#[test]
fn single_quoted_span_is_one_token() {
    assert_eq!(tokenize("say 'hello there'"), Ok(words(&["say", "hello there"])));
}

#[test]
fn unterminated_double_quote_is_mismatched_quotes() {
    assert_eq!(tokenize("foo \"bar"), Err(ConsoleError::MismatchedQuotes));
}

#[test]
fn unterminated_single_quote_is_mismatched_quotes() {
    assert_eq!(tokenize("foo 'bar"), Err(ConsoleError::MismatchedQuotes));
}

#[test]
fn lone_quote_is_mismatched_quotes() {
    assert_eq!(tokenize("\""), Err(ConsoleError::MismatchedQuotes));
    assert_eq!(tokenize("'"), Err(ConsoleError::MismatchedQuotes));
}

#[test]
fn backslash_escapes_quote_in_word() {
    assert_eq!(tokenize("a\\\"b"), Ok(words(&["a\"b"])));
    assert_eq!(tokenize("a\\'b"), Ok(words(&["a'b"])));
}

#[test]
fn backslash_escapes_space_in_word() {
    assert_eq!(tokenize("a\\ b"), Ok(words(&["a b"])));
}

#[test]
fn backslash_escapes_inside_double_quotes() {
    assert_eq!(tokenize("\"a\\\"b\""), Ok(words(&["a\"b"])));
    assert_eq!(tokenize("\"a\\\\b\""), Ok(words(&["a\\b"])));
}

#[test]
fn backslash_is_literal_inside_single_quotes() {
    assert_eq!(tokenize("'a\\b'"), Ok(words(&["a\\b"])));
}

#[test]
fn trailing_backslash_stays_literal() {
    assert_eq!(tokenize("a\\"), Ok(words(&["a\\"])));
}

#[test]
fn quoted_spans_join_adjacent_pieces() {
    assert_eq!(tokenize("a'b c'd"), Ok(words(&["ab cd"])));
    assert_eq!(tokenize("a\"b\"'c'"), Ok(words(&["abc"])));
}

#[test]
fn empty_quotes_make_an_empty_token() {
    assert_eq!(tokenize("''"), Ok(words(&[""])));
    assert_eq!(tokenize("a \"\" b"), Ok(words(&["a", "", "b"])));
}

#[test]
fn escape_pending_at_end_of_double_quotes_is_mismatched() {
    assert_eq!(tokenize("\"ab\\"), Err(ConsoleError::MismatchedQuotes));
}
