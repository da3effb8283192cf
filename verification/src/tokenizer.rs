//! Splitting a raw input line into shell-like word tokens.
//!
//! Words are separated by whitespace. A single-quoted span is taken
//! literally up to the closing single quote; a double-quoted span allows
//! backslash-escapes; outside quotes a backslash escapes the next
//! character (a trailing lone backslash stays literal). An opening quote
//! with no matching closing quote is a `MismatchedQuotes` error; a blank
//! line is an empty token sequence, not an error.
//!
//! The grammar is pinned down by the spec-level character machine
//! [`tokenizer_step`]; [`tokenize`] is proved to agree with it exactly.

use vstd::prelude::*;

use crate::errors::ConsoleError;

verus! {

/// Whitespace that separates tokens: the ASCII space-like characters.
pub open spec fn is_space(c: char) -> bool {
    c == ' ' || c == '\t' || c == '\n' || c == '\r' || c == '\u{b}' || c == '\u{c}'
}

/// Where the tokenizer stands within the line scanned so far.
#[derive(Clone, Copy, Debug)]
pub enum TokenizerMode {
    /// Between tokens; only whitespace since the last token ended.
    Between,
    /// Inside an unquoted part of a token.
    InWord,
    /// Inside a single-quoted span: everything is literal up to `'`.
    InSingle,
    /// Inside a double-quoted span: `\` escapes the next character.
    InDouble,
    /// Right after a `\` outside quotes: the next character is literal.
    EscapedWord,
    /// Right after a `\` inside a double-quoted span.
    EscapedDouble,
}

/// The whole tokenizer state: the mode, the token under construction, and
/// the tokens already finished.
pub struct TokenizerState {
    pub mode: TokenizerMode,
    pub cur: Seq<char>,
    pub toks: Seq<Seq<char>>,
}

/// The state before any character has been read.
pub open spec fn tokenizer_init() -> TokenizerState {
    TokenizerState { mode: TokenizerMode::Between, cur: Seq::empty(), toks: Seq::empty() }
}

/// One character of progress of the tokenizer.
pub open spec fn tokenizer_step(st: TokenizerState, c: char) -> TokenizerState {
    match st.mode {
        TokenizerMode::Between => {
            if is_space(c) {
                st
            } else if c == '\'' {
                TokenizerState { mode: TokenizerMode::InSingle, cur: st.cur, toks: st.toks }
            } else if c == '"' {
                TokenizerState { mode: TokenizerMode::InDouble, cur: st.cur, toks: st.toks }
            } else if c == '\\' {
                TokenizerState { mode: TokenizerMode::EscapedWord, cur: st.cur, toks: st.toks }
            } else {
                TokenizerState { mode: TokenizerMode::InWord, cur: st.cur.push(c), toks: st.toks }
            }
        },
        TokenizerMode::InWord => {
            if is_space(c) {
                TokenizerState {
                    mode: TokenizerMode::Between,
                    cur: Seq::empty(),
                    toks: st.toks.push(st.cur),
                }
            } else if c == '\'' {
                TokenizerState { mode: TokenizerMode::InSingle, cur: st.cur, toks: st.toks }
            } else if c == '"' {
                TokenizerState { mode: TokenizerMode::InDouble, cur: st.cur, toks: st.toks }
            } else if c == '\\' {
                TokenizerState { mode: TokenizerMode::EscapedWord, cur: st.cur, toks: st.toks }
            } else {
                TokenizerState { mode: TokenizerMode::InWord, cur: st.cur.push(c), toks: st.toks }
            }
        },
        TokenizerMode::InSingle => {
            if c == '\'' {
                TokenizerState { mode: TokenizerMode::InWord, cur: st.cur, toks: st.toks }
            } else {
                TokenizerState { mode: TokenizerMode::InSingle, cur: st.cur.push(c), toks: st.toks }
            }
        },
        TokenizerMode::InDouble => {
            if c == '"' {
                TokenizerState { mode: TokenizerMode::InWord, cur: st.cur, toks: st.toks }
            } else if c == '\\' {
                TokenizerState { mode: TokenizerMode::EscapedDouble, cur: st.cur, toks: st.toks }
            } else {
                TokenizerState { mode: TokenizerMode::InDouble, cur: st.cur.push(c), toks: st.toks }
            }
        },
        TokenizerMode::EscapedWord => {
            TokenizerState { mode: TokenizerMode::InWord, cur: st.cur.push(c), toks: st.toks }
        },
        TokenizerMode::EscapedDouble => {
            TokenizerState { mode: TokenizerMode::InDouble, cur: st.cur.push(c), toks: st.toks }
        },
    }
}

/// The tokenizer state after reading the whole of `s`.
pub open spec fn tokenizer_run(s: Seq<char>) -> TokenizerState
    decreases s.len(),
{
    if s.len() == 0 {
        tokenizer_init()
    } else {
        tokenizer_step(tokenizer_run(s.drop_last()), s.last())
    }
}

/// The verdict at end of input: the finished tokens, or `None` when a
/// quoted span (or an escape within one) was never closed.
pub open spec fn tokenizer_finish(st: TokenizerState) -> Option<Seq<Seq<char>>> {
    match st.mode {
        TokenizerMode::Between => Some(st.toks),
        TokenizerMode::InWord => Some(st.toks.push(st.cur)),
        TokenizerMode::EscapedWord => Some(st.toks.push(st.cur.push('\\'))),
        TokenizerMode::InSingle => None,
        TokenizerMode::InDouble => None,
        TokenizerMode::EscapedDouble => None,
    }
}

/// What tokenizing a line means: the token sequence, or `None` on
/// mismatched quotes.
pub open spec fn tokenize_spec(s: Seq<char>) -> Option<Seq<Seq<char>>> {
    tokenizer_finish(tokenizer_run(s))
}

/// Whether `c` is token-separating whitespace.
pub fn is_space_char(c: char) -> (r: bool)
    ensures
        r == is_space(c),
{
    c == ' ' || c == '\t' || c == '\n' || c == '\r' || c == '\u{b}' || c == '\u{c}'
}

/// Appends the character of `line` at position `i` to `cur`.
fn push_line_char(cur: &mut String, line: &str, i: usize)
    requires
        i < line@.len(),
        i < usize::MAX,
    ensures
        final(cur)@ == old(cur)@.push(line@[i as int]),
{
    let piece = line.substring_char(i, i + 1);
    proof {
        assert(piece@ =~= seq![line@[i as int]]);
        assert(old(cur)@ + seq![line@[i as int]] =~= old(cur)@.push(line@[i as int]));
    }
    cur.append(piece);
}

/// Splits `line` into shell-like word tokens, exactly as
/// [`tokenize_spec`] describes; a line whose quotes do not pair up is
/// rejected with [`ConsoleError::MismatchedQuotes`].
pub fn tokenize(line: &str) -> (r: Result<Vec<String>, ConsoleError>)
    ensures
        match tokenize_spec(line@) {
            Some(toks) => r matches Ok(v) && v.deep_view() == toks,
            None => r == Err::<Vec<String>, ConsoleError>(ConsoleError::MismatchedQuotes),
        },
{
    let n = line.unicode_len();
    let mut i: usize = 0;
    let mut mode = TokenizerMode::Between;
    let mut cur = String::new();
    let mut toks: Vec<String> = Vec::new();
    while i < n
        invariant
            n == line@.len(),
            i <= n,
            mode == tokenizer_run(line@.take(i as int)).mode,
            cur@ == tokenizer_run(line@.take(i as int)).cur,
            toks.deep_view() == tokenizer_run(line@.take(i as int)).toks,
        decreases n - i,
    {
        let ghost pre = tokenizer_run(line@.take(i as int));
        let ghost pre_toks = toks.deep_view();
        let c = line.get_char(i);
        proof {
            assert(line@.take(i + 1).drop_last() =~= line@.take(i as int));
            assert(line@.take(i + 1).last() == line@[i as int]);
            assert(tokenizer_run(line@.take(i + 1)) == tokenizer_step(pre, c));
        }
        match mode {
            TokenizerMode::Between => {
                if is_space_char(c) {
                    // stay between tokens
                } else if c == '\'' {
                    mode = TokenizerMode::InSingle;
                } else if c == '"' {
                    mode = TokenizerMode::InDouble;
                } else if c == '\\' {
                    mode = TokenizerMode::EscapedWord;
                } else {
                    mode = TokenizerMode::InWord;
                    push_line_char(&mut cur, line, i);
                }
            },
            TokenizerMode::InWord => {
                if is_space_char(c) {
                    mode = TokenizerMode::Between;
                    toks.push(cur);
                    cur = String::new();
                    proof {
                        assert(toks.deep_view() =~= tokenizer_run(line@.take(i + 1)).toks);
                    }
                } else if c == '\'' {
                    mode = TokenizerMode::InSingle;
                } else if c == '"' {
                    mode = TokenizerMode::InDouble;
                } else if c == '\\' {
                    mode = TokenizerMode::EscapedWord;
                } else {
                    push_line_char(&mut cur, line, i);
                }
            },
            TokenizerMode::InSingle => {
                if c == '\'' {
                    mode = TokenizerMode::InWord;
                } else {
                    push_line_char(&mut cur, line, i);
                }
            },
            TokenizerMode::InDouble => {
                if c == '"' {
                    mode = TokenizerMode::InWord;
                } else if c == '\\' {
                    mode = TokenizerMode::EscapedDouble;
                } else {
                    push_line_char(&mut cur, line, i);
                }
            },
            TokenizerMode::EscapedWord => {
                mode = TokenizerMode::InWord;
                push_line_char(&mut cur, line, i);
            },
            TokenizerMode::EscapedDouble => {
                mode = TokenizerMode::InDouble;
                push_line_char(&mut cur, line, i);
            },
        }
        i = i + 1;
    }
    proof {
        assert(line@.take(n as int) =~= line@);
    }
    let ghost fin = tokenizer_run(line@);
    match mode {
        TokenizerMode::Between => Ok(toks),
        TokenizerMode::InWord => {
            let ghost pre_toks = toks.deep_view();
            toks.push(cur);
            proof {
                assert(toks.deep_view() =~= pre_toks.push(fin.cur));
            }
            Ok(toks)
        },
        TokenizerMode::EscapedWord => {
            let ghost pre_toks = toks.deep_view();
            proof {
                reveal_strlit("\\");
                assert("\\"@ =~= seq!['\\']);
                assert(fin.cur + seq!['\\'] =~= fin.cur.push('\\'));
            }
            cur.append("\\");
            toks.push(cur);
            proof {
                assert(toks.deep_view() =~= pre_toks.push(fin.cur.push('\\')));
            }
            Ok(toks)
        },
        TokenizerMode::InSingle => Err(ConsoleError::MismatchedQuotes),
        TokenizerMode::InDouble => Err(ConsoleError::MismatchedQuotes),
        TokenizerMode::EscapedDouble => Err(ConsoleError::MismatchedQuotes),
    }
}

/// Reading only whitespace leaves the tokenizer exactly where it began.
proof fn lemma_blank_run(s: Seq<char>)
    requires
        forall|i: int| 0 <= i < s.len() ==> is_space(#[trigger] s[i]),
    ensures
        tokenizer_run(s) == tokenizer_init(),
    decreases s.len(),
{
    if s.len() > 0 {
        lemma_blank_run(s.drop_last());
        assert(is_space(s[s.len() - 1]));
    }
}

/// A blank submission is valid and carries no tokens: tokenizing an empty
/// or whitespace-only line yields the empty token sequence, not an error.
pub proof fn lemma_blank_line_yields_no_tokens(s: Seq<char>)
    requires
        forall|i: int| 0 <= i < s.len() ==> is_space(#[trigger] s[i]),
    ensures
        tokenize_spec(s) == Some(Seq::<Seq<char>>::empty()),
{
    lemma_blank_run(s);
}

} // verus!
