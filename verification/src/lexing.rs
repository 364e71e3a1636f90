use vstd::prelude::*;

use crate::errors::{LexerError, UnexpectedChar};
use crate::token::{SpecLiteral, SpecToken, SpecTokenKind};

verus! {

/// Cursor of the scanner: character offset, 1-based line, 0-based column.
pub struct ScanState {
    pub pos: int,
    pub line: int,
    pub col: int,
}

/// The characters treated as whitespace between tokens.
pub open spec fn is_ws_char(c: char) -> bool {
    c == ' ' || c == '\t' || c == '\r' || c == '\n'
}

/// Decimal digits, the only characters that can start or continue a numeral.
pub open spec fn is_digit_char(c: char) -> bool {
    '0' as u32 <= c as u32 && c as u32 <= '9' as u32
}

/// Characters that can start an identifier.
pub open spec fn is_alpha_char(c: char) -> bool {
    ('a' as u32 <= c as u32 && c as u32 <= 'z' as u32) || ('A' as u32 <= c as u32 && c as u32
        <= 'Z' as u32) || c == '_'
}

/// Characters that can continue an identifier.
pub open spec fn is_ident_char(c: char) -> bool {
    is_alpha_char(c) || is_digit_char(c)
}

/// Advances the cursor over whitespace: space and tab advance the column,
/// `\n` advances the line and resets the column, `\r\n` counts as one
/// newline, and a bare `\r` is skipped without changing the line.
pub open spec fn ws_skip(s: Seq<char>, st: ScanState) -> ScanState
    decreases s.len() - st.pos,
{
    if st.pos < 0 || st.pos >= s.len() {
        st
    } else {
        let c = s[st.pos];
        if c == '\n' {
            ws_skip(s, ScanState { pos: st.pos + 1, line: st.line + 1, col: 0 })
        } else if c == '\r' {
            if st.pos + 1 < s.len() && s[st.pos + 1] == '\n' {
                ws_skip(s, ScanState { pos: st.pos + 2, line: st.line + 1, col: 0 })
            } else {
                ws_skip(s, ScanState { pos: st.pos + 1, line: st.line, col: st.col + 1 })
            }
        } else if c == ' ' || c == '\t' {
            ws_skip(s, ScanState { pos: st.pos + 1, line: st.line, col: st.col + 1 })
        } else {
            st
        }
    }
}

/// First position at or after `pos` holding a non-digit, or the end of input.
pub open spec fn digits_end(s: Seq<char>, pos: int) -> int
    decreases s.len() - pos,
{
    if 0 <= pos < s.len() && is_digit_char(s[pos]) {
        digits_end(s, pos + 1)
    } else {
        pos
    }
}

/// First position at or after `pos` holding a character that cannot continue
/// an identifier, or the end of input.
pub open spec fn ident_end(s: Seq<char>, pos: int) -> int
    decreases s.len() - pos,
{
    if 0 <= pos < s.len() && is_ident_char(s[pos]) {
        ident_end(s, pos + 1)
    } else {
        pos
    }
}

/// Position of the first `"` at or after `pos`, or the input length if the
/// string literal is never closed.
pub open spec fn string_close(s: Seq<char>, pos: int) -> int
    decreases s.len() - pos,
{
    if !(0 <= pos < s.len()) {
        s.len() as int
    } else if s[pos] == '"' {
        pos
    } else {
        string_close(s, pos + 1)
    }
}

/// Position of the first `\n` at or after `pos`, or the input length if the
/// line never ends.
pub open spec fn line_break(s: Seq<char>, pos: int) -> int
    decreases s.len() - pos,
{
    if !(0 <= pos < s.len()) {
        s.len() as int
    } else if s[pos] == '\n' {
        pos
    } else {
        line_break(s, pos + 1)
    }
}

/// The fixed keyword table: identifier text that is reserved.
pub open spec fn keyword_of(t: Seq<char>) -> Option<SpecTokenKind> {
    if t == seq!['a', 'n', 'd'] {
        Option::Some(SpecTokenKind::And)
    } else if t == seq!['c', 'l', 'a', 's', 's'] {
        Option::Some(SpecTokenKind::Class)
    } else if t == seq!['e', 'l', 's', 'e'] {
        Option::Some(SpecTokenKind::Else)
    } else if t == seq!['f', 'n'] {
        Option::Some(SpecTokenKind::Fn)
    } else if t == seq!['f', 'o', 'r'] {
        Option::Some(SpecTokenKind::For)
    } else if t == seq!['n', 'i', 'l'] {
        Option::Some(SpecTokenKind::Nil)
    } else if t == seq!['i', 'f'] {
        Option::Some(SpecTokenKind::If)
    } else if t == seq!['p', 'r', 'i', 'n', 't'] {
        Option::Some(SpecTokenKind::Print)
    } else if t == seq!['o', 'r'] {
        Option::Some(SpecTokenKind::Or)
    } else if t == seq!['r', 'e', 't', 'u', 'r', 'n'] {
        Option::Some(SpecTokenKind::Return)
    } else if t == seq!['s', 'u', 'p', 'e', 'r'] {
        Option::Some(SpecTokenKind::Super)
    } else if t == seq!['t', 'h', 'i', 's'] {
        Option::Some(SpecTokenKind::This)
    } else if t == seq!['l', 'e', 't'] {
        Option::Some(SpecTokenKind::Let)
    } else if t == seq!['w', 'h', 'i', 'l', 'e'] {
        Option::Some(SpecTokenKind::While)
    } else {
        Option::None
    }
}

/// A token of the given kind positioned at the cursor.
pub open spec fn mk_tok(k: SpecTokenKind, w: ScanState) -> SpecToken {
    SpecToken { kind: k, pos: w.pos, line: w.line, column: w.col }
}

/// The cursor one character further on the same line.
pub open spec fn adv1(w: ScanState) -> ScanState {
    ScanState { pos: w.pos + 1, line: w.line, col: w.col + 1 }
}

/// A single-character token and the cursor after it.
pub open spec fn single(k: SpecTokenKind, w: ScanState) -> Result<
    (SpecToken, ScanState),
    LexerError,
> {
    Result::Ok((mk_tok(k, w), adv1(w)))
}

/// Maximal munch for a one-or-two-character operator: the two-character kind
/// if the next character is `second`, else the one-character kind.
pub open spec fn twochar(
    s: Seq<char>,
    w: ScanState,
    second: char,
    two: SpecTokenKind,
    one: SpecTokenKind,
) -> Result<(SpecToken, ScanState), LexerError> {
    if w.pos + 1 < s.len() && s[w.pos + 1] == second {
        Result::Ok(
            (mk_tok(two, w), ScanState { pos: w.pos + 2, line: w.line, col: w.col + 2 }),
        )
    } else {
        single(one, w)
    }
}

/// A numeral token covering `s[w.pos .. end]` and the cursor after it.
pub open spec fn num_tok(s: Seq<char>, w: ScanState, end: int) -> Result<
    (SpecToken, ScanState),
    LexerError,
> {
    Result::Ok(
        (
            mk_tok(SpecTokenKind::Literal { kind: SpecLiteral::Number(s.subrange(w.pos, end)) }, w),
            ScanState { pos: end, line: w.line, col: w.col + (end - w.pos) },
        ),
    )
}

/// Scans exactly one token starting at the non-whitespace character `s[w.pos]`.
pub open spec fn scan_at(s: Seq<char>, w: ScanState) -> Result<
    (SpecToken, ScanState),
    LexerError,
> {
    let c = s[w.pos];
    if c == '(' {
        single(SpecTokenKind::LeftParen, w)
    } else if c == ')' {
        single(SpecTokenKind::RightParen, w)
    } else if c == '{' {
        single(SpecTokenKind::LeftBrace, w)
    } else if c == '}' {
        single(SpecTokenKind::RightBrace, w)
    } else if c == ',' {
        single(SpecTokenKind::Comma, w)
    } else if c == '.' {
        single(SpecTokenKind::Dot, w)
    } else if c == ';' {
        single(SpecTokenKind::Semicolon, w)
    } else if c == '+' {
        single(SpecTokenKind::Plus, w)
    } else if c == '-' {
        single(SpecTokenKind::Minus, w)
    } else if c == '*' {
        single(SpecTokenKind::Star, w)
    } else if c == '/' {
        if w.pos + 1 < s.len() && s[w.pos + 1] == '/' {
            let nl = line_break(s, w.pos + 2);
            if nl < s.len() {
                Result::Ok(
                    (
                        mk_tok(SpecTokenKind::LineComment, w),
                        ScanState { pos: nl + 1, line: w.line + 1, col: 0 },
                    ),
                )
            } else {
                Result::Ok(
                    (
                        mk_tok(SpecTokenKind::LineComment, w),
                        ScanState {
                            pos: s.len() as int,
                            line: w.line,
                            col: w.col + (s.len() - w.pos),
                        },
                    ),
                )
            }
        } else {
            single(SpecTokenKind::Slash, w)
        }
    } else if c == '=' {
        twochar(s, w, '=', SpecTokenKind::EqualEqual, SpecTokenKind::Equal)
    } else if c == '!' {
        twochar(s, w, '=', SpecTokenKind::BangEqual, SpecTokenKind::Bang)
    } else if c == '<' {
        twochar(s, w, '=', SpecTokenKind::LessEqual, SpecTokenKind::Less)
    } else if c == '>' {
        twochar(s, w, '=', SpecTokenKind::GreaterEqual, SpecTokenKind::Greater)
    } else if c == '"' {
        let close = string_close(s, w.pos + 1);
        if close >= s.len() {
            Result::Err(
                LexerError::UnterminatedString { line: w.line as usize, column: w.col as usize },
            )
        } else {
            Result::Ok(
                (
                    mk_tok(
                        SpecTokenKind::Literal {
                            kind: SpecLiteral::String(s.subrange(w.pos + 1, close)),
                        },
                        w,
                    ),
                    ScanState { pos: close + 1, line: w.line, col: w.col + (close + 1 - w.pos) },
                ),
            )
        }
    } else if is_digit_char(c) {
        let e1 = digits_end(s, w.pos + 1);
        if e1 < s.len() && s[e1] == '.' {
            let e2 = digits_end(s, e1 + 1);
            if e2 == e1 + 1 {
                Result::Err(
                    LexerError::NumberFormat { line: w.line as usize, column: w.col as usize },
                )
            } else {
                num_tok(s, w, e2)
            }
        } else {
            num_tok(s, w, e1)
        }
    } else if is_alpha_char(c) {
        let e = ident_end(s, w.pos + 1);
        let text = s.subrange(w.pos, e);
        let kind = match keyword_of(text) {
            Option::Some(k) => k,
            Option::None => SpecTokenKind::Ident(text),
        };
        Result::Ok(
            (mk_tok(kind, w), ScanState { pos: e, line: w.line, col: w.col + (e - w.pos) }),
        )
    } else {
        Result::Err(
            LexerError::UnexpectedChar(
                UnexpectedChar { ch: c, line: w.line as usize, column: w.col as usize },
            ),
        )
    }
}

/// Scans the next token: skips whitespace, then either emits the
/// end-of-input token at the position one past the final character, or scans
/// one token at the cursor.
pub open spec fn spec_next_token(s: Seq<char>, st: ScanState) -> Result<
    (SpecToken, ScanState),
    LexerError,
> {
    let w = ws_skip(s, st);
    if w.pos >= s.len() {
        Result::Ok((mk_tok(SpecTokenKind::Eof, w), w))
    } else {
        scan_at(s, w)
    }
}

/// The token sequence from the cursor to the end of input, or the first
/// error. A successful sequence always ends with the end-of-input token.
pub open spec fn spec_lex_from(s: Seq<char>, st: ScanState) -> Result<Seq<SpecToken>, LexerError>
    decreases s.len() - st.pos,
{
    match spec_next_token(s, st) {
        Result::Ok(step) => {
            if step.0.kind is Eof {
                Result::Ok(seq![step.0])
            } else if st.pos < step.1.pos && step.1.pos <= s.len() {
                match spec_lex_from(s, step.1) {
                    Result::Ok(rest) => Result::Ok(seq![step.0] + rest),
                    Result::Err(e) => Result::Err(e),
                }
            } else {
                // never reached: a token other than end-of-input consumes at
                // least one character (lemma_scan_at_progress)
                Result::Ok(seq![step.0])
            }
        },
        Result::Err(e) => Result::Err(e),
    }
}

/// The tokenization of a whole input, from a fresh cursor.
pub open spec fn spec_lex(s: Seq<char>) -> Result<Seq<SpecToken>, LexerError> {
    spec_lex_from(s, ScanState { pos: 0, line: 1, col: 0 })
}

/// Skipping whitespace never moves the cursor backwards nor past the end.
pub proof fn lemma_ws_skip_bounds(s: Seq<char>, st: ScanState)
    requires
        0 <= st.pos <= s.len(),
    ensures
        st.pos <= ws_skip(s, st).pos <= s.len(),
    decreases s.len() - st.pos,
{
    if st.pos < s.len() {
        let c = s[st.pos];
        if c == '\n' {
            lemma_ws_skip_bounds(s, ScanState { pos: st.pos + 1, line: st.line + 1, col: 0 });
        } else if c == '\r' {
            if st.pos + 1 < s.len() && s[st.pos + 1] == '\n' {
                lemma_ws_skip_bounds(s, ScanState { pos: st.pos + 2, line: st.line + 1, col: 0 });
            } else {
                lemma_ws_skip_bounds(
                    s,
                    ScanState { pos: st.pos + 1, line: st.line, col: st.col + 1 },
                );
            }
        } else if c == ' ' || c == '\t' {
            lemma_ws_skip_bounds(s, ScanState { pos: st.pos + 1, line: st.line, col: st.col + 1 });
        }
    }
}

/// Scanning a digit run never moves backwards nor past the end.
pub proof fn lemma_digits_end_bounds(s: Seq<char>, pos: int)
    requires
        0 <= pos <= s.len(),
    ensures
        pos <= digits_end(s, pos) <= s.len(),
    decreases s.len() - pos,
{
    if pos < s.len() && is_digit_char(s[pos]) {
        lemma_digits_end_bounds(s, pos + 1);
    }
}

/// Scanning an identifier run never moves backwards nor past the end.
pub proof fn lemma_ident_end_bounds(s: Seq<char>, pos: int)
    requires
        0 <= pos <= s.len(),
    ensures
        pos <= ident_end(s, pos) <= s.len(),
    decreases s.len() - pos,
{
    if pos < s.len() && is_ident_char(s[pos]) {
        lemma_ident_end_bounds(s, pos + 1);
    }
}

/// The closing quote search never moves backwards nor past the end.
pub proof fn lemma_string_close_bounds(s: Seq<char>, pos: int)
    requires
        0 <= pos <= s.len(),
    ensures
        pos <= string_close(s, pos) <= s.len(),
    decreases s.len() - pos,
{
    if pos < s.len() && s[pos] != '"' {
        lemma_string_close_bounds(s, pos + 1);
    }
}

/// The end-of-line search never moves backwards nor past the end.
pub proof fn lemma_line_break_bounds(s: Seq<char>, pos: int)
    requires
        0 <= pos <= s.len(),
    ensures
        pos <= line_break(s, pos) <= s.len(),
    decreases s.len() - pos,
{
    if pos < s.len() && s[pos] != '\n' {
        lemma_line_break_bounds(s, pos + 1);
    }
}

/// A successfully scanned token is never the end-of-input token, and consumes
/// at least one character without running past the end of input.
pub proof fn lemma_scan_at_progress(s: Seq<char>, w: ScanState)
    requires
        0 <= w.pos < s.len(),
    ensures
        scan_at(s, w) matches Result::Ok(step) ==> w.pos < step.1.pos <= s.len() && !(
        step.0.kind is Eof),
{
    let c = s[w.pos];
    if c == '/' && w.pos + 1 < s.len() && s[w.pos + 1] == '/' {
        lemma_line_break_bounds(s, w.pos + 2);
    } else if c == '"' {
        lemma_string_close_bounds(s, w.pos + 1);
    } else if is_digit_char(c) {
        lemma_digits_end_bounds(s, w.pos + 1);
        let e1 = digits_end(s, w.pos + 1);
        if e1 < s.len() && s[e1] == '.' {
            lemma_digits_end_bounds(s, e1 + 1);
        }
    } else if is_alpha_char(c) {
        lemma_ident_end_bounds(s, w.pos + 1);
    }
}

/// Every successful tokenization contains at least one token, and its last
/// token is the end-of-input token, positioned one past the final character.
pub proof fn lemma_lex_ends_with_eof(s: Seq<char>, st: ScanState)
    requires
        0 <= st.pos <= s.len(),
    ensures
        spec_lex_from(s, st) matches Result::Ok(ts) ==> ts.len() >= 1 && ts.last().kind is Eof
            && ts.last().pos == s.len(),
    decreases s.len() - st.pos,
{
    lemma_ws_skip_bounds(s, st);
    let w = ws_skip(s, st);
    if w.pos < s.len() {
        lemma_scan_at_progress(s, w);
        if scan_at(s, w) is Ok {
            let step = scan_at(s, w)->Ok_0;
            lemma_lex_ends_with_eof(s, step.1);
        }
    }
}

} // verus!
