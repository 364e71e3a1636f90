use vstd::prelude::*;

use crate::errors::{LexerError, UnexpectedChar};
use crate::lexing::{
    adv1, digits_end, ident_end, is_alpha_char, is_digit_char, keyword_of, line_break,
    spec_lex_from, spec_next_token, string_close, ws_skip, ScanState,
};
use crate::token::{dup_token, LiteralKind, SpecToken, Token, TokenKind};

verus! {

/// One-pass scanner over a character sequence. The cursor tracks the
/// character offset, the 1-based line and the 0-based column; tokens
/// accumulate as they are scanned.
pub struct Lexer {
    pub input: Vec<char>,
    pub tokens: Vec<Token>,
    pub pos: usize,
    pub line: usize,
    pub column: usize,
}

impl Lexer {
    /// The scanner's cursor as a mathematical state.
    pub open spec fn st(&self) -> ScanState {
        ScanState { pos: self.pos as int, line: self.line as int, col: self.column as int }
    }

    /// Well-formedness of the scanner: the cursor stays within the input and
    /// the line and column stay small enough that advancing them cannot
    /// overflow.
    pub open spec fn lex_wf(&self) -> bool {
        &&& self.pos <= self.input@.len()
        &&& self.input@.len() < usize::MAX
        &&& 1 <= self.line
        &&& self.line as int <= 1 + self.pos as int
        &&& self.column <= self.pos
    }

    /// Builds a scanner over the characters of `input`, with the cursor at
    /// the start of the text and no tokens scanned yet.
    pub fn new(input: &str) -> (r: Self)
        requires
            input@.len() < usize::MAX,
        ensures
            r.input@ == input@,
            r.tokens@.len() == 0,
            r.st() == (ScanState { pos: 0, line: 1, col: 0 }),
            r.lex_wf(),
    {
        let n = input.unicode_len();
        let mut chars: Vec<char> = Vec::new();
        let mut i: usize = 0;
        while i < n
            invariant
                i <= n,
                n == input@.len(),
                input@.len() < usize::MAX,
                chars@ == input@.subrange(0, i as int),
            decreases n - i,
        {
            chars.push(input.get_char(i));
            proof {
                assert(chars@ =~= input@.subrange(0, i + 1 as int));
            }
            i = i + 1;
        }
        proof {
            assert(chars@ =~= input@);
        }
        Self { input: chars, tokens: Vec::new(), pos: 0, line: 1, column: 0 }
    }

    fn is_at_end(&self) -> (r: bool)
        ensures
            r == (self.pos >= self.input@.len()),
    {
        self.pos >= self.input.len()
    }

    /// Consumes and returns the character at the cursor, advancing the
    /// column; newlines get their line accounting at the call sites.
    fn next_char(&mut self) -> (r: Option<char>)
        requires
            old(self).lex_wf(),
        ensures
            final(self).lex_wf(),
            final(self).input == old(self).input,
            final(self).tokens == old(self).tokens,
            final(self).line == old(self).line,
            match r {
                Option::Some(c) => old(self).pos < old(self).input@.len() && c == old(
                    self,
                ).input@[old(self).pos as int] && final(self).st() == adv1(old(self).st()),
                Option::None => old(self).pos >= old(self).input@.len() && *final(self) == *old(
                    self,
                ),
            },
    {
        if !self.is_at_end() {
            let ch = self.input[self.pos];
            self.pos = self.pos + 1;
            self.column = self.column + 1;
            Option::Some(ch)
        } else {
            Option::None
        }
    }

    /// Whether the character at the cursor equals `expect_char`, without
    /// consuming it.
    fn match_next_char(&self, expect_char: char) -> (r: bool)
        ensures
            r == (self.pos < self.input@.len() && self.input@[self.pos as int] == expect_char),
    {
        if self.is_at_end() {
            false
        } else {
            self.input[self.pos] == expect_char
        }
    }

    /// Advances the cursor past whitespace, exactly as the model `ws_skip`
    /// prescribes.
    fn skip_whitespace(&mut self)
        requires
            old(self).lex_wf(),
        ensures
            final(self).lex_wf(),
            final(self).input == old(self).input,
            final(self).tokens == old(self).tokens,
            final(self).st() == ws_skip(old(self).input@, old(self).st()),
    {
        let ghost s = self.input@;
        let ghost st0 = self.st();
        #[verifier::loop_isolation(true)]
        loop
            invariant
                self.lex_wf(),
                self.input@ == s,
                self.tokens == old(self).tokens,
                self.input == old(self).input,
                ws_skip(s, st0) == ws_skip(s, self.st()),
            ensures
                self.lex_wf(),
                self.tokens == old(self).tokens,
                self.input == old(self).input,
                self.st() == ws_skip(s, st0),
            decreases s.len() - self.pos,
        {
            if self.pos >= self.input.len() {
                break ;
            }
            let c = self.input[self.pos];
            if c == '\n' {
                self.pos = self.pos + 1;
                self.line = self.line + 1;
                self.column = 0;
            } else if c == '\r' {
                self.pos = self.pos + 1;
                if self.pos < self.input.len() && self.input[self.pos] == '\n' {
                    self.pos = self.pos + 1;
                    self.line = self.line + 1;
                    self.column = 0;
                } else {
                    self.column = self.column + 1;
                }
            } else if c == ' ' || c == '\t' {
                self.pos = self.pos + 1;
                self.column = self.column + 1;
            } else {
                break ;
            }
        }
    }

    /// Scans one token, or reports the first lexical error, exactly as the
    /// model `spec_next_token` prescribes. A token other than end-of-input
    /// consumes at least one character.
    fn next_token(&mut self) -> (r: Result<Token, LexerError>)
        requires
            old(self).lex_wf(),
        ensures
            final(self).lex_wf(),
            final(self).input == old(self).input,
            final(self).tokens == old(self).tokens,
            match r {
                Result::Ok(t) => spec_next_token(old(self).input@, old(self).st())
                    == Result::<(SpecToken, ScanState), LexerError>::Ok((t@, final(self).st()))
                    && (!(t@.kind is Eof) ==> old(self).pos < final(self).pos),
                Result::Err(e) => spec_next_token(old(self).input@, old(self).st())
                    == Result::<(SpecToken, ScanState), LexerError>::Err(e),
            },
    {
        self.skip_whitespace();
        let ghost s = self.input@;
        let ghost w = self.st();
        proof {
            crate::lexing::lemma_ws_skip_bounds(s, old(self).st());
        }
        let pos = self.pos;
        let line = self.line;
        let column = self.column;

        let ch = match self.next_char() {
            Option::Some(c) => c,
            Option::None => {
                return Result::Ok(
                    Token { token_kind: TokenKind::Eof, pos, line, column },
                );
            },
        };

        if ch == '(' {
            Result::Ok(Token { token_kind: TokenKind::LeftParen, pos, line, column })
        } else if ch == ')' {
            Result::Ok(Token { token_kind: TokenKind::RightParen, pos, line, column })
        } else if ch == '{' {
            Result::Ok(Token { token_kind: TokenKind::LeftBrace, pos, line, column })
        } else if ch == '}' {
            Result::Ok(Token { token_kind: TokenKind::RightBrace, pos, line, column })
        } else if ch == ',' {
            Result::Ok(Token { token_kind: TokenKind::Comma, pos, line, column })
        } else if ch == '.' {
            Result::Ok(Token { token_kind: TokenKind::Dot, pos, line, column })
        } else if ch == ';' {
            Result::Ok(Token { token_kind: TokenKind::Semicolon, pos, line, column })
        } else if ch == '+' {
            Result::Ok(Token { token_kind: TokenKind::Plus, pos, line, column })
        } else if ch == '-' {
            Result::Ok(Token { token_kind: TokenKind::Minus, pos, line, column })
        } else if ch == '*' {
            Result::Ok(Token { token_kind: TokenKind::Star, pos, line, column })
        } else if ch == '/' {
            if self.match_next_char('/') {
                // a line comment runs to the end of the line; the newline
                // itself is consumed and the cursor moves to the next line
                let nl = find_line_break(&self.input, self.pos + 1);
                if nl < self.input.len() {
                    self.pos = nl + 1;
                    self.line = self.line + 1;
                    self.column = 0;
                } else {
                    self.column = column + (nl - pos);
                    self.pos = nl;
                }
                Result::Ok(Token { token_kind: TokenKind::LineComment, pos, line, column })
            } else {
                Result::Ok(Token { token_kind: TokenKind::Slash, pos, line, column })
            }
        } else if ch == '=' {
            if self.match_next_char('=') {
                self.next_char();
                Result::Ok(Token { token_kind: TokenKind::EqualEqual, pos, line, column })
            } else {
                Result::Ok(Token { token_kind: TokenKind::Equal, pos, line, column })
            }
        } else if ch == '!' {
            if self.match_next_char('=') {
                self.next_char();
                Result::Ok(Token { token_kind: TokenKind::BangEqual, pos, line, column })
            } else {
                Result::Ok(Token { token_kind: TokenKind::Bang, pos, line, column })
            }
        } else if ch == '<' {
            if self.match_next_char('=') {
                self.next_char();
                Result::Ok(Token { token_kind: TokenKind::LessEqual, pos, line, column })
            } else {
                Result::Ok(Token { token_kind: TokenKind::Less, pos, line, column })
            }
        } else if ch == '>' {
            if self.match_next_char('=') {
                self.next_char();
                Result::Ok(Token { token_kind: TokenKind::GreaterEqual, pos, line, column })
            } else {
                Result::Ok(Token { token_kind: TokenKind::Greater, pos, line, column })
            }
        } else if ch == '"' {
            let close = find_string_close(&self.input, self.pos);
            if close >= self.input.len() {
                Result::Err(LexerError::UnterminatedString { line, column })
            } else {
                let text = string_from_range(&self.input, pos + 1, close);
                self.column = column + (close + 1 - pos);
                self.pos = close + 1;
                Result::Ok(
                    Token {
                        token_kind: TokenKind::Literal { kind: LiteralKind::String(text) },
                        pos,
                        line,
                        column,
                    },
                )
            }
        } else if is_digit(ch) {
            let e1 = find_digits_end(&self.input, self.pos);
            let end: usize;
            if e1 < self.input.len() && self.input[e1] == '.' {
                let e2 = find_digits_end(&self.input, e1 + 1);
                if e2 == e1 + 1 {
                    // a trailing `.` with no digits after it is a malformed
                    // numeral
                    return Result::Err(LexerError::NumberFormat { line, column });
                }
                end = e2;
            } else {
                end = e1;
            }
            let text = string_from_range(&self.input, pos, end);
            self.column = column + (end - pos);
            self.pos = end;
            Result::Ok(
                Token {
                    token_kind: TokenKind::Literal { kind: LiteralKind::Number(text) },
                    pos,
                    line,
                    column,
                },
            )
        } else if is_alpha(ch) {
            let e = find_ident_end(&self.input, self.pos);
            let text = string_from_range(&self.input, pos, e);
            self.column = column + (e - pos);
            self.pos = e;
            let token_kind = match keyword_lookup(&text) {
                Option::Some(k) => k,
                Option::None => TokenKind::Ident(text),
            };
            Result::Ok(Token { token_kind, pos, line, column })
        } else {
            Result::Err(LexerError::UnexpectedChar(UnexpectedChar::new(ch, line, column)))
        }
    }

    /// Scans the remaining input to its end, appending the scanned tokens,
    /// and returns the accumulated token sequence — ending in the
    /// end-of-input token — or the first error.
    pub fn lex(&mut self) -> (r: Result<Vec<Token>, LexerError>)
        requires
            old(self).lex_wf(),
        ensures
            final(self).lex_wf(),
            final(self).input == old(self).input,
            match r {
                Result::Ok(ts) => spec_lex_from(old(self).input@, old(self).st())
                    matches Result::Ok(rest) && ts.deep_view() == old(self).tokens.deep_view()
                    + rest && final(self).tokens.deep_view() == ts.deep_view() && rest.len() >= 1
                    && ts.deep_view().last().kind is Eof && ts.deep_view().last().pos == old(
                    self,
                ).input@.len(),
                Result::Err(e) => spec_lex_from(old(self).input@, old(self).st())
                    == Result::<Seq<SpecToken>, LexerError>::Err(e),
            },
    {
        let ghost s = self.input@;
        let ghost st0 = self.st();
        let ghost toks0 = self.tokens.deep_view();
        let ghost n0 = self.tokens@.len() as int;
        loop
            invariant
                self.lex_wf(),
                self.input == old(self).input,
                s == self.input@,
                toks0 == old(self).tokens.deep_view(),
                n0 == toks0.len(),
                n0 <= self.tokens@.len(),
                self.tokens.deep_view().take(n0) == toks0,
                match spec_lex_from(s, self.st()) {
                    Result::Ok(rest) => spec_lex_from(s, st0) == Result::<
                        Seq<SpecToken>,
                        LexerError,
                    >::Ok(self.tokens.deep_view().skip(n0) + rest),
                    Result::Err(e) => spec_lex_from(s, st0) == Result::<
                        Seq<SpecToken>,
                        LexerError,
                    >::Err(e),
                },
            decreases s.len() - self.pos,
        {
            let ghost st_cur = self.st();
            let ghost toks_cur = self.tokens.deep_view();
            let ghost vec_cur = self.tokens@;
            match self.next_token() {
                Result::Ok(t) => {
                    let ghost tv = t@;
                    let ghost gt = t;
                    let is_eof = matches!(t.token_kind, TokenKind::Eof);
                    self.tokens.push(t);
                    proof {
                        assert(self.tokens@ == vec_cur.push(gt));
                        assert forall|j: int|
                            0 <= j < self.tokens.deep_view().len() implies self.tokens.deep_view()[j]
                            == toks_cur.push(tv)[j] by {
                            if j < vec_cur.len() {
                                assert(self.tokens@[j] == vec_cur[j]);
                            } else {
                                assert(self.tokens@[j] == gt);
                            }
                        }
                        assert(self.tokens.deep_view() =~= toks_cur.push(tv));
                        assert(self.tokens.deep_view().take(n0) =~= toks_cur.take(n0));
                        assert(toks_cur.push(tv).skip(n0) =~= toks_cur.skip(n0) + seq![tv]);
                        if tv.kind is Eof {
                            assert(spec_lex_from(s, st_cur) == Result::<
                                Seq<SpecToken>,
                                LexerError,
                            >::Ok(seq![tv]));
                            assert(toks_cur.skip(n0) + seq![tv] =~= toks_cur.skip(n0) + seq![tv]);
                            assert(toks_cur.push(tv) =~= toks0 + (toks_cur.skip(n0) + seq![tv]));
                        } else {
                            // one token was scanned and the model sequence
                            // continues from the new cursor
                            assert(st_cur.pos < self.st().pos <= s.len());
                            match spec_lex_from(s, self.st()) {
                                Result::Ok(rest) => {
                                    assert(spec_lex_from(s, st_cur) == Result::<
                                        Seq<SpecToken>,
                                        LexerError,
                                    >::Ok(seq![tv] + rest));
                                    assert((toks_cur.skip(n0) + seq![tv]) + rest =~= toks_cur.skip(
                                        n0,
                                    ) + (seq![tv] + rest));
                                },
                                Result::Err(e) => {
                                    assert(spec_lex_from(s, st_cur) == Result::<
                                        Seq<SpecToken>,
                                        LexerError,
                                    >::Err(e));
                                },
                            }
                        }
                    }
                    if is_eof {
                        let out = dup_tokens(&self.tokens);
                        proof {
                            assert(out.deep_view() =~= old(self).tokens.deep_view()
                                + spec_lex_from(s, st0)->Ok_0);
                            crate::lexing::lemma_lex_ends_with_eof(s, st0);
                        }
                        return Result::Ok(out);
                    }
                },
                Result::Err(e) => {
                    proof {
                        assert(spec_lex_from(s, st_cur) == Result::<
                            Seq<SpecToken>,
                            LexerError,
                        >::Err(e));
                    }
                    return Result::Err(e);
                },
            }
        }
    }
}

/// Decides the model predicate for decimal digits.
fn is_digit(c: char) -> (r: bool)
    ensures
        r == is_digit_char(c),
{
    '0' as u32 <= c as u32 && c as u32 <= '9' as u32
}

/// Decides the model predicate for identifier start characters.
fn is_alpha(c: char) -> (r: bool)
    ensures
        r == is_alpha_char(c),
{
    ('a' as u32 <= c as u32 && c as u32 <= 'z' as u32) || ('A' as u32 <= c as u32 && c as u32
        <= 'Z' as u32) || c == '_'
}

/// Decides the model predicate for identifier continuation characters.
fn is_ident(c: char) -> (r: bool)
    ensures
        r == crate::lexing::is_ident_char(c),
{
    is_alpha(c) || is_digit(c)
}

/// First offset at or after `start` holding a non-digit, or the input length.
fn find_digits_end(v: &Vec<char>, start: usize) -> (r: usize)
    requires
        start <= v@.len(),
    ensures
        r == digits_end(v@, start as int),
        start <= r <= v@.len(),
{
    let mut i = start;
    while i < v.len() && is_digit(v[i])
        invariant
            start <= i <= v@.len(),
            digits_end(v@, start as int) == digits_end(v@, i as int),
        decreases v@.len() - i,
    {
        i = i + 1;
    }
    i
}

/// First offset at or after `start` holding a character that cannot continue
/// an identifier, or the input length.
fn find_ident_end(v: &Vec<char>, start: usize) -> (r: usize)
    requires
        start <= v@.len(),
    ensures
        r == ident_end(v@, start as int),
        start <= r <= v@.len(),
{
    let mut i = start;
    while i < v.len() && is_ident(v[i])
        invariant
            start <= i <= v@.len(),
            ident_end(v@, start as int) == ident_end(v@, i as int),
        decreases v@.len() - i,
    {
        i = i + 1;
    }
    i
}

/// Offset of the first `"` at or after `start`, or the input length.
fn find_string_close(v: &Vec<char>, start: usize) -> (r: usize)
    requires
        start <= v@.len(),
    ensures
        r == string_close(v@, start as int),
        start <= r <= v@.len(),
{
    let mut i = start;
    while i < v.len() && v[i] != '"'
        invariant
            start <= i <= v@.len(),
            string_close(v@, start as int) == string_close(v@, i as int),
        decreases v@.len() - i,
    {
        i = i + 1;
    }
    i
}

/// Offset of the first `\n` at or after `start`, or the input length.
fn find_line_break(v: &Vec<char>, start: usize) -> (r: usize)
    requires
        start <= v@.len(),
    ensures
        r == line_break(v@, start as int),
        start <= r <= v@.len(),
{
    let mut i = start;
    while i < v.len() && v[i] != '\n'
        invariant
            start <= i <= v@.len(),
            line_break(v@, start as int) == line_break(v@, i as int),
        decreases v@.len() - i,
    {
        i = i + 1;
    }
    i
}

/// Relies on String::push: appends the given character to the end of the
/// string.
#[verifier::external_body]
fn push_char(s: &mut String, c: char)
    ensures
        final(s)@ == old(s)@.push(c),
{
    s.push(c);
}

/// The characters `v[from .. to]` collected into an owned string.
fn string_from_range(v: &Vec<char>, from: usize, to: usize) -> (r: String)
    requires
        from <= to <= v@.len(),
    ensures
        r@ == v@.subrange(from as int, to as int),
{
    let mut r = String::new();
    let mut i = from;
    while i < to
        invariant
            from <= i <= to <= v@.len(),
            r@ == v@.subrange(from as int, i as int),
        decreases to - i,
    {
        push_char(&mut r, v[i]);
        proof {
            assert(v@.subrange(from as int, i + 1 as int) =~= v@.subrange(
                from as int,
                i as int,
            ).push(v@[i as int]));
        }
        i = i + 1;
    }
    proof {
        assert(r@ =~= v@.subrange(from as int, to as int));
    }
    r
}

/// Looks the identifier text up in the fixed keyword table.
fn keyword_lookup(text: &String) -> (r: Option<TokenKind>)
    ensures
        match r {
            Option::Some(k) => keyword_of(text@) == Option::Some(k@),
            Option::None => keyword_of(text@) is None,
        },
{
    proof {
        reveal_strlit("and");
        reveal_strlit("class");
        reveal_strlit("else");
        reveal_strlit("fn");
        reveal_strlit("for");
        reveal_strlit("nil");
        reveal_strlit("if");
        reveal_strlit("print");
        reveal_strlit("or");
        reveal_strlit("return");
        reveal_strlit("super");
        reveal_strlit("this");
        reveal_strlit("let");
        reveal_strlit("while");
        assert("and"@ =~= seq!['a', 'n', 'd']);
        assert("class"@ =~= seq!['c', 'l', 'a', 's', 's']);
        assert("else"@ =~= seq!['e', 'l', 's', 'e']);
        assert("fn"@ =~= seq!['f', 'n']);
        assert("for"@ =~= seq!['f', 'o', 'r']);
        assert("nil"@ =~= seq!['n', 'i', 'l']);
        assert("if"@ =~= seq!['i', 'f']);
        assert("print"@ =~= seq!['p', 'r', 'i', 'n', 't']);
        assert("or"@ =~= seq!['o', 'r']);
        assert("return"@ =~= seq!['r', 'e', 't', 'u', 'r', 'n']);
        assert("super"@ =~= seq!['s', 'u', 'p', 'e', 'r']);
        assert("this"@ =~= seq!['t', 'h', 'i', 's']);
        assert("let"@ =~= seq!['l', 'e', 't']);
        assert("while"@ =~= seq!['w', 'h', 'i', 'l', 'e']);
    }
    if *text == String::from_str("and") {
        Option::Some(TokenKind::And)
    } else if *text == String::from_str("class") {
        Option::Some(TokenKind::Class)
    } else if *text == String::from_str("else") {
        Option::Some(TokenKind::Else)
    } else if *text == String::from_str("fn") {
        Option::Some(TokenKind::Fn)
    } else if *text == String::from_str("for") {
        Option::Some(TokenKind::For)
    } else if *text == String::from_str("nil") {
        Option::Some(TokenKind::Nil)
    } else if *text == String::from_str("if") {
        Option::Some(TokenKind::If)
    } else if *text == String::from_str("print") {
        Option::Some(TokenKind::Print)
    } else if *text == String::from_str("or") {
        Option::Some(TokenKind::Or)
    } else if *text == String::from_str("return") {
        Option::Some(TokenKind::Return)
    } else if *text == String::from_str("super") {
        Option::Some(TokenKind::Super)
    } else if *text == String::from_str("this") {
        Option::Some(TokenKind::This)
    } else if *text == String::from_str("let") {
        Option::Some(TokenKind::Let)
    } else if *text == String::from_str("while") {
        Option::Some(TokenKind::While)
    } else {
        Option::None
    }
}

/// A fresh token vector with the same models as the given one.
fn dup_tokens(v: &Vec<Token>) -> (r: Vec<Token>)
    ensures
        r.deep_view() == v.deep_view(),
{
    let mut r: Vec<Token> = Vec::new();
    let mut i: usize = 0;
    while i < v.len()
        invariant
            i <= v@.len(),
            r.deep_view() == v.deep_view().take(i as int),
        decreases v@.len() - i,
    {
        let ghost rv0 = r@;
        let ghost rd0 = r.deep_view();
        let t = dup_token(&v[i]);
        let ghost gt = t;
        r.push(t);
        proof {
            assert(r@ == rv0.push(gt));
            assert forall|j: int| 0 <= j < r.deep_view().len() implies r.deep_view()[j]
                == v.deep_view().take(i + 1 as int)[j] by {
                if j < rv0.len() {
                    assert(r@[j] == rv0[j]);
                } else {
                    assert(r@[j] == gt);
                }
            }
            assert(r.deep_view() =~= v.deep_view().take(i + 1 as int));
        }
        i = i + 1;
    }
    proof {
        assert(r.deep_view() =~= v.deep_view());
    }
    r
}

} // verus!
