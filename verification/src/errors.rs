use vstd::prelude::*;

use crate::token::{SpecTokenKind, TokenKind};

verus! {

/// A character that matches none of the recognized token start forms,
/// together with its source position.
#[derive(Debug, PartialEq, Eq, Structural, Clone, Copy)]
pub struct UnexpectedChar {
    pub ch: char,
    pub line: usize,
    pub column: usize,
}

impl UnexpectedChar {
    pub fn new(ch: char, line: usize, column: usize) -> (r: Self)
        ensures
            r == (UnexpectedChar { ch, line, column }),
    {
        Self { ch, line, column }
    }
}

/// The first failure of a lexing pass. Lexing stops at the first error; no
/// partial token sequence is returned alongside it.
#[derive(Debug, PartialEq, Eq, Structural, Clone, Copy)]
pub enum LexerError {
    /// A character that cannot start any token.
    UnexpectedChar(UnexpectedChar),
    /// A numeral that ends in `.` with no digits after it, positioned at the
    /// numeral's first character.
    NumberFormat { line: usize, column: usize },
    /// End of input was reached before the closing quote of a string literal,
    /// positioned at the opening quote.
    UnterminatedString { line: usize, column: usize },
}

/// A token on which the active grammar rule cannot make progress. `expected`
/// is populated when one specific token was required (such as the closing
/// parenthesis of a grouping), and `None` when no token at all can legally
/// start the current rule.
#[derive(Debug, PartialEq, Clone)]
pub struct UnexpectedToken {
    pub unexpected_token: TokenKind,
    pub expected_token: Option<TokenKind>,
    pub line: usize,
    pub column: usize,
}

impl UnexpectedToken {
    pub fn new(
        unexpected_token: TokenKind,
        expected_token: Option<TokenKind>,
        line: usize,
        column: usize,
    ) -> (r: Self)
        ensures
            r@ == (SpecUnexpectedToken {
                found: unexpected_token@,
                expected: match expected_token {
                    Option::Some(k) => Option::Some(k@),
                    Option::None => Option::None,
                },
                line: line as int,
                column: column as int,
            }),
    {
        UnexpectedToken { unexpected_token, expected_token, line, column }
    }
}

/// The first failure of a parsing pass.
#[derive(Debug, PartialEq, Clone)]
pub enum ParseError {
    UnexpectedToken(UnexpectedToken),
}

/// A failure of either front-end stage, so that a caller driving
/// "lex then parse" can propagate the first error through one return type
/// without losing which stage failed.
#[derive(Debug, PartialEq, Clone)]
pub enum CompileError {
    Lexer(LexerError),
    Parse(ParseError),
}

/// Mathematical model of an unexpected-token report.
pub struct SpecUnexpectedToken {
    pub found: SpecTokenKind,
    pub expected: Option<SpecTokenKind>,
    pub line: int,
    pub column: int,
}

/// Mathematical model of a parse failure.
pub enum SpecParseError {
    UnexpectedToken(SpecUnexpectedToken),
}

/// Mathematical model of a front-end failure.
pub enum SpecCompileError {
    Lexer(LexerError),
    Parse(SpecParseError),
}

impl View for UnexpectedToken {
    type V = SpecUnexpectedToken;

    open spec fn view(&self) -> SpecUnexpectedToken {
        SpecUnexpectedToken {
            found: self.unexpected_token@,
            expected: match self.expected_token {
                Option::Some(k) => Option::Some(k@),
                Option::None => Option::None,
            },
            line: self.line as int,
            column: self.column as int,
        }
    }
}

impl View for ParseError {
    type V = SpecParseError;

    open spec fn view(&self) -> SpecParseError {
        match self {
            ParseError::UnexpectedToken(e) => SpecParseError::UnexpectedToken(e@),
        }
    }
}

impl View for CompileError {
    type V = SpecCompileError;

    open spec fn view(&self) -> SpecCompileError {
        match self {
            CompileError::Lexer(e) => SpecCompileError::Lexer(*e),
            CompileError::Parse(e) => SpecCompileError::Parse(e@),
        }
    }
}

impl From<UnexpectedToken> for ParseError {
    fn from(value: UnexpectedToken) -> (r: Self) {
        ParseError::UnexpectedToken(value)
    }
}

impl vstd::std_specs::convert::FromSpecImpl<UnexpectedToken> for ParseError {
    open spec fn obeys_from_spec() -> bool {
        true
    }

    open spec fn from_spec(value: UnexpectedToken) -> Self {
        ParseError::UnexpectedToken(value)
    }
}

impl From<LexerError> for CompileError {
    fn from(value: LexerError) -> (r: Self) {
        CompileError::Lexer(value)
    }
}

impl vstd::std_specs::convert::FromSpecImpl<LexerError> for CompileError {
    open spec fn obeys_from_spec() -> bool {
        true
    }

    open spec fn from_spec(value: LexerError) -> Self {
        CompileError::Lexer(value)
    }
}

impl From<ParseError> for CompileError {
    fn from(value: ParseError) -> (r: Self) {
        CompileError::Parse(value)
    }
}

impl vstd::std_specs::convert::FromSpecImpl<ParseError> for CompileError {
    open spec fn obeys_from_spec() -> bool {
        true
    }

    open spec fn from_spec(value: ParseError) -> Self {
        CompileError::Parse(value)
    }
}

} // verus!
