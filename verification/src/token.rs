use vstd::prelude::*;

verus! {

/// Payload of a literal token.
///
/// Number literals carry the exact numeral text that was scanned (digits with
/// at most one interior `.`); converting that text to a machine float is left
/// to unverified consumers of the token stream.
#[derive(Debug, PartialEq, Clone)]
pub enum LiteralKind {
    Bool(bool),
    Number(String),
    String(String),
}

/// The classification of a lexical unit.
#[derive(Debug, PartialEq, Clone)]
pub enum TokenKind {
    // Single-character tokens
    LeftParen,
    RightParen,
    LeftBrace,
    RightBrace,
    Comma,
    Dot,
    Minus,
    Plus,
    Semicolon,
    Slash,
    Star,

    // One or two character tokens
    Bang,
    BangEqual,
    Equal,
    EqualEqual,
    Greater,
    GreaterEqual,
    Less,
    LessEqual,

    // Literals
    Ident(String),
    Literal { kind: LiteralKind },

    // Keywords
    And,
    Class,
    Else,
    Fn,
    For,
    Nil,
    If,
    Print,
    Or,
    Return,
    Super,
    This,
    Let,
    While,

    LineComment,

    Eof,
}

/// A classified, positioned lexical unit.
///
/// `pos` is the character offset of the token's first character; `line` is
/// 1-based and `column` 0-based, with `column` resetting to 0 at each newline.
#[derive(Debug, PartialEq, Clone)]
pub struct Token {
    pub token_kind: TokenKind,
    pub pos: usize,
    pub line: usize,
    pub column: usize,
}

/// Mathematical model of a literal payload: text is a sequence of characters.
pub enum SpecLiteral {
    Bool(bool),
    Number(Seq<char>),
    String(Seq<char>),
}

/// Mathematical model of a token kind.
pub enum SpecTokenKind {
    LeftParen,
    RightParen,
    LeftBrace,
    RightBrace,
    Comma,
    Dot,
    Minus,
    Plus,
    Semicolon,
    Slash,
    Star,
    Bang,
    BangEqual,
    Equal,
    EqualEqual,
    Greater,
    GreaterEqual,
    Less,
    LessEqual,
    Ident(Seq<char>),
    Literal { kind: SpecLiteral },
    And,
    Class,
    Else,
    Fn,
    For,
    Nil,
    If,
    Print,
    Or,
    Return,
    Super,
    This,
    Let,
    While,
    LineComment,
    Eof,
}

/// Mathematical model of a positioned token.
pub struct SpecToken {
    pub kind: SpecTokenKind,
    pub pos: int,
    pub line: int,
    pub column: int,
}

impl View for LiteralKind {
    type V = SpecLiteral;

    open spec fn view(&self) -> SpecLiteral {
        match self {
            LiteralKind::Bool(b) => SpecLiteral::Bool(*b),
            LiteralKind::Number(s) => SpecLiteral::Number(s@),
            LiteralKind::String(s) => SpecLiteral::String(s@),
        }
    }
}

impl DeepView for LiteralKind {
    type V = SpecLiteral;

    open spec fn deep_view(&self) -> SpecLiteral {
        self.view()
    }
}

impl View for TokenKind {
    type V = SpecTokenKind;

    open spec fn view(&self) -> SpecTokenKind {
        match self {
            TokenKind::LeftParen => SpecTokenKind::LeftParen,
            TokenKind::RightParen => SpecTokenKind::RightParen,
            TokenKind::LeftBrace => SpecTokenKind::LeftBrace,
            TokenKind::RightBrace => SpecTokenKind::RightBrace,
            TokenKind::Comma => SpecTokenKind::Comma,
            TokenKind::Dot => SpecTokenKind::Dot,
            TokenKind::Minus => SpecTokenKind::Minus,
            TokenKind::Plus => SpecTokenKind::Plus,
            TokenKind::Semicolon => SpecTokenKind::Semicolon,
            TokenKind::Slash => SpecTokenKind::Slash,
            TokenKind::Star => SpecTokenKind::Star,
            TokenKind::Bang => SpecTokenKind::Bang,
            TokenKind::BangEqual => SpecTokenKind::BangEqual,
            TokenKind::Equal => SpecTokenKind::Equal,
            TokenKind::EqualEqual => SpecTokenKind::EqualEqual,
            TokenKind::Greater => SpecTokenKind::Greater,
            TokenKind::GreaterEqual => SpecTokenKind::GreaterEqual,
            TokenKind::Less => SpecTokenKind::Less,
            TokenKind::LessEqual => SpecTokenKind::LessEqual,
            TokenKind::Ident(s) => SpecTokenKind::Ident(s@),
            TokenKind::Literal { kind } => SpecTokenKind::Literal { kind: kind@ },
            TokenKind::And => SpecTokenKind::And,
            TokenKind::Class => SpecTokenKind::Class,
            TokenKind::Else => SpecTokenKind::Else,
            TokenKind::Fn => SpecTokenKind::Fn,
            TokenKind::For => SpecTokenKind::For,
            TokenKind::Nil => SpecTokenKind::Nil,
            TokenKind::If => SpecTokenKind::If,
            TokenKind::Print => SpecTokenKind::Print,
            TokenKind::Or => SpecTokenKind::Or,
            TokenKind::Return => SpecTokenKind::Return,
            TokenKind::Super => SpecTokenKind::Super,
            TokenKind::This => SpecTokenKind::This,
            TokenKind::Let => SpecTokenKind::Let,
            TokenKind::While => SpecTokenKind::While,
            TokenKind::LineComment => SpecTokenKind::LineComment,
            TokenKind::Eof => SpecTokenKind::Eof,
        }
    }
}

impl DeepView for TokenKind {
    type V = SpecTokenKind;

    open spec fn deep_view(&self) -> SpecTokenKind {
        self.view()
    }
}

impl View for Token {
    type V = SpecToken;

    open spec fn view(&self) -> SpecToken {
        SpecToken {
            kind: self.token_kind@,
            pos: self.pos as int,
            line: self.line as int,
            column: self.column as int,
        }
    }
}

impl DeepView for Token {
    type V = SpecToken;

    open spec fn deep_view(&self) -> SpecToken {
        self.view()
    }
}

/// Builds a fresh literal payload with the same model as the given one.
pub fn dup_literal(k: &LiteralKind) -> (r: LiteralKind)
    ensures
        r@ == k@,
{
    match k {
        LiteralKind::Bool(b) => LiteralKind::Bool(*b),
        LiteralKind::Number(s) => LiteralKind::Number(s.clone()),
        LiteralKind::String(s) => LiteralKind::String(s.clone()),
    }
}

/// Decides equality of two token kinds at the level of their models.
pub fn kind_eq(a: &TokenKind, b: &TokenKind) -> (r: bool)
    ensures
        r == (a@ == b@),
{
    match (a, b) {
        (TokenKind::LeftParen, TokenKind::LeftParen) => true,
        (TokenKind::RightParen, TokenKind::RightParen) => true,
        (TokenKind::LeftBrace, TokenKind::LeftBrace) => true,
        (TokenKind::RightBrace, TokenKind::RightBrace) => true,
        (TokenKind::Comma, TokenKind::Comma) => true,
        (TokenKind::Dot, TokenKind::Dot) => true,
        (TokenKind::Minus, TokenKind::Minus) => true,
        (TokenKind::Plus, TokenKind::Plus) => true,
        (TokenKind::Semicolon, TokenKind::Semicolon) => true,
        (TokenKind::Slash, TokenKind::Slash) => true,
        (TokenKind::Star, TokenKind::Star) => true,
        (TokenKind::Bang, TokenKind::Bang) => true,
        (TokenKind::BangEqual, TokenKind::BangEqual) => true,
        (TokenKind::Equal, TokenKind::Equal) => true,
        (TokenKind::EqualEqual, TokenKind::EqualEqual) => true,
        (TokenKind::Greater, TokenKind::Greater) => true,
        (TokenKind::GreaterEqual, TokenKind::GreaterEqual) => true,
        (TokenKind::Less, TokenKind::Less) => true,
        (TokenKind::LessEqual, TokenKind::LessEqual) => true,
        (TokenKind::Ident(s1), TokenKind::Ident(s2)) => *s1 == *s2,
        (TokenKind::Literal { kind: k1 }, TokenKind::Literal { kind: k2 }) => match (k1, k2) {
            (LiteralKind::Bool(b1), LiteralKind::Bool(b2)) => *b1 == *b2,
            (LiteralKind::Number(s1), LiteralKind::Number(s2)) => *s1 == *s2,
            (LiteralKind::String(s1), LiteralKind::String(s2)) => *s1 == *s2,
            _ => false,
        },
        (TokenKind::And, TokenKind::And) => true,
        (TokenKind::Class, TokenKind::Class) => true,
        (TokenKind::Else, TokenKind::Else) => true,
        (TokenKind::Fn, TokenKind::Fn) => true,
        (TokenKind::For, TokenKind::For) => true,
        (TokenKind::Nil, TokenKind::Nil) => true,
        (TokenKind::If, TokenKind::If) => true,
        (TokenKind::Print, TokenKind::Print) => true,
        (TokenKind::Or, TokenKind::Or) => true,
        (TokenKind::Return, TokenKind::Return) => true,
        (TokenKind::Super, TokenKind::Super) => true,
        (TokenKind::This, TokenKind::This) => true,
        (TokenKind::Let, TokenKind::Let) => true,
        (TokenKind::While, TokenKind::While) => true,
        (TokenKind::LineComment, TokenKind::LineComment) => true,
        (TokenKind::Eof, TokenKind::Eof) => true,
        _ => false,
    }
}

/// Builds a fresh token kind with the same model as the given one.
pub fn dup_kind(k: &TokenKind) -> (r: TokenKind)
    ensures
        r@ == k@,
{
    match k {
        TokenKind::LeftParen => TokenKind::LeftParen,
        TokenKind::RightParen => TokenKind::RightParen,
        TokenKind::LeftBrace => TokenKind::LeftBrace,
        TokenKind::RightBrace => TokenKind::RightBrace,
        TokenKind::Comma => TokenKind::Comma,
        TokenKind::Dot => TokenKind::Dot,
        TokenKind::Minus => TokenKind::Minus,
        TokenKind::Plus => TokenKind::Plus,
        TokenKind::Semicolon => TokenKind::Semicolon,
        TokenKind::Slash => TokenKind::Slash,
        TokenKind::Star => TokenKind::Star,
        TokenKind::Bang => TokenKind::Bang,
        TokenKind::BangEqual => TokenKind::BangEqual,
        TokenKind::Equal => TokenKind::Equal,
        TokenKind::EqualEqual => TokenKind::EqualEqual,
        TokenKind::Greater => TokenKind::Greater,
        TokenKind::GreaterEqual => TokenKind::GreaterEqual,
        TokenKind::Less => TokenKind::Less,
        TokenKind::LessEqual => TokenKind::LessEqual,
        TokenKind::Ident(s) => TokenKind::Ident(s.clone()),
        TokenKind::Literal { kind } => TokenKind::Literal { kind: dup_literal(kind) },
        TokenKind::And => TokenKind::And,
        TokenKind::Class => TokenKind::Class,
        TokenKind::Else => TokenKind::Else,
        TokenKind::Fn => TokenKind::Fn,
        TokenKind::For => TokenKind::For,
        TokenKind::Nil => TokenKind::Nil,
        TokenKind::If => TokenKind::If,
        TokenKind::Print => TokenKind::Print,
        TokenKind::Or => TokenKind::Or,
        TokenKind::Return => TokenKind::Return,
        TokenKind::Super => TokenKind::Super,
        TokenKind::This => TokenKind::This,
        TokenKind::Let => TokenKind::Let,
        TokenKind::While => TokenKind::While,
        TokenKind::LineComment => TokenKind::LineComment,
        TokenKind::Eof => TokenKind::Eof,
    }
}

/// Builds a fresh token with the same model as the given one.
pub fn dup_token(t: &Token) -> (r: Token)
    ensures
        r@ == t@,
{
    Token { token_kind: dup_kind(&t.token_kind), pos: t.pos, line: t.line, column: t.column }
}

} // verus!
