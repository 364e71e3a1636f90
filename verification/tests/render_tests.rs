use rloxs::lexer::Lexer;
use rloxs::render::render_token_kind;
use rloxs::token::TokenKind;

fn fixed_form_kinds() -> Vec<TokenKind> {
    vec![
        TokenKind::LeftParen,
        TokenKind::RightParen,
        TokenKind::LeftBrace,
        TokenKind::RightBrace,
        TokenKind::Comma,
        TokenKind::Dot,
        TokenKind::Minus,
        TokenKind::Plus,
        TokenKind::Semicolon,
        TokenKind::Slash,
        TokenKind::Star,
        TokenKind::Bang,
        TokenKind::BangEqual,
        TokenKind::Equal,
        TokenKind::EqualEqual,
        TokenKind::Greater,
        TokenKind::GreaterEqual,
        TokenKind::Less,
        TokenKind::LessEqual,
        TokenKind::And,
        TokenKind::Class,
        TokenKind::Else,
        TokenKind::Fn,
        TokenKind::For,
        TokenKind::Nil,
        TokenKind::If,
        TokenKind::Print,
        TokenKind::Or,
        TokenKind::Return,
        TokenKind::Super,
        TokenKind::This,
        TokenKind::Let,
        TokenKind::While,
    ]
}

#[test]
fn each_rendered_kind_relexes_to_itself() {
    for kind in fixed_form_kinds() {
        let text = render_token_kind(&kind).unwrap();
        let tokens = Lexer::new(&text).lex().unwrap();
        assert_eq!(tokens.len(), 2, "rendering {:?}", kind);
        assert_eq!(tokens[0].token_kind, kind);
        assert_eq!(tokens[1].token_kind, TokenKind::Eof);
    }
}

#[test]
fn rendered_kind_sequence_relexes_to_the_same_kinds() {
    let kinds = fixed_form_kinds();
    let mut text = String::new();
    for kind in &kinds {
        text.push_str(&render_token_kind(kind).unwrap());
        text.push(' ');
    }
    let tokens = Lexer::new(&text).lex().unwrap();
    let relexed: Vec<TokenKind> = tokens.into_iter().map(|t| t.token_kind).collect();
    let mut expected = kinds;
    expected.push(TokenKind::Eof);
    assert_eq!(relexed, expected);
}

#[test]
fn payload_kinds_have_no_fixed_rendering() {
    assert_eq!(render_token_kind(&TokenKind::Eof), None);
    assert_eq!(render_token_kind(&TokenKind::LineComment), None);
    assert_eq!(render_token_kind(&TokenKind::Ident("x".to_string())), None);
}
