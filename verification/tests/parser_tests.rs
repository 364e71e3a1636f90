use rloxs::errors::ParseError;
use rloxs::errors::UnexpectedToken;
use rloxs::expr::{Expr, Operator, OperatorKind};
use rloxs::lexer::Lexer;
use rloxs::parser::Parser;
use rloxs::token::{LiteralKind, Token, TokenKind};

fn parse_helper(input: &str) -> Result<Expr, ParseError> {
    let tokens = Lexer::new(input).lex().unwrap();
    let mut parser = Parser::new(tokens);
    parser.parse_expression()
}

fn num(text: &str) -> Expr {
    Expr::Literal { kind: LiteralKind::Number(text.to_string()) }
}

#[test]
fn feature() {
    let tokens = vec![
        Token {
            token_kind: TokenKind::Literal { kind: LiteralKind::Number("1".to_string()) },
            pos: 0,
            line: 1,
            column: 0,
        },
        Token { token_kind: TokenKind::Plus, pos: 2, line: 1, column: 2 },
        Token {
            token_kind: TokenKind::Literal { kind: LiteralKind::Number("2".to_string()) },
            pos: 4,
            line: 1,
            column: 4,
        },
        Token { token_kind: TokenKind::Star, pos: 6, line: 1, column: 6 },
        Token {
            token_kind: TokenKind::Literal { kind: LiteralKind::Number("3".to_string()) },
            pos: 8,
            line: 1,
            column: 8,
        },
    ];

    let mut parser = Parser::new(tokens);
    let _ast = parser.parse_expression();
}

#[test]
fn multiplication_binds_tighter_than_addition() {
    let ast = parse_helper("1+2*3").unwrap();
    let expected = Expr::BinaryOp {
        left: Box::new(num("1")),
        operator: Operator { op_kind: OperatorKind::Add, pos: 1, line: 1, column: 1 },
        right: Box::new(Expr::BinaryOp {
            left: Box::new(num("2")),
            operator: Operator { op_kind: OperatorKind::Multiply, pos: 3, line: 1, column: 3 },
            right: Box::new(num("3")),
        }),
    };
    assert_eq!(ast, expected);
}

#[test]
fn grouping_overrides_precedence() {
    let ast = parse_helper("(1+2)*3").unwrap();
    let expected = Expr::BinaryOp {
        left: Box::new(Expr::Grouping(Box::new(Expr::BinaryOp {
            left: Box::new(num("1")),
            operator: Operator { op_kind: OperatorKind::Add, pos: 2, line: 1, column: 2 },
            right: Box::new(num("2")),
        }))),
        operator: Operator { op_kind: OperatorKind::Multiply, pos: 5, line: 1, column: 5 },
        right: Box::new(num("3")),
    };
    assert_eq!(ast, expected);
}

#[test]
fn assignment_parses_name_and_value() {
    let ast = parse_helper("x = 1 + 2").unwrap();
    let expected = Expr::Assign {
        name: "x".to_string(),
        expr: Box::new(Expr::BinaryOp {
            left: Box::new(num("1")),
            operator: Operator { op_kind: OperatorKind::Add, pos: 6, line: 1, column: 6 },
            right: Box::new(num("2")),
        }),
    };
    assert_eq!(ast, expected);
}

#[test]
fn missing_close_paren_reports_expected_right_paren() {
    let err = parse_helper("(1+2").unwrap_err();
    let expected = ParseError::UnexpectedToken(UnexpectedToken::new(
        TokenKind::Eof,
        Some(TokenKind::RightParen),
        1,
        4,
    ));
    assert_eq!(err, expected);
}

#[test]
fn bare_identifier_is_a_variable() {
    let ast = parse_helper("x").unwrap();
    assert_eq!(ast, Expr::Variable("x".to_string()));
}

#[test]
fn identifier_followed_by_operator_is_not_an_assignment() {
    let ast = parse_helper("x + 1").unwrap();
    let expected = Expr::BinaryOp {
        left: Box::new(Expr::Variable("x".to_string())),
        operator: Operator { op_kind: OperatorKind::Add, pos: 2, line: 1, column: 2 },
        right: Box::new(num("1")),
    };
    assert_eq!(ast, expected);
}

#[test]
fn unary_is_right_associative() {
    let ast = parse_helper("!-1").unwrap();
    let expected = Expr::UnaryOp {
        operator: Operator { op_kind: OperatorKind::Not, pos: 0, line: 1, column: 0 },
        operand: Box::new(Expr::UnaryOp {
            operator: Operator { op_kind: OperatorKind::Subtract, pos: 1, line: 1, column: 1 },
            operand: Box::new(num("1")),
        }),
    };
    assert_eq!(ast, expected);
}

#[test]
fn binary_chains_are_left_associative() {
    let ast = parse_helper("1-2-3").unwrap();
    let expected = Expr::BinaryOp {
        left: Box::new(Expr::BinaryOp {
            left: Box::new(num("1")),
            operator: Operator { op_kind: OperatorKind::Subtract, pos: 1, line: 1, column: 1 },
            right: Box::new(num("2")),
        }),
        operator: Operator { op_kind: OperatorKind::Subtract, pos: 3, line: 1, column: 3 },
        right: Box::new(num("3")),
    };
    assert_eq!(ast, expected);
}

#[test]
fn comments_are_filtered_before_parsing() {
    let ast = parse_helper("1 + // add\n2").unwrap();
    let expected = Expr::BinaryOp {
        left: Box::new(num("1")),
        operator: Operator { op_kind: OperatorKind::Add, pos: 2, line: 1, column: 2 },
        right: Box::new(num("2")),
    };
    assert_eq!(ast, expected);
}

#[test]
fn operator_token_cannot_start_an_expression() {
    let err = parse_helper("*1").unwrap_err();
    let expected = ParseError::UnexpectedToken(UnexpectedToken::new(
        TokenKind::Star,
        None,
        1,
        0,
    ));
    assert_eq!(err, expected);
}

#[test]
fn logical_operators_parse_with_lowest_precedence() {
    let ast = parse_helper("a and b or c").unwrap();
    let expected = Expr::BinaryOp {
        left: Box::new(Expr::BinaryOp {
            left: Box::new(Expr::Variable("a".to_string())),
            operator: Operator { op_kind: OperatorKind::And, pos: 2, line: 1, column: 2 },
            right: Box::new(Expr::Variable("b".to_string())),
        }),
        operator: Operator { op_kind: OperatorKind::Or, pos: 8, line: 1, column: 8 },
        right: Box::new(Expr::Variable("c".to_string())),
    };
    assert_eq!(ast, expected);
}
