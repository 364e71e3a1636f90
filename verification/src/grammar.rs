use vstd::prelude::*;

use crate::errors::{SpecParseError, SpecUnexpectedToken};
use crate::expr::{OperatorKind, SpecExpr, SpecOperator};
use crate::token::{SpecToken, SpecTokenKind};

verus! {

/// The token sequences the parser works on: produced by the lexer with
/// comments filtered out, hence non-empty and terminated by the end-of-input
/// token.
pub open spec fn tokens_wf(ts: Seq<SpecToken>) -> bool {
    ts.len() >= 1 && ts.last().kind is Eof
}

/// One-token lookahead: the token at `pos`, or the last token (end-of-input
/// on well-formed sequences) once the cursor has run past the end.
pub open spec fn sp_peek(ts: Seq<SpecToken>, pos: int) -> SpecToken {
    if pos >= ts.len() {
        ts[ts.len() - 1]
    } else {
        ts[pos]
    }
}

/// Consuming one token: the cursor moves right, but never past the end.
pub open spec fn sp_adv(ts: Seq<SpecToken>, pos: int) -> int {
    if pos < ts.len() {
        pos + 1
    } else {
        pos
    }
}

/// The semantic operator kind of a token kind, for the token kinds that can
/// stand as operators; every other kind has none.
pub open spec fn op_kind_of(k: SpecTokenKind) -> Option<OperatorKind> {
    match k {
        SpecTokenKind::And => Option::Some(OperatorKind::And),
        SpecTokenKind::Or => Option::Some(OperatorKind::Or),
        SpecTokenKind::Bang => Option::Some(OperatorKind::Not),
        SpecTokenKind::BangEqual => Option::Some(OperatorKind::NotEqual),
        SpecTokenKind::EqualEqual => Option::Some(OperatorKind::Equal),
        SpecTokenKind::Less => Option::Some(OperatorKind::Less),
        SpecTokenKind::LessEqual => Option::Some(OperatorKind::LessEqual),
        SpecTokenKind::Greater => Option::Some(OperatorKind::Greater),
        SpecTokenKind::GreaterEqual => Option::Some(OperatorKind::GreaterEqual),
        SpecTokenKind::Plus => Option::Some(OperatorKind::Add),
        SpecTokenKind::Minus => Option::Some(OperatorKind::Subtract),
        SpecTokenKind::Star => Option::Some(OperatorKind::Multiply),
        SpecTokenKind::Slash => Option::Some(OperatorKind::Divide),
        _ => Option::None,
    }
}

/// The operator a token denotes, carrying the token's source position.
pub open spec fn op_of(t: SpecToken) -> Option<SpecOperator> {
    match op_kind_of(t.kind) {
        Option::Some(k) => Option::Some(
            SpecOperator { op_kind: k, pos: t.pos, line: t.line, column: t.column },
        ),
        Option::None => Option::None,
    }
}

/// An unexpected-token report positioned at the offending token.
pub open spec fn sp_err(t: SpecToken, expected: Option<SpecTokenKind>) -> SpecParseError {
    SpecParseError::UnexpectedToken(
        SpecUnexpectedToken { found: t.kind, expected, line: t.line, column: t.column },
    )
}

/// Whether a token kind is one of the two operators at the term level.
pub open spec fn is_term_op(k: SpecTokenKind) -> bool {
    k is Plus || k is Minus
}

/// Whether a token kind is one of the two operators at the factor level.
pub open spec fn is_factor_op(k: SpecTokenKind) -> bool {
    k is Star || k is Slash
}

/// Whether a token kind is one of the two operators at the equality level.
pub open spec fn is_equality_op(k: SpecTokenKind) -> bool {
    k is BangEqual || k is EqualEqual
}

/// Whether a token kind is one of the four operators at the comparison level.
pub open spec fn is_comparison_op(k: SpecTokenKind) -> bool {
    k is Less || k is LessEqual || k is Greater || k is GreaterEqual
}

/// The parse of a whole expression: the grammar's entry point.
pub open spec fn sp_expression(ts: Seq<SpecToken>, pos: int) -> Result<
    (SpecExpr, int),
    SpecParseError,
>
    decreases ts.len() - pos, 34int,
{
    sp_assignment(ts, pos)
}

/// Assignment: only when the parser sees an identifier immediately followed
/// by `=`; otherwise the rule falls through, so a bare identifier or an
/// identifier followed by any other operator parses as an ordinary
/// expression. The right-hand side is a full `logic_or` expression, so
/// chained assignment is not re-entered from the right-hand side.
pub open spec fn sp_assignment(ts: Seq<SpecToken>, pos: int) -> Result<
    (SpecExpr, int),
    SpecParseError,
>
    decreases ts.len() - pos, 32int,
{
    let t = sp_peek(ts, pos);
    match t.kind {
        SpecTokenKind::Ident(name) => if sp_peek(ts, sp_adv(ts, pos)).kind is Equal {
            match sp_or(ts, sp_adv(ts, sp_adv(ts, pos))) {
                Result::Ok(r) => Result::Ok(
                    (SpecExpr::Assign { name, expr: Box::new(r.0) }, r.1),
                ),
                Result::Err(e) => Result::Err(e),
            }
        } else {
            sp_or(ts, pos)
        },
        _ => sp_or(ts, pos),
    }
}

/// `logic_or`: a left-associative chain of `or` over `logic_and` operands.
pub open spec fn sp_or(ts: Seq<SpecToken>, pos: int) -> Result<(SpecExpr, int), SpecParseError>
    decreases ts.len() - pos, 30int,
{
    match sp_and(ts, pos) {
        Result::Ok(r) => if pos <= r.1 && r.1 <= ts.len() {
            sp_or_loop(ts, r.1, r.0)
        } else {
            Result::Ok(r)
        },
        Result::Err(e) => Result::Err(e),
    }
}

/// The iteration of `logic_or`: while the lookahead is `or`, consume it,
/// parse the next `logic_and` operand, and nest the previous result as the
/// left child of the new root.
pub open spec fn sp_or_loop(ts: Seq<SpecToken>, pos: int, acc: SpecExpr) -> Result<
    (SpecExpr, int),
    SpecParseError,
>
    decreases ts.len() - pos, 28int,
{
    let t = sp_peek(ts, pos);
    if t.kind is Or {
        match sp_and(ts, sp_adv(ts, pos)) {
            Result::Ok(r) => {
                let node = SpecExpr::BinaryOp {
                    left: Box::new(acc),
                    operator: op_of(t).unwrap(),
                    right: Box::new(r.0),
                };
                if pos < r.1 && r.1 <= ts.len() {
                    sp_or_loop(ts, r.1, node)
                } else {
                    // never reached: consuming the operator moves the cursor
                    Result::Ok((node, r.1))
                }
            },
            Result::Err(e) => Result::Err(e),
        }
    } else {
        Result::Ok((acc, pos))
    }
}

/// `logic_and`: a left-associative chain of `and` over equality operands.
pub open spec fn sp_and(ts: Seq<SpecToken>, pos: int) -> Result<(SpecExpr, int), SpecParseError>
    decreases ts.len() - pos, 26int,
{
    match sp_equality(ts, pos) {
        Result::Ok(r) => if pos <= r.1 && r.1 <= ts.len() {
            sp_and_loop(ts, r.1, r.0)
        } else {
            Result::Ok(r)
        },
        Result::Err(e) => Result::Err(e),
    }
}

/// The iteration of `logic_and`.
pub open spec fn sp_and_loop(ts: Seq<SpecToken>, pos: int, acc: SpecExpr) -> Result<
    (SpecExpr, int),
    SpecParseError,
>
    decreases ts.len() - pos, 24int,
{
    let t = sp_peek(ts, pos);
    if t.kind is And {
        match sp_equality(ts, sp_adv(ts, pos)) {
            Result::Ok(r) => {
                let node = SpecExpr::BinaryOp {
                    left: Box::new(acc),
                    operator: op_of(t).unwrap(),
                    right: Box::new(r.0),
                };
                if pos < r.1 && r.1 <= ts.len() {
                    sp_and_loop(ts, r.1, node)
                } else {
                    Result::Ok((node, r.1))
                }
            },
            Result::Err(e) => Result::Err(e),
        }
    } else {
        Result::Ok((acc, pos))
    }
}

/// Equality: a left-associative chain of `!=` and `==` over comparison
/// operands.
pub open spec fn sp_equality(ts: Seq<SpecToken>, pos: int) -> Result<
    (SpecExpr, int),
    SpecParseError,
>
    decreases ts.len() - pos, 22int,
{
    match sp_comparison(ts, pos) {
        Result::Ok(r) => if pos <= r.1 && r.1 <= ts.len() {
            sp_equality_loop(ts, r.1, r.0)
        } else {
            Result::Ok(r)
        },
        Result::Err(e) => Result::Err(e),
    }
}

/// The iteration of the equality level.
pub open spec fn sp_equality_loop(ts: Seq<SpecToken>, pos: int, acc: SpecExpr) -> Result<
    (SpecExpr, int),
    SpecParseError,
>
    decreases ts.len() - pos, 20int,
{
    let t = sp_peek(ts, pos);
    if is_equality_op(t.kind) {
        match sp_comparison(ts, sp_adv(ts, pos)) {
            Result::Ok(r) => {
                let node = SpecExpr::BinaryOp {
                    left: Box::new(acc),
                    operator: op_of(t).unwrap(),
                    right: Box::new(r.0),
                };
                if pos < r.1 && r.1 <= ts.len() {
                    sp_equality_loop(ts, r.1, node)
                } else {
                    Result::Ok((node, r.1))
                }
            },
            Result::Err(e) => Result::Err(e),
        }
    } else {
        Result::Ok((acc, pos))
    }
}

/// Comparison: a left-associative chain of `<`, `<=`, `>`, `>=` over term
/// operands.
pub open spec fn sp_comparison(ts: Seq<SpecToken>, pos: int) -> Result<
    (SpecExpr, int),
    SpecParseError,
>
    decreases ts.len() - pos, 18int,
{
    match sp_term(ts, pos) {
        Result::Ok(r) => if pos <= r.1 && r.1 <= ts.len() {
            sp_comparison_loop(ts, r.1, r.0)
        } else {
            Result::Ok(r)
        },
        Result::Err(e) => Result::Err(e),
    }
}

/// The iteration of the comparison level.
pub open spec fn sp_comparison_loop(ts: Seq<SpecToken>, pos: int, acc: SpecExpr) -> Result<
    (SpecExpr, int),
    SpecParseError,
>
    decreases ts.len() - pos, 16int,
{
    let t = sp_peek(ts, pos);
    if is_comparison_op(t.kind) {
        match sp_term(ts, sp_adv(ts, pos)) {
            Result::Ok(r) => {
                let node = SpecExpr::BinaryOp {
                    left: Box::new(acc),
                    operator: op_of(t).unwrap(),
                    right: Box::new(r.0),
                };
                if pos < r.1 && r.1 <= ts.len() {
                    sp_comparison_loop(ts, r.1, node)
                } else {
                    Result::Ok((node, r.1))
                }
            },
            Result::Err(e) => Result::Err(e),
        }
    } else {
        Result::Ok((acc, pos))
    }
}

/// Term: a left-associative chain of `+` and `-` over factor operands.
pub open spec fn sp_term(ts: Seq<SpecToken>, pos: int) -> Result<(SpecExpr, int), SpecParseError>
    decreases ts.len() - pos, 14int,
{
    match sp_factor(ts, pos) {
        Result::Ok(r) => if pos <= r.1 && r.1 <= ts.len() {
            sp_term_loop(ts, r.1, r.0)
        } else {
            Result::Ok(r)
        },
        Result::Err(e) => Result::Err(e),
    }
}

/// The iteration of the term level.
pub open spec fn sp_term_loop(ts: Seq<SpecToken>, pos: int, acc: SpecExpr) -> Result<
    (SpecExpr, int),
    SpecParseError,
>
    decreases ts.len() - pos, 12int,
{
    let t = sp_peek(ts, pos);
    if is_term_op(t.kind) {
        match sp_factor(ts, sp_adv(ts, pos)) {
            Result::Ok(r) => {
                let node = SpecExpr::BinaryOp {
                    left: Box::new(acc),
                    operator: op_of(t).unwrap(),
                    right: Box::new(r.0),
                };
                if pos < r.1 && r.1 <= ts.len() {
                    sp_term_loop(ts, r.1, node)
                } else {
                    Result::Ok((node, r.1))
                }
            },
            Result::Err(e) => Result::Err(e),
        }
    } else {
        Result::Ok((acc, pos))
    }
}

/// Factor: a left-associative chain of `*` and `/` over unary operands.
pub open spec fn sp_factor(ts: Seq<SpecToken>, pos: int) -> Result<(SpecExpr, int), SpecParseError>
    decreases ts.len() - pos, 10int,
{
    match sp_unary(ts, pos) {
        Result::Ok(r) => if pos <= r.1 && r.1 <= ts.len() {
            sp_factor_loop(ts, r.1, r.0)
        } else {
            Result::Ok(r)
        },
        Result::Err(e) => Result::Err(e),
    }
}

/// The iteration of the factor level.
pub open spec fn sp_factor_loop(ts: Seq<SpecToken>, pos: int, acc: SpecExpr) -> Result<
    (SpecExpr, int),
    SpecParseError,
>
    decreases ts.len() - pos, 8int,
{
    let t = sp_peek(ts, pos);
    if is_factor_op(t.kind) {
        match sp_unary(ts, sp_adv(ts, pos)) {
            Result::Ok(r) => {
                let node = SpecExpr::BinaryOp {
                    left: Box::new(acc),
                    operator: op_of(t).unwrap(),
                    right: Box::new(r.0),
                };
                if pos < r.1 && r.1 <= ts.len() {
                    sp_factor_loop(ts, r.1, node)
                } else {
                    Result::Ok((node, r.1))
                }
            },
            Result::Err(e) => Result::Err(e),
        }
    } else {
        Result::Ok((acc, pos))
    }
}

/// Unary: `!` or `-` applied to a unary operand, right-associative by direct
/// recursion; anything else is a primary.
pub open spec fn sp_unary(ts: Seq<SpecToken>, pos: int) -> Result<(SpecExpr, int), SpecParseError>
    decreases ts.len() - pos, 6int,
{
    let t = sp_peek(ts, pos);
    if t.kind is Bang || t.kind is Minus {
        if pos < sp_adv(ts, pos) {
            match sp_unary(ts, sp_adv(ts, pos)) {
                Result::Ok(r) => Result::Ok(
                    (
                        SpecExpr::UnaryOp { operator: op_of(t).unwrap(), operand: Box::new(r.0) },
                        r.1,
                    ),
                ),
                Result::Err(e) => Result::Err(e),
            }
        } else {
            // never reached on well-formed token sequences: past the end the
            // lookahead is the end-of-input token, which is no operator
            Result::Err(sp_err(t, Option::None))
        }
    } else {
        sp_primary(ts, pos)
    }
}

/// Primary: a literal, an identifier, or a parenthesized grouping; any other
/// token cannot start an expression and is reported with no single expected
/// kind.
pub open spec fn sp_primary(ts: Seq<SpecToken>, pos: int) -> Result<
    (SpecExpr, int),
    SpecParseError,
>
    decreases ts.len() - pos, 4int,
{
    let t = sp_peek(ts, pos);
    match t.kind {
        SpecTokenKind::Literal { kind } => Result::Ok(
            (SpecExpr::Literal { kind }, sp_adv(ts, pos)),
        ),
        SpecTokenKind::Ident(name) => Result::Ok((SpecExpr::Variable(name), sp_adv(ts, pos))),
        SpecTokenKind::LeftParen => if pos < sp_adv(ts, pos) {
            match sp_expression(ts, sp_adv(ts, pos)) {
                Result::Ok(r) => {
                    let t2 = sp_peek(ts, r.1);
                    if t2.kind is RightParen {
                        Result::Ok((SpecExpr::Grouping(Box::new(r.0)), sp_adv(ts, r.1)))
                    } else {
                        Result::Err(sp_err(t2, Option::Some(SpecTokenKind::RightParen)))
                    }
                },
                Result::Err(e) => Result::Err(e),
            }
        } else {
            // never reached on well-formed token sequences
            Result::Err(sp_err(t, Option::None))
        },
        _ => Result::Err(sp_err(t, Option::None)),
    }
}

} // verus!
