use vstd::prelude::*;

use crate::errors::{ParseError, UnexpectedToken};
use crate::expr::{Expr, Operator, OperatorKind};
use crate::grammar::{
    is_equality_op, op_of, sp_adv, sp_and, sp_and_loop, sp_assignment, sp_comparison,
    sp_comparison_loop, sp_equality, sp_equality_loop, sp_expression, sp_factor, sp_factor_loop,
    sp_or, sp_or_loop, sp_peek, sp_primary, sp_term, sp_term_loop, sp_unary,
};
use crate::token::{dup_kind, dup_token, kind_eq, SpecToken, Token, TokenKind};

verus! {

/// The comment-free projection of a token sequence: line comments never
/// participate in the grammar.
pub open spec fn strip_comments(ts: Seq<SpecToken>) -> Seq<SpecToken>
    decreases ts.len(),
{
    if ts.len() == 0 {
        Seq::empty()
    } else if ts[0].kind is LineComment {
        strip_comments(ts.drop_first())
    } else {
        seq![ts[0]] + strip_comments(ts.drop_first())
    }
}

/// Filtering commutes with appending one token at the end.
pub proof fn lemma_strip_comments_push(ts: Seq<SpecToken>, t: SpecToken)
    ensures
        strip_comments(ts.push(t)) == if t.kind is LineComment {
            strip_comments(ts)
        } else {
            strip_comments(ts).push(t)
        },
    decreases ts.len(),
{
    if ts.len() == 0 {
        assert(ts.push(t).drop_first() =~= Seq::empty());
        assert(ts.push(t)[0] == t);
        assert(strip_comments(ts.push(t).drop_first()) =~= Seq::<SpecToken>::empty());
        if !(t.kind is LineComment) {
            assert(strip_comments(ts.push(t)) =~= strip_comments(ts).push(t));
        }
    } else {
        assert(ts.push(t).drop_first() =~= ts.drop_first().push(t));
        lemma_strip_comments_push(ts.drop_first(), t);
        if !(t.kind is LineComment) {
            if !(ts[0].kind is LineComment) {
                assert(seq![ts[0]] + strip_comments(ts.drop_first()).push(t) =~= (seq![ts[0]]
                    + strip_comments(ts.drop_first())).push(t));
            }
        }
    }
}

/// Recursive-descent parser over a token sequence, with one-token lookahead
/// and no backtracking; the cursor only ever moves right.
pub struct Parser {
    pub tokens: Vec<Token>,
    pub pos: usize,
}

/// How a parsing step relates the parser before and after the call, its
/// result, and the grammar model: the token sequence is untouched, the
/// cursor only moved right, and the result — tree plus new cursor on
/// success, positioned report on failure — is exactly the model's.
pub open spec fn parse_rel(
    pre: Parser,
    post: Parser,
    r: Result<Expr, ParseError>,
    sr: Result<(SpecExpr, int), SpecParseError>,
) -> bool {
    &&& post.tokens == pre.tokens
    &&& post.parser_wf()
    &&& pre.pos <= post.pos
    &&& match r {
        Result::Ok(e) => sr matches Result::Ok(p) && p.0 == e.deep_view() && p.1 == post.pos as int,
        Result::Err(pe) => sr matches Result::Err(se) && se == pe@,
    }
}

use crate::errors::SpecParseError;
use crate::expr::SpecExpr;

impl Parser {
    /// The model of the parser's token sequence.
    pub open spec fn toks(&self) -> Seq<SpecToken> {
        self.tokens.deep_view()
    }

    /// Well-formedness: at least one token, the last one end-of-input — as
    /// the lexer guarantees — and the cursor within bounds.
    pub open spec fn parser_wf(&self) -> bool {
        &&& self.toks().len() >= 1
        &&& self.pos <= self.toks().len()
        &&& self.toks().last().kind is Eof
    }

    /// Builds a parser over the given tokens with line comments filtered
    /// out, since comments never participate in the grammar.
    pub fn new(tokens: Vec<Token>) -> (r: Self)
        ensures
            r.toks() == strip_comments(tokens.deep_view()),
            r.pos == 0,
    {
        let mut kept: Vec<Token> = Vec::new();
        let mut i: usize = 0;
        while i < tokens.len()
            invariant
                i <= tokens@.len(),
                kept.deep_view() == strip_comments(tokens.deep_view().take(i as int)),
            decreases tokens@.len() - i,
        {
            let ghost pre = tokens.deep_view().take(i as int);
            let is_comment = matches!(tokens[i].token_kind, TokenKind::LineComment);
            if !is_comment {
                let ghost kv0 = kept@;
                let ghost kd0 = kept.deep_view();
                let t = dup_token(&tokens[i]);
                let ghost gt = t;
                kept.push(t);
                proof {
                    assert(kept@ == kv0.push(gt));
                    assert forall|j: int|
                        0 <= j < kept.deep_view().len() implies kept.deep_view()[j] == kd0.push(
                        gt@,
                    )[j] by {
                        if j < kv0.len() {
                            assert(kept@[j] == kv0[j]);
                        } else {
                            assert(kept@[j] == gt);
                        }
                    }
                    assert(kept.deep_view() =~= kd0.push(gt@));
                }
            }
            proof {
                assert(tokens.deep_view().take(i + 1 as int) =~= pre.push(
                    tokens.deep_view()[i as int],
                ));
                lemma_strip_comments_push(pre, tokens.deep_view()[i as int]);
            }
            i = i + 1;
        }
        proof {
            assert(tokens.deep_view().take(tokens@.len() as int) =~= tokens.deep_view());
        }
        Parser { tokens: kept, pos: 0 }
    }

    fn is_at_end(&self) -> (r: bool)
        ensures
            r == (self.pos >= self.toks().len()),
    {
        self.pos >= self.tokens.len()
    }

    /// The lookahead token: the token at the cursor, or the last token once
    /// the cursor has run past the end.
    fn peek(&self) -> (r: &Token)
        requires
            self.parser_wf(),
        ensures
            r@ == sp_peek(self.toks(), self.pos as int),
    {
        if self.is_at_end() {
            &self.tokens[self.tokens.len() - 1]
        } else {
            &self.tokens[self.pos]
        }
    }

    /// Consumes one token — the cursor never moves past the end — and
    /// returns the new lookahead.
    pub fn advance(&mut self) -> (r: &Token)
        requires
            old(self).parser_wf(),
        ensures
            final(self).parser_wf(),
            final(self).tokens == old(self).tokens,
            final(self).pos == sp_adv(old(self).toks(), old(self).pos as int),
            r@ == sp_peek(final(self).toks(), final(self).pos as int),
    {
        if self.pos < self.tokens.len() {
            self.pos = self.pos + 1;
        }
        self.peek()
    }

    /// Consume-with-expectation: advances over the lookahead when it has
    /// exactly the expected kind, and otherwise reports it together with the
    /// kind that was required.
    fn eat(&mut self, token_kind: TokenKind) -> (r: Result<(), ParseError>)
        requires
            old(self).parser_wf(),
        ensures
            final(self).parser_wf(),
            final(self).tokens == old(self).tokens,
            match r {
                Result::Ok(u) => sp_peek(old(self).toks(), old(self).pos as int).kind
                    == token_kind@ && final(self).pos == sp_adv(
                    old(self).toks(),
                    old(self).pos as int,
                ),
                Result::Err(e) => sp_peek(old(self).toks(), old(self).pos as int).kind
                    != token_kind@ && final(self).pos == old(self).pos && e@ == crate::grammar::sp_err(
                    sp_peek(old(self).toks(), old(self).pos as int),
                    Option::Some(token_kind@),
                ),
            },
    {
        let matched = {
            let current_token = self.peek();
            kind_eq(&current_token.token_kind, &token_kind)
        };
        if matched {
            self.advance();
            Result::Ok(())
        } else {
            let found = {
                let current_token = self.peek();
                dup_kind(&current_token.token_kind)
            };
            let (line, column) = {
                let current_token = self.peek();
                (current_token.line, current_token.column)
            };
            Result::Err(
                ParseError::UnexpectedToken(
                    UnexpectedToken::new(found, Option::Some(token_kind), line, column),
                ),
            )
        }
    }

    /// Parses one expression starting at the cursor, leaving the cursor just
    /// past the tokens the expression covers; the first token on which no
    /// grammar rule can make progress aborts the parse with its position.
    pub fn parse_expression(&mut self) -> (r: Result<Expr, ParseError>)
        requires
            old(self).parser_wf(),
        ensures
            parse_rel(
                *old(self),
                *final(self),
                r,
                sp_expression(old(self).toks(), old(self).pos as int),
            ),
        decreases old(self).toks().len() - old(self).pos, 34int,
    {
        self.parse_assignment()
    }

    #[verifier::rlimit(100)]
    fn parse_assignment(&mut self) -> (r: Result<Expr, ParseError>)
        requires
            old(self).parser_wf(),
        ensures
            parse_rel(
                *old(self),
                *final(self),
                r,
                sp_assignment(old(self).toks(), old(self).pos as int),
            ),
        decreases old(self).toks().len() - old(self).pos, 32int,
    {
        let name_opt: Option<String> = {
            let cur = self.peek();
            match &cur.token_kind {
                TokenKind::Ident(s) => Option::Some(s.clone()),
                _ => Option::None,
            }
        };
        match name_opt {
            Option::Some(name) => {
                let next_is_equal = {
                    // the token one past the current one, clamped like the
                    // lookahead itself
                    let idx = if self.pos < self.tokens.len() {
                        self.pos + 1
                    } else {
                        self.pos
                    };
                    let c2 = if idx >= self.tokens.len() {
                        &self.tokens[self.tokens.len() - 1]
                    } else {
                        &self.tokens[idx]
                    };
                    matches!(c2.token_kind, TokenKind::Equal)
                };
                if next_is_equal {
                    self.advance();  // the identifier
                    self.advance();  // the `=`
                    let value = match self.logic_or() {
                        Result::Ok(e) => e,
                        Result::Err(e) => {
                            return Result::Err(e);
                        },
                    };
                    Result::Ok(Expr::Assign { name, expr: Box::new(value) })
                } else {
                    self.logic_or()
                }
            },
            Option::None => self.logic_or(),
        }
    }

    #[verifier::rlimit(100)]
    fn logic_or(&mut self) -> (r: Result<Expr, ParseError>)
        requires
            old(self).parser_wf(),
        ensures
            parse_rel(*old(self), *final(self), r, sp_or(old(self).toks(), old(self).pos as int)),
        decreases old(self).toks().len() - old(self).pos, 30int,
    {
        let ghost ts = old(self).toks();
        let ghost pos0 = old(self).pos as int;
        let mut node = match self.logic_and() {
            Result::Ok(e) => e,
            Result::Err(e) => {
                return Result::Err(e);
            },
        };
        loop
            invariant
                self.parser_wf(),
                self.tokens == old(self).tokens,
                pos0 <= self.pos,
                sp_or(ts, pos0) == sp_or_loop(ts, self.pos as int, node.deep_view()),
            decreases ts.len() - self.pos,
        {
            let op_tok_opt: Option<Token> = {
                let cur = self.peek();
                if matches!(cur.token_kind, TokenKind::Or) {
                    Option::Some(dup_token(cur))
                } else {
                    Option::None
                }
            };
            match op_tok_opt {
                Option::Some(op_tok) => {
                    self.advance();
                    let operator = match token_to_operator(&op_tok) {
                        Result::Ok(op) => op,
                        Result::Err(e) => {
                            return Result::Err(e);
                        },
                    };
                    let right = match self.logic_and() {
                        Result::Ok(e) => e,
                        Result::Err(e) => {
                            return Result::Err(e);
                        },
                    };
                    node = Expr::BinaryOp {
                        left: Box::new(node),
                        operator,
                        right: Box::new(right),
                    };
                },
                Option::None => {
                    return Result::Ok(node);
                },
            }
        }
    }

    #[verifier::rlimit(100)]
    fn logic_and(&mut self) -> (r: Result<Expr, ParseError>)
        requires
            old(self).parser_wf(),
        ensures
            parse_rel(*old(self), *final(self), r, sp_and(old(self).toks(), old(self).pos as int)),
        decreases old(self).toks().len() - old(self).pos, 26int,
    {
        let ghost ts = old(self).toks();
        let ghost pos0 = old(self).pos as int;
        let mut node = match self.parse_equality() {
            Result::Ok(e) => e,
            Result::Err(e) => {
                return Result::Err(e);
            },
        };
        loop
            invariant
                self.parser_wf(),
                self.tokens == old(self).tokens,
                pos0 <= self.pos,
                sp_and(ts, pos0) == sp_and_loop(ts, self.pos as int, node.deep_view()),
            decreases ts.len() - self.pos,
        {
            let op_tok_opt: Option<Token> = {
                let cur = self.peek();
                if matches!(cur.token_kind, TokenKind::And) {
                    Option::Some(dup_token(cur))
                } else {
                    Option::None
                }
            };
            match op_tok_opt {
                Option::Some(op_tok) => {
                    self.advance();
                    let operator = match token_to_operator(&op_tok) {
                        Result::Ok(op) => op,
                        Result::Err(e) => {
                            return Result::Err(e);
                        },
                    };
                    let right = match self.parse_equality() {
                        Result::Ok(e) => e,
                        Result::Err(e) => {
                            return Result::Err(e);
                        },
                    };
                    node = Expr::BinaryOp {
                        left: Box::new(node),
                        operator,
                        right: Box::new(right),
                    };
                },
                Option::None => {
                    return Result::Ok(node);
                },
            }
        }
    }

    #[verifier::rlimit(100)]
    #[verifier::spinoff_prover]
    fn parse_equality(&mut self) -> (r: Result<Expr, ParseError>)
        requires
            old(self).parser_wf(),
        ensures
            parse_rel(
                *old(self),
                *final(self),
                r,
                sp_equality(old(self).toks(), old(self).pos as int),
            ),
        decreases old(self).toks().len() - old(self).pos, 22int,
    {
        let ghost ts = old(self).toks();
        let ghost pos0 = old(self).pos as int;
        let mut node = match self.parse_comparison() {
            Result::Ok(e) => e,
            Result::Err(e) => {
                return Result::Err(e);
            },
        };
        loop
            invariant
                self.parser_wf(),
                self.tokens == old(self).tokens,
                pos0 <= self.pos,
                sp_equality(ts, pos0) == sp_equality_loop(ts, self.pos as int, node.deep_view()),
            decreases ts.len() - self.pos,
        {
            let op_tok_opt: Option<Token> = {
                let cur = self.peek();
                if matches!(cur.token_kind, TokenKind::BangEqual | TokenKind::EqualEqual) {
                    Option::Some(dup_token(cur))
                } else {
                    Option::None
                }
            };
            let ghost pi = self.pos as int;
            let ghost acc0 = node.deep_view();
            match op_tok_opt {
                Option::Some(op_tok) => {
                    self.advance();
                    proof {
                        assert(is_equality_op(sp_peek(ts, pi).kind));
                        assert(self.pos as int == sp_adv(ts, pi));
                    }
                    let operator = match token_to_operator(&op_tok) {
                        Result::Ok(op) => op,
                        Result::Err(e) => {
                            return Result::Err(e);
                        },
                    };
                    let right = match self.parse_comparison() {
                        Result::Ok(e) => e,
                        Result::Err(e) => {
                            return Result::Err(e);
                        },
                    };
                    node = Expr::BinaryOp {
                        left: Box::new(node),
                        operator,
                        right: Box::new(right),
                    };
                    proof {
                        assert(sp_equality_loop(ts, pi, acc0) == sp_equality_loop(
                            ts,
                            self.pos as int,
                            node.deep_view(),
                        ));
                    }
                },
                Option::None => {
                    return Result::Ok(node);
                },
            }
        }
    }

    #[verifier::rlimit(100)]
    fn parse_comparison(&mut self) -> (r: Result<Expr, ParseError>)
        requires
            old(self).parser_wf(),
        ensures
            parse_rel(
                *old(self),
                *final(self),
                r,
                sp_comparison(old(self).toks(), old(self).pos as int),
            ),
        decreases old(self).toks().len() - old(self).pos, 18int,
    {
        let ghost ts = old(self).toks();
        let ghost pos0 = old(self).pos as int;
        let mut node = match self.parse_term() {
            Result::Ok(e) => e,
            Result::Err(e) => {
                return Result::Err(e);
            },
        };
        loop
            invariant
                self.parser_wf(),
                self.tokens == old(self).tokens,
                pos0 <= self.pos,
                sp_comparison(ts, pos0) == sp_comparison_loop(
                    ts,
                    self.pos as int,
                    node.deep_view(),
                ),
            decreases ts.len() - self.pos,
        {
            let op_tok_opt: Option<Token> = {
                let cur = self.peek();
                if matches!(
                    cur.token_kind,
                    TokenKind::Less | TokenKind::LessEqual | TokenKind::Greater
                        | TokenKind::GreaterEqual
                ) {
                    Option::Some(dup_token(cur))
                } else {
                    Option::None
                }
            };
            match op_tok_opt {
                Option::Some(op_tok) => {
                    self.advance();
                    let operator = match token_to_operator(&op_tok) {
                        Result::Ok(op) => op,
                        Result::Err(e) => {
                            return Result::Err(e);
                        },
                    };
                    let right = match self.parse_term() {
                        Result::Ok(e) => e,
                        Result::Err(e) => {
                            return Result::Err(e);
                        },
                    };
                    node = Expr::BinaryOp {
                        left: Box::new(node),
                        operator,
                        right: Box::new(right),
                    };
                },
                Option::None => {
                    return Result::Ok(node);
                },
            }
        }
    }

    fn parse_term(&mut self) -> (r: Result<Expr, ParseError>)
        requires
            old(self).parser_wf(),
        ensures
            parse_rel(*old(self), *final(self), r, sp_term(old(self).toks(), old(self).pos as int)),
        decreases old(self).toks().len() - old(self).pos, 14int,
    {
        let ghost ts = old(self).toks();
        let ghost pos0 = old(self).pos as int;
        let mut node = match self.parse_factor() {
            Result::Ok(e) => e,
            Result::Err(e) => {
                return Result::Err(e);
            },
        };
        loop
            invariant
                self.parser_wf(),
                self.tokens == old(self).tokens,
                pos0 <= self.pos,
                sp_term(ts, pos0) == sp_term_loop(ts, self.pos as int, node.deep_view()),
            decreases ts.len() - self.pos,
        {
            let op_tok_opt: Option<Token> = {
                let cur = self.peek();
                if matches!(cur.token_kind, TokenKind::Plus | TokenKind::Minus) {
                    Option::Some(dup_token(cur))
                } else {
                    Option::None
                }
            };
            match op_tok_opt {
                Option::Some(op_tok) => {
                    self.advance();
                    let operator = match token_to_operator(&op_tok) {
                        Result::Ok(op) => op,
                        Result::Err(e) => {
                            return Result::Err(e);
                        },
                    };
                    let right = match self.parse_factor() {
                        Result::Ok(e) => e,
                        Result::Err(e) => {
                            return Result::Err(e);
                        },
                    };
                    node = Expr::BinaryOp {
                        left: Box::new(node),
                        operator,
                        right: Box::new(right),
                    };
                },
                Option::None => {
                    return Result::Ok(node);
                },
            }
        }
    }

    fn parse_factor(&mut self) -> (r: Result<Expr, ParseError>)
        requires
            old(self).parser_wf(),
        ensures
            parse_rel(
                *old(self),
                *final(self),
                r,
                sp_factor(old(self).toks(), old(self).pos as int),
            ),
        decreases old(self).toks().len() - old(self).pos, 10int,
    {
        let ghost ts = old(self).toks();
        let ghost pos0 = old(self).pos as int;
        let mut node = match self.parse_unary() {
            Result::Ok(e) => e,
            Result::Err(e) => {
                return Result::Err(e);
            },
        };
        loop
            invariant
                self.parser_wf(),
                self.tokens == old(self).tokens,
                pos0 <= self.pos,
                sp_factor(ts, pos0) == sp_factor_loop(ts, self.pos as int, node.deep_view()),
            decreases ts.len() - self.pos,
        {
            let op_tok_opt: Option<Token> = {
                let cur = self.peek();
                if matches!(cur.token_kind, TokenKind::Star | TokenKind::Slash) {
                    Option::Some(dup_token(cur))
                } else {
                    Option::None
                }
            };
            match op_tok_opt {
                Option::Some(op_tok) => {
                    self.advance();
                    let operator = match token_to_operator(&op_tok) {
                        Result::Ok(op) => op,
                        Result::Err(e) => {
                            return Result::Err(e);
                        },
                    };
                    let right = match self.parse_unary() {
                        Result::Ok(e) => e,
                        Result::Err(e) => {
                            return Result::Err(e);
                        },
                    };
                    node = Expr::BinaryOp {
                        left: Box::new(node),
                        operator,
                        right: Box::new(right),
                    };
                },
                Option::None => {
                    return Result::Ok(node);
                },
            }
        }
    }

    fn parse_unary(&mut self) -> (r: Result<Expr, ParseError>)
        requires
            old(self).parser_wf(),
        ensures
            parse_rel(
                *old(self),
                *final(self),
                r,
                sp_unary(old(self).toks(), old(self).pos as int),
            ),
        decreases old(self).toks().len() - old(self).pos, 6int,
    {
        let op_tok_opt: Option<Token> = {
            let cur = self.peek();
            if matches!(cur.token_kind, TokenKind::Bang | TokenKind::Minus) {
                Option::Some(dup_token(cur))
            } else {
                Option::None
            }
        };
        match op_tok_opt {
            Option::Some(op_tok) => {
                self.advance();
                let operator = match token_to_operator(&op_tok) {
                    Result::Ok(op) => op,
                    Result::Err(e) => {
                        return Result::Err(e);
                    },
                };
                let operand = match self.parse_unary() {
                    Result::Ok(e) => e,
                    Result::Err(e) => {
                        return Result::Err(e);
                    },
                };
                Result::Ok(Expr::UnaryOp { operator, operand: Box::new(operand) })
            },
            Option::None => self.parse_primary(),
        }
    }

    fn parse_primary(&mut self) -> (r: Result<Expr, ParseError>)
        requires
            old(self).parser_wf(),
        ensures
            parse_rel(
                *old(self),
                *final(self),
                r,
                sp_primary(old(self).toks(), old(self).pos as int),
            ),
        decreases old(self).toks().len() - old(self).pos, 4int,
    {
        let current_token = {
            let cur = self.peek();
            dup_token(cur)
        };
        match current_token.token_kind {
            TokenKind::Literal { kind } => {
                self.advance();
                Result::Ok(Expr::Literal { kind })
            },
            TokenKind::LeftParen => {
                self.advance();
                let inner = match self.parse_expression() {
                    Result::Ok(e) => e,
                    Result::Err(e) => {
                        return Result::Err(e);
                    },
                };
                match self.eat(TokenKind::RightParen) {
                    Result::Ok(u) => Result::Ok(Expr::Grouping(Box::new(inner))),
                    Result::Err(e) => Result::Err(e),
                }
            },
            TokenKind::Ident(name) => {
                self.advance();
                Result::Ok(Expr::Variable(name))
            },
            _ => {
                let found = dup_kind(&current_token.token_kind);
                Result::Err(
                    ParseError::UnexpectedToken(
                        UnexpectedToken::new(
                            found,
                            Option::None,
                            current_token.line,
                            current_token.column,
                        ),
                    ),
                )
            },
        }
    }
}

/// Maps an operator token to its semantic operator, keeping the token's
/// source position; a token that denotes no operator is reported, so an
/// invalid operator can never reach the tree.
fn token_to_operator(token: &Token) -> (r: Result<Operator, ParseError>)
    ensures
        match r {
            Result::Ok(op) => op_of(token@) == Option::Some(op@),
            Result::Err(e) => op_of(token@) is None && e@ == crate::grammar::sp_err(
                token@,
                Option::None,
            ),
        },
{
    let op_kind = match token.token_kind {
        TokenKind::And => OperatorKind::And,
        TokenKind::Or => OperatorKind::Or,
        TokenKind::Bang => OperatorKind::Not,
        TokenKind::BangEqual => OperatorKind::NotEqual,
        TokenKind::EqualEqual => OperatorKind::Equal,
        TokenKind::Less => OperatorKind::Less,
        TokenKind::LessEqual => OperatorKind::LessEqual,
        TokenKind::Greater => OperatorKind::Greater,
        TokenKind::GreaterEqual => OperatorKind::GreaterEqual,
        TokenKind::Plus => OperatorKind::Add,
        TokenKind::Minus => OperatorKind::Subtract,
        TokenKind::Star => OperatorKind::Multiply,
        TokenKind::Slash => OperatorKind::Divide,
        _ => {
            let found = dup_kind(&token.token_kind);
            return Result::Err(
                ParseError::UnexpectedToken(
                    UnexpectedToken::new(found, Option::None, token.line, token.column),
                ),
            );
        },
    };
    Result::Ok(Operator { op_kind, pos: token.pos, line: token.line, column: token.column })
}

} // verus!
