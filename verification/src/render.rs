use vstd::prelude::*;

use crate::lexing::spec_lex;
use crate::token::{SpecTokenKind, TokenKind};

verus! {

/// The canonical source form of a token kind, for the kinds whose form is
/// fixed: punctuation, operators and keywords. Kinds that carry text of
/// their own, the line-comment marker and the end-of-input marker have no
/// single canonical form here.
pub open spec fn render_kind(k: SpecTokenKind) -> Option<Seq<char>> {
    match k {
        SpecTokenKind::LeftParen => Option::Some(seq!['(']),
        SpecTokenKind::RightParen => Option::Some(seq![')']),
        SpecTokenKind::LeftBrace => Option::Some(seq!['{']),
        SpecTokenKind::RightBrace => Option::Some(seq!['}']),
        SpecTokenKind::Comma => Option::Some(seq![',']),
        SpecTokenKind::Dot => Option::Some(seq!['.']),
        SpecTokenKind::Minus => Option::Some(seq!['-']),
        SpecTokenKind::Plus => Option::Some(seq!['+']),
        SpecTokenKind::Semicolon => Option::Some(seq![';']),
        SpecTokenKind::Slash => Option::Some(seq!['/']),
        SpecTokenKind::Star => Option::Some(seq!['*']),
        SpecTokenKind::Bang => Option::Some(seq!['!']),
        SpecTokenKind::BangEqual => Option::Some(seq!['!', '=']),
        SpecTokenKind::Equal => Option::Some(seq!['=']),
        SpecTokenKind::EqualEqual => Option::Some(seq!['=', '=']),
        SpecTokenKind::Greater => Option::Some(seq!['>']),
        SpecTokenKind::GreaterEqual => Option::Some(seq!['>', '=']),
        SpecTokenKind::Less => Option::Some(seq!['<']),
        SpecTokenKind::LessEqual => Option::Some(seq!['<', '=']),
        SpecTokenKind::And => Option::Some(seq!['a', 'n', 'd']),
        SpecTokenKind::Class => Option::Some(seq!['c', 'l', 'a', 's', 's']),
        SpecTokenKind::Else => Option::Some(seq!['e', 'l', 's', 'e']),
        SpecTokenKind::Fn => Option::Some(seq!['f', 'n']),
        SpecTokenKind::For => Option::Some(seq!['f', 'o', 'r']),
        SpecTokenKind::Nil => Option::Some(seq!['n', 'i', 'l']),
        SpecTokenKind::If => Option::Some(seq!['i', 'f']),
        SpecTokenKind::Print => Option::Some(seq!['p', 'r', 'i', 'n', 't']),
        SpecTokenKind::Or => Option::Some(seq!['o', 'r']),
        SpecTokenKind::Return => Option::Some(seq!['r', 'e', 't', 'u', 'r', 'n']),
        SpecTokenKind::Super => Option::Some(seq!['s', 'u', 'p', 'e', 'r']),
        SpecTokenKind::This => Option::Some(seq!['t', 'h', 'i', 's']),
        SpecTokenKind::Let => Option::Some(seq!['l', 'e', 't']),
        SpecTokenKind::While => Option::Some(seq!['w', 'h', 'i', 'l', 'e']),
        _ => Option::None,
    }
}

#[verifier::rlimit(100)]
#[verifier::spinoff_prover]
proof fn lemma_round_trip_punctuation(k: SpecTokenKind)
    requires
        k is LeftParen || k is RightParen || k is LeftBrace || k is RightBrace || k is Comma || k is Dot || k is Minus || k is Plus || k is Semicolon,
    ensures
        spec_lex(render_kind(k).unwrap()) matches Result::Ok(ts) && ts.len() == 2 && ts[0].kind
            == k && ts[1].kind is Eof,
{
    match k {
        SpecTokenKind::LeftParen => {
            let s: Seq<char> = seq!['('];
            assert(spec_lex(s) matches Result::Ok(ts) && ts.len() == 2 && ts[0].kind
                == SpecTokenKind::LeftParen && ts[1].kind is Eof) by {
                reveal_with_fuel(crate::lexing::ws_skip, 2);
                reveal_with_fuel(crate::lexing::ident_end, 8);
                reveal_with_fuel(crate::lexing::spec_lex_from, 3);
            }
        },
        SpecTokenKind::RightParen => {
            let s: Seq<char> = seq![')'];
            assert(spec_lex(s) matches Result::Ok(ts) && ts.len() == 2 && ts[0].kind
                == SpecTokenKind::RightParen && ts[1].kind is Eof) by {
                reveal_with_fuel(crate::lexing::ws_skip, 2);
                reveal_with_fuel(crate::lexing::ident_end, 8);
                reveal_with_fuel(crate::lexing::spec_lex_from, 3);
            }
        },
        SpecTokenKind::LeftBrace => {
            let s: Seq<char> = seq!['{'];
            assert(spec_lex(s) matches Result::Ok(ts) && ts.len() == 2 && ts[0].kind
                == SpecTokenKind::LeftBrace && ts[1].kind is Eof) by {
                reveal_with_fuel(crate::lexing::ws_skip, 2);
                reveal_with_fuel(crate::lexing::ident_end, 8);
                reveal_with_fuel(crate::lexing::spec_lex_from, 3);
            }
        },
        SpecTokenKind::RightBrace => {
            let s: Seq<char> = seq!['}'];
            assert(spec_lex(s) matches Result::Ok(ts) && ts.len() == 2 && ts[0].kind
                == SpecTokenKind::RightBrace && ts[1].kind is Eof) by {
                reveal_with_fuel(crate::lexing::ws_skip, 2);
                reveal_with_fuel(crate::lexing::ident_end, 8);
                reveal_with_fuel(crate::lexing::spec_lex_from, 3);
            }
        },
        SpecTokenKind::Comma => {
            let s: Seq<char> = seq![','];
            assert(spec_lex(s) matches Result::Ok(ts) && ts.len() == 2 && ts[0].kind
                == SpecTokenKind::Comma && ts[1].kind is Eof) by {
                reveal_with_fuel(crate::lexing::ws_skip, 2);
                reveal_with_fuel(crate::lexing::ident_end, 8);
                reveal_with_fuel(crate::lexing::spec_lex_from, 3);
            }
        },
        SpecTokenKind::Dot => {
            let s: Seq<char> = seq!['.'];
            assert(spec_lex(s) matches Result::Ok(ts) && ts.len() == 2 && ts[0].kind
                == SpecTokenKind::Dot && ts[1].kind is Eof) by {
                reveal_with_fuel(crate::lexing::ws_skip, 2);
                reveal_with_fuel(crate::lexing::ident_end, 8);
                reveal_with_fuel(crate::lexing::spec_lex_from, 3);
            }
        },
        SpecTokenKind::Minus => {
            let s: Seq<char> = seq!['-'];
            assert(spec_lex(s) matches Result::Ok(ts) && ts.len() == 2 && ts[0].kind
                == SpecTokenKind::Minus && ts[1].kind is Eof) by {
                reveal_with_fuel(crate::lexing::ws_skip, 2);
                reveal_with_fuel(crate::lexing::ident_end, 8);
                reveal_with_fuel(crate::lexing::spec_lex_from, 3);
            }
        },
        SpecTokenKind::Plus => {
            let s: Seq<char> = seq!['+'];
            assert(spec_lex(s) matches Result::Ok(ts) && ts.len() == 2 && ts[0].kind
                == SpecTokenKind::Plus && ts[1].kind is Eof) by {
                reveal_with_fuel(crate::lexing::ws_skip, 2);
                reveal_with_fuel(crate::lexing::ident_end, 8);
                reveal_with_fuel(crate::lexing::spec_lex_from, 3);
            }
        },
        SpecTokenKind::Semicolon => {
            let s: Seq<char> = seq![';'];
            assert(spec_lex(s) matches Result::Ok(ts) && ts.len() == 2 && ts[0].kind
                == SpecTokenKind::Semicolon && ts[1].kind is Eof) by {
                reveal_with_fuel(crate::lexing::ws_skip, 2);
                reveal_with_fuel(crate::lexing::ident_end, 8);
                reveal_with_fuel(crate::lexing::spec_lex_from, 3);
            }
        },
        _ => {
        },
    }
}

#[verifier::rlimit(100)]
#[verifier::spinoff_prover]
proof fn lemma_round_trip_operators(k: SpecTokenKind)
    requires
        k is Slash || k is Star || k is Bang || k is BangEqual || k is Equal || k is EqualEqual || k is Greater || k is GreaterEqual || k is Less || k is LessEqual,
    ensures
        spec_lex(render_kind(k).unwrap()) matches Result::Ok(ts) && ts.len() == 2 && ts[0].kind
            == k && ts[1].kind is Eof,
{
    match k {
        SpecTokenKind::Slash => {
            let s: Seq<char> = seq!['/'];
            assert(spec_lex(s) matches Result::Ok(ts) && ts.len() == 2 && ts[0].kind
                == SpecTokenKind::Slash && ts[1].kind is Eof) by {
                reveal_with_fuel(crate::lexing::ws_skip, 2);
                reveal_with_fuel(crate::lexing::ident_end, 8);
                reveal_with_fuel(crate::lexing::spec_lex_from, 3);
            }
        },
        SpecTokenKind::Star => {
            let s: Seq<char> = seq!['*'];
            assert(spec_lex(s) matches Result::Ok(ts) && ts.len() == 2 && ts[0].kind
                == SpecTokenKind::Star && ts[1].kind is Eof) by {
                reveal_with_fuel(crate::lexing::ws_skip, 2);
                reveal_with_fuel(crate::lexing::ident_end, 8);
                reveal_with_fuel(crate::lexing::spec_lex_from, 3);
            }
        },
        SpecTokenKind::Bang => {
            let s: Seq<char> = seq!['!'];
            assert(spec_lex(s) matches Result::Ok(ts) && ts.len() == 2 && ts[0].kind
                == SpecTokenKind::Bang && ts[1].kind is Eof) by {
                reveal_with_fuel(crate::lexing::ws_skip, 2);
                reveal_with_fuel(crate::lexing::ident_end, 8);
                reveal_with_fuel(crate::lexing::spec_lex_from, 3);
            }
        },
        SpecTokenKind::BangEqual => {
            let s: Seq<char> = seq!['!', '='];
            assert(spec_lex(s) matches Result::Ok(ts) && ts.len() == 2 && ts[0].kind
                == SpecTokenKind::BangEqual && ts[1].kind is Eof) by {
                reveal_with_fuel(crate::lexing::ws_skip, 2);
                reveal_with_fuel(crate::lexing::ident_end, 8);
                reveal_with_fuel(crate::lexing::spec_lex_from, 3);
            }
        },
        SpecTokenKind::Equal => {
            let s: Seq<char> = seq!['='];
            assert(spec_lex(s) matches Result::Ok(ts) && ts.len() == 2 && ts[0].kind
                == SpecTokenKind::Equal && ts[1].kind is Eof) by {
                reveal_with_fuel(crate::lexing::ws_skip, 2);
                reveal_with_fuel(crate::lexing::ident_end, 8);
                reveal_with_fuel(crate::lexing::spec_lex_from, 3);
            }
        },
        SpecTokenKind::EqualEqual => {
            let s: Seq<char> = seq!['=', '='];
            assert(spec_lex(s) matches Result::Ok(ts) && ts.len() == 2 && ts[0].kind
                == SpecTokenKind::EqualEqual && ts[1].kind is Eof) by {
                reveal_with_fuel(crate::lexing::ws_skip, 2);
                reveal_with_fuel(crate::lexing::ident_end, 8);
                reveal_with_fuel(crate::lexing::spec_lex_from, 3);
            }
        },
        SpecTokenKind::Greater => {
            let s: Seq<char> = seq!['>'];
            assert(spec_lex(s) matches Result::Ok(ts) && ts.len() == 2 && ts[0].kind
                == SpecTokenKind::Greater && ts[1].kind is Eof) by {
                reveal_with_fuel(crate::lexing::ws_skip, 2);
                reveal_with_fuel(crate::lexing::ident_end, 8);
                reveal_with_fuel(crate::lexing::spec_lex_from, 3);
            }
        },
        SpecTokenKind::GreaterEqual => {
            let s: Seq<char> = seq!['>', '='];
            assert(spec_lex(s) matches Result::Ok(ts) && ts.len() == 2 && ts[0].kind
                == SpecTokenKind::GreaterEqual && ts[1].kind is Eof) by {
                reveal_with_fuel(crate::lexing::ws_skip, 2);
                reveal_with_fuel(crate::lexing::ident_end, 8);
                reveal_with_fuel(crate::lexing::spec_lex_from, 3);
            }
        },
        SpecTokenKind::Less => {
            let s: Seq<char> = seq!['<'];
            assert(spec_lex(s) matches Result::Ok(ts) && ts.len() == 2 && ts[0].kind
                == SpecTokenKind::Less && ts[1].kind is Eof) by {
                reveal_with_fuel(crate::lexing::ws_skip, 2);
                reveal_with_fuel(crate::lexing::ident_end, 8);
                reveal_with_fuel(crate::lexing::spec_lex_from, 3);
            }
        },
        SpecTokenKind::LessEqual => {
            let s: Seq<char> = seq!['<', '='];
            assert(spec_lex(s) matches Result::Ok(ts) && ts.len() == 2 && ts[0].kind
                == SpecTokenKind::LessEqual && ts[1].kind is Eof) by {
                reveal_with_fuel(crate::lexing::ws_skip, 2);
                reveal_with_fuel(crate::lexing::ident_end, 8);
                reveal_with_fuel(crate::lexing::spec_lex_from, 3);
            }
        },
        _ => {
        },
    }
}

#[verifier::rlimit(100)]
#[verifier::spinoff_prover]
proof fn lemma_round_trip_keywords_a(k: SpecTokenKind)
    requires
        k is And || k is Class || k is Else || k is Fn || k is For || k is Nil || k is If,
    ensures
        spec_lex(render_kind(k).unwrap()) matches Result::Ok(ts) && ts.len() == 2 && ts[0].kind
            == k && ts[1].kind is Eof,
{
    match k {
        SpecTokenKind::And => {
            let s: Seq<char> = seq!['a', 'n', 'd'];
            assert(s.subrange(0, 3) =~= s);
            assert(spec_lex(s) matches Result::Ok(ts) && ts.len() == 2 && ts[0].kind
                == SpecTokenKind::And && ts[1].kind is Eof) by {
                reveal_with_fuel(crate::lexing::ws_skip, 2);
                reveal_with_fuel(crate::lexing::ident_end, 8);
                reveal_with_fuel(crate::lexing::spec_lex_from, 3);
            }
        },
        SpecTokenKind::Class => {
            let s: Seq<char> = seq!['c', 'l', 'a', 's', 's'];
            assert(s.subrange(0, 5) =~= s);
            assert(spec_lex(s) matches Result::Ok(ts) && ts.len() == 2 && ts[0].kind
                == SpecTokenKind::Class && ts[1].kind is Eof) by {
                reveal_with_fuel(crate::lexing::ws_skip, 2);
                reveal_with_fuel(crate::lexing::ident_end, 8);
                reveal_with_fuel(crate::lexing::spec_lex_from, 3);
            }
        },
        SpecTokenKind::Else => {
            let s: Seq<char> = seq!['e', 'l', 's', 'e'];
            assert(s.subrange(0, 4) =~= s);
            assert(spec_lex(s) matches Result::Ok(ts) && ts.len() == 2 && ts[0].kind
                == SpecTokenKind::Else && ts[1].kind is Eof) by {
                reveal_with_fuel(crate::lexing::ws_skip, 2);
                reveal_with_fuel(crate::lexing::ident_end, 8);
                reveal_with_fuel(crate::lexing::spec_lex_from, 3);
            }
        },
        SpecTokenKind::Fn => {
            let s: Seq<char> = seq!['f', 'n'];
            assert(s.subrange(0, 2) =~= s);
            assert(spec_lex(s) matches Result::Ok(ts) && ts.len() == 2 && ts[0].kind
                == SpecTokenKind::Fn && ts[1].kind is Eof) by {
                reveal_with_fuel(crate::lexing::ws_skip, 2);
                reveal_with_fuel(crate::lexing::ident_end, 8);
                reveal_with_fuel(crate::lexing::spec_lex_from, 3);
            }
        },
        SpecTokenKind::For => {
            let s: Seq<char> = seq!['f', 'o', 'r'];
            assert(s.subrange(0, 3) =~= s);
            assert(spec_lex(s) matches Result::Ok(ts) && ts.len() == 2 && ts[0].kind
                == SpecTokenKind::For && ts[1].kind is Eof) by {
                reveal_with_fuel(crate::lexing::ws_skip, 2);
                reveal_with_fuel(crate::lexing::ident_end, 8);
                reveal_with_fuel(crate::lexing::spec_lex_from, 3);
            }
        },
        SpecTokenKind::Nil => {
            let s: Seq<char> = seq!['n', 'i', 'l'];
            assert(s.subrange(0, 3) =~= s);
            assert(spec_lex(s) matches Result::Ok(ts) && ts.len() == 2 && ts[0].kind
                == SpecTokenKind::Nil && ts[1].kind is Eof) by {
                reveal_with_fuel(crate::lexing::ws_skip, 2);
                reveal_with_fuel(crate::lexing::ident_end, 8);
                reveal_with_fuel(crate::lexing::spec_lex_from, 3);
            }
        },
        SpecTokenKind::If => {
            let s: Seq<char> = seq!['i', 'f'];
            assert(s.subrange(0, 2) =~= s);
            assert(spec_lex(s) matches Result::Ok(ts) && ts.len() == 2 && ts[0].kind
                == SpecTokenKind::If && ts[1].kind is Eof) by {
                reveal_with_fuel(crate::lexing::ws_skip, 2);
                reveal_with_fuel(crate::lexing::ident_end, 8);
                reveal_with_fuel(crate::lexing::spec_lex_from, 3);
            }
        },
        _ => {
        },
    }
}

#[verifier::rlimit(100)]
#[verifier::spinoff_prover]
proof fn lemma_round_trip_kw_print(k: SpecTokenKind)
    requires
        k is Print,
    ensures
        spec_lex(render_kind(k).unwrap()) matches Result::Ok(ts) && ts.len() == 2 && ts[0].kind
            == k && ts[1].kind is Eof,
{
    match k {
        SpecTokenKind::Print => {
            let s: Seq<char> = seq!['p', 'r', 'i', 'n', 't'];
            assert(s.subrange(0, 5) =~= s);
            assert(spec_lex(s) matches Result::Ok(ts) && ts.len() == 2 && ts[0].kind
                == SpecTokenKind::Print && ts[1].kind is Eof) by {
                reveal_with_fuel(crate::lexing::ws_skip, 2);
                reveal_with_fuel(crate::lexing::ident_end, 8);
                reveal_with_fuel(crate::lexing::spec_lex_from, 3);
            }
        },
        _ => {
        },
    }
}

#[verifier::rlimit(100)]
#[verifier::spinoff_prover]
proof fn lemma_round_trip_kw_or(k: SpecTokenKind)
    requires
        k is Or,
    ensures
        spec_lex(render_kind(k).unwrap()) matches Result::Ok(ts) && ts.len() == 2 && ts[0].kind
            == k && ts[1].kind is Eof,
{
    match k {
        SpecTokenKind::Or => {
            let s: Seq<char> = seq!['o', 'r'];
            assert(s.subrange(0, 2) =~= s);
            assert(spec_lex(s) matches Result::Ok(ts) && ts.len() == 2 && ts[0].kind
                == SpecTokenKind::Or && ts[1].kind is Eof) by {
                reveal_with_fuel(crate::lexing::ws_skip, 2);
                reveal_with_fuel(crate::lexing::ident_end, 8);
                reveal_with_fuel(crate::lexing::spec_lex_from, 3);
            }
        },
        _ => {
        },
    }
}

#[verifier::rlimit(100)]
#[verifier::spinoff_prover]
proof fn lemma_round_trip_kw_return(k: SpecTokenKind)
    requires
        k is Return,
    ensures
        spec_lex(render_kind(k).unwrap()) matches Result::Ok(ts) && ts.len() == 2 && ts[0].kind
            == k && ts[1].kind is Eof,
{
    match k {
        SpecTokenKind::Return => {
            let s: Seq<char> = seq!['r', 'e', 't', 'u', 'r', 'n'];
            assert(s.subrange(0, 6) =~= s);
            assert(spec_lex(s) matches Result::Ok(ts) && ts.len() == 2 && ts[0].kind
                == SpecTokenKind::Return && ts[1].kind is Eof) by {
                reveal_with_fuel(crate::lexing::ws_skip, 2);
                reveal_with_fuel(crate::lexing::ident_end, 8);
                reveal_with_fuel(crate::lexing::spec_lex_from, 3);
            }
        },
        _ => {
        },
    }
}

#[verifier::rlimit(100)]
#[verifier::spinoff_prover]
proof fn lemma_round_trip_kw_super(k: SpecTokenKind)
    requires
        k is Super,
    ensures
        spec_lex(render_kind(k).unwrap()) matches Result::Ok(ts) && ts.len() == 2 && ts[0].kind
            == k && ts[1].kind is Eof,
{
    match k {
        SpecTokenKind::Super => {
            let s: Seq<char> = seq!['s', 'u', 'p', 'e', 'r'];
            assert(s.subrange(0, 5) =~= s);
            assert(spec_lex(s) matches Result::Ok(ts) && ts.len() == 2 && ts[0].kind
                == SpecTokenKind::Super && ts[1].kind is Eof) by {
                reveal_with_fuel(crate::lexing::ws_skip, 2);
                reveal_with_fuel(crate::lexing::ident_end, 8);
                reveal_with_fuel(crate::lexing::spec_lex_from, 3);
            }
        },
        _ => {
        },
    }
}

#[verifier::rlimit(100)]
#[verifier::spinoff_prover]
proof fn lemma_round_trip_kw_this(k: SpecTokenKind)
    requires
        k is This,
    ensures
        spec_lex(render_kind(k).unwrap()) matches Result::Ok(ts) && ts.len() == 2 && ts[0].kind
            == k && ts[1].kind is Eof,
{
    match k {
        SpecTokenKind::This => {
            let s: Seq<char> = seq!['t', 'h', 'i', 's'];
            assert(s.subrange(0, 4) =~= s);
            assert(spec_lex(s) matches Result::Ok(ts) && ts.len() == 2 && ts[0].kind
                == SpecTokenKind::This && ts[1].kind is Eof) by {
                reveal_with_fuel(crate::lexing::ws_skip, 2);
                reveal_with_fuel(crate::lexing::ident_end, 8);
                reveal_with_fuel(crate::lexing::spec_lex_from, 3);
            }
        },
        _ => {
        },
    }
}

#[verifier::rlimit(100)]
#[verifier::spinoff_prover]
proof fn lemma_round_trip_kw_let(k: SpecTokenKind)
    requires
        k is Let,
    ensures
        spec_lex(render_kind(k).unwrap()) matches Result::Ok(ts) && ts.len() == 2 && ts[0].kind
            == k && ts[1].kind is Eof,
{
    match k {
        SpecTokenKind::Let => {
            let s: Seq<char> = seq!['l', 'e', 't'];
            assert(s.subrange(0, 3) =~= s);
            assert(spec_lex(s) matches Result::Ok(ts) && ts.len() == 2 && ts[0].kind
                == SpecTokenKind::Let && ts[1].kind is Eof) by {
                reveal_with_fuel(crate::lexing::ws_skip, 2);
                reveal_with_fuel(crate::lexing::ident_end, 8);
                reveal_with_fuel(crate::lexing::spec_lex_from, 3);
            }
        },
        _ => {
        },
    }
}

#[verifier::rlimit(100)]
#[verifier::spinoff_prover]
proof fn lemma_round_trip_kw_while(k: SpecTokenKind)
    requires
        k is While,
    ensures
        spec_lex(render_kind(k).unwrap()) matches Result::Ok(ts) && ts.len() == 2 && ts[0].kind
            == k && ts[1].kind is Eof,
{
    match k {
        SpecTokenKind::While => {
            let s: Seq<char> = seq!['w', 'h', 'i', 'l', 'e'];
            assert(s.subrange(0, 5) =~= s);
            assert(spec_lex(s) matches Result::Ok(ts) && ts.len() == 2 && ts[0].kind
                == SpecTokenKind::While && ts[1].kind is Eof) by {
                reveal_with_fuel(crate::lexing::ws_skip, 2);
                reveal_with_fuel(crate::lexing::ident_end, 8);
                reveal_with_fuel(crate::lexing::spec_lex_from, 3);
            }
        },
        _ => {
        },
    }
}

/// Round-trip idempotence for every token kind with a canonical source form:
/// lexing the rendered text reproduces exactly that token kind, followed by
/// the end-of-input token.
pub proof fn lemma_render_round_trip(k: SpecTokenKind)
    requires
        render_kind(k) is Some,
    ensures
        spec_lex(render_kind(k).unwrap()) matches Result::Ok(ts) && ts.len() == 2 && ts[0].kind
            == k && ts[1].kind is Eof,
{
    if k is LeftParen || k is RightParen || k is LeftBrace || k is RightBrace || k is Comma || k is Dot || k is Minus || k is Plus || k is Semicolon {
        lemma_round_trip_punctuation(k);
    }
    if k is Slash || k is Star || k is Bang || k is BangEqual || k is Equal || k is EqualEqual || k is Greater || k is GreaterEqual || k is Less || k is LessEqual {
        lemma_round_trip_operators(k);
    }
    if k is And || k is Class || k is Else || k is Fn || k is For || k is Nil || k is If {
        lemma_round_trip_keywords_a(k);
    }
    if k is Print {
        lemma_round_trip_kw_print(k);
    }
    if k is Or {
        lemma_round_trip_kw_or(k);
    }
    if k is Return {
        lemma_round_trip_kw_return(k);
    }
    if k is Super {
        lemma_round_trip_kw_super(k);
    }
    if k is This {
        lemma_round_trip_kw_this(k);
    }
    if k is Let {
        lemma_round_trip_kw_let(k);
    }
    if k is While {
        lemma_round_trip_kw_while(k);
    }
}

/// The canonical source text of a token kind, where one is defined: the
/// executable face of `render_kind`.
pub fn render_token_kind(k: &TokenKind) -> (r: Option<String>)
    ensures
        match r {
            Option::Some(s) => render_kind(k@) == Option::Some(s@),
            Option::None => render_kind(k@) is None,
        },
{
    proof {
        reveal_strlit("(");
        reveal_strlit(")");
        reveal_strlit("{");
        reveal_strlit("}");
        reveal_strlit(",");
        reveal_strlit(".");
        reveal_strlit("-");
        reveal_strlit("+");
        reveal_strlit(";");
        reveal_strlit("/");
        reveal_strlit("*");
        reveal_strlit("!");
        reveal_strlit("!=");
        reveal_strlit("=");
        reveal_strlit("==");
        reveal_strlit(">");
        reveal_strlit(">=");
        reveal_strlit("<");
        reveal_strlit("<=");
        reveal_strlit("and");
        reveal_strlit("class");
        reveal_strlit("else");
        reveal_strlit("fn");
        reveal_strlit("for");
        reveal_strlit("nil");
        reveal_strlit("if");
        reveal_strlit("print");
        reveal_strlit("or");
        reveal_strlit("return");
        reveal_strlit("super");
        reveal_strlit("this");
        reveal_strlit("let");
        reveal_strlit("while");
        assert("("@ =~= seq!['(']);
        assert(")"@ =~= seq![')']);
        assert("{"@ =~= seq!['{']);
        assert("}"@ =~= seq!['}']);
        assert(","@ =~= seq![',']);
        assert("."@ =~= seq!['.']);
        assert("-"@ =~= seq!['-']);
        assert("+"@ =~= seq!['+']);
        assert(";"@ =~= seq![';']);
        assert("/"@ =~= seq!['/']);
        assert("*"@ =~= seq!['*']);
        assert("!"@ =~= seq!['!']);
        assert("!="@ =~= seq!['!', '=']);
        assert("="@ =~= seq!['=']);
        assert("=="@ =~= seq!['=', '=']);
        assert(">"@ =~= seq!['>']);
        assert(">="@ =~= seq!['>', '=']);
        assert("<"@ =~= seq!['<']);
        assert("<="@ =~= seq!['<', '=']);
        assert("and"@ =~= seq!['a', 'n', 'd']);
        assert("class"@ =~= seq!['c', 'l', 'a', 's', 's']);
        assert("else"@ =~= seq!['e', 'l', 's', 'e']);
        assert("fn"@ =~= seq!['f', 'n']);
        assert("for"@ =~= seq!['f', 'o', 'r']);
        assert("nil"@ =~= seq!['n', 'i', 'l']);
        assert("if"@ =~= seq!['i', 'f']);
        assert("print"@ =~= seq!['p', 'r', 'i', 'n', 't']);
        assert("or"@ =~= seq!['o', 'r']);
        assert("return"@ =~= seq!['r', 'e', 't', 'u', 'r', 'n']);
        assert("super"@ =~= seq!['s', 'u', 'p', 'e', 'r']);
        assert("this"@ =~= seq!['t', 'h', 'i', 's']);
        assert("let"@ =~= seq!['l', 'e', 't']);
        assert("while"@ =~= seq!['w', 'h', 'i', 'l', 'e']);
    }
    match k {
        TokenKind::LeftParen => Option::Some(String::from_str("(")),
        TokenKind::RightParen => Option::Some(String::from_str(")")),
        TokenKind::LeftBrace => Option::Some(String::from_str("{")),
        TokenKind::RightBrace => Option::Some(String::from_str("}")),
        TokenKind::Comma => Option::Some(String::from_str(",")),
        TokenKind::Dot => Option::Some(String::from_str(".")),
        TokenKind::Minus => Option::Some(String::from_str("-")),
        TokenKind::Plus => Option::Some(String::from_str("+")),
        TokenKind::Semicolon => Option::Some(String::from_str(";")),
        TokenKind::Slash => Option::Some(String::from_str("/")),
        TokenKind::Star => Option::Some(String::from_str("*")),
        TokenKind::Bang => Option::Some(String::from_str("!")),
        TokenKind::BangEqual => Option::Some(String::from_str("!=")),
        TokenKind::Equal => Option::Some(String::from_str("=")),
        TokenKind::EqualEqual => Option::Some(String::from_str("==")),
        TokenKind::Greater => Option::Some(String::from_str(">")),
        TokenKind::GreaterEqual => Option::Some(String::from_str(">=")),
        TokenKind::Less => Option::Some(String::from_str("<")),
        TokenKind::LessEqual => Option::Some(String::from_str("<=")),
        TokenKind::And => Option::Some(String::from_str("and")),
        TokenKind::Class => Option::Some(String::from_str("class")),
        TokenKind::Else => Option::Some(String::from_str("else")),
        TokenKind::Fn => Option::Some(String::from_str("fn")),
        TokenKind::For => Option::Some(String::from_str("for")),
        TokenKind::Nil => Option::Some(String::from_str("nil")),
        TokenKind::If => Option::Some(String::from_str("if")),
        TokenKind::Print => Option::Some(String::from_str("print")),
        TokenKind::Or => Option::Some(String::from_str("or")),
        TokenKind::Return => Option::Some(String::from_str("return")),
        TokenKind::Super => Option::Some(String::from_str("super")),
        TokenKind::This => Option::Some(String::from_str("this")),
        TokenKind::Let => Option::Some(String::from_str("let")),
        TokenKind::While => Option::Some(String::from_str("while")),
        _ => Option::None,
    }
}

} // verus!
