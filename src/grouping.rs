//! Reading rendered expressions back by the precedence table.
//!
//! The text of an expression is a sequence of tokens: operands that need no grouping (a
//! literal, a column, a call), prefix and infix operators, and parentheses. This module reads
//! such a sequence back with the precedence table alone, by precedence climbing, and proves
//! that reading the tokens of any expression gives the expression back: the parentheses that
//! rendering puts are enough to keep every grouping.
use vstd::prelude::*;
use crate::expr::{
    atom_prec, binary_prec, binary_token, expr_text, left_needs_parens,
    operand_needs_parens, right_needs_parens, unary_prec, unary_token, wrap, BinaryOp, Expr,
    UnaryOp,
};

verus! {

/// One token of a rendered expression.
pub enum Token {
    /// An operand read as a whole: a literal, a column or a call.
    Leaf(Expr),
    Prefix(UnaryOp),
    Infix(BinaryOp),
    Open,
    Close,
}

/// `ts`, between an opening and a closing parenthesis where `paren` holds.
pub open spec fn paren_tokens(ts: Seq<Token>, paren: bool) -> Seq<Token> {
    if paren {
        seq![Token::Open] + ts + seq![Token::Close]
    } else {
        ts
    }
}

/// The tokens of the rendered text of `e`, grouped as rendering groups them.
pub open spec fn tokens(e: Expr) -> Seq<Token>
    decreases e,
{
    match e {
        Expr::Unary(op, x) => seq![Token::Prefix(op)] + paren_tokens(
            tokens(*x),
            operand_needs_parens(op, *x),
        ),
        Expr::Binary(op, l, r) => paren_tokens(tokens(*l), left_needs_parens(op, *l)) + seq![
            Token::Infix(op),
        ] + paren_tokens(tokens(*r), right_needs_parens(op, *r)),
        _ => seq![Token::Leaf(e)],
    }
}

/// The text of one token.
pub open spec fn token_text(t: Token) -> Seq<char> {
    match t {
        Token::Leaf(e) => expr_text(e),
        Token::Prefix(op) => unary_token(op),
        Token::Infix(op) => seq![' '] + binary_token(op) + seq![' '],
        Token::Open => seq!['('],
        Token::Close => seq![')'],
    }
}

/// The text of a token sequence.
pub open spec fn spell(ts: Seq<Token>) -> Seq<char>
    decreases ts.len(),
{
    if ts.len() == 0 {
        Seq::empty()
    } else {
        token_text(ts[0]) + spell(ts.drop_first())
    }
}

/// The least binding power of the operand of a prefix operator: `NOT` takes any expression
/// down to its own level, `-` only an operand read as a whole or a group.
pub open spec fn operand_min(op: UnaryOp) -> nat {
    match op {
        UnaryOp::Not => unary_prec(op),
        UnaryOp::Neg => atom_prec(),
    }
}

/// Reads one expression from the front of `ts`, taking infix operators that bind at least
/// as tightly as `min`; gives the expression and the tokens left.
pub open spec fn parse_expr(ts: Seq<Token>, min: nat) -> Option<(Expr, Seq<Token>)>
    decreases ts.len(), 2nat,
{
    match parse_operand(ts) {
        Some((lhs, rest)) => if rest.len() < ts.len() {
            climb(lhs, rest, min)
        } else {
            None
        },
        None => None,
    }
}

/// Reads one operand: an operand token, a prefix operator and its operand, or a group.
pub open spec fn parse_operand(ts: Seq<Token>) -> Option<(Expr, Seq<Token>)>
    decreases ts.len(), 1nat,
{
    if ts.len() == 0 {
        None
    } else {
        match ts[0] {
            Token::Leaf(e) => Some((e, ts.drop_first())),
            Token::Prefix(op) => match parse_expr(ts.drop_first(), operand_min(op)) {
                Some((x, rest)) => Some((Expr::Unary(op, Box::new(x)), rest)),
                None => None,
            },
            Token::Open => match parse_expr(ts.drop_first(), 0) {
                Some((x, rest)) => if rest.len() > 0 && rest[0] == Token::Close {
                    Some((x, rest.drop_first()))
                } else {
                    None
                },
                None => None,
            },
            _ => None,
        }
    }
}

/// Extends `lhs` to the right while the next infix operator binds at least as tightly as
/// `min`; the right operand of each takes only operators that bind more tightly.
pub open spec fn climb(lhs: Expr, ts: Seq<Token>, min: nat) -> Option<(Expr, Seq<Token>)>
    decreases ts.len(), 0nat,
{
    if ts.len() > 0 && ts[0] is Infix && binary_prec(ts[0]->Infix_0) >= min {
        let op = ts[0]->Infix_0;
        match parse_expr(ts.drop_first(), binary_prec(op) + 1) {
            Some((rhs, rest)) => if rest.len() < ts.len() {
                climb(Expr::Binary(op, Box::new(lhs), Box::new(rhs)), rest, min)
            } else {
                None
            },
            None => None,
        }
    } else {
        Some((lhs, ts))
    }
}

/// The next token, if it is an infix operator, binds less tightly than `bound`.
pub open spec fn stops(ts: Seq<Token>, bound: nat) -> bool {
    ts.len() == 0 || !(ts[0] is Infix) || binary_prec(ts[0]->Infix_0) < bound
}

/// An infix operator that, following `e` unparenthesised, would take part of `e` as its
/// left operand binds at least this tightly.
pub open spec fn top_bound(e: Expr) -> nat {
    match e {
        Expr::Binary(op, _, _) => binary_prec(op) + 1,
        Expr::Unary(UnaryOp::Not, _) => unary_prec(UnaryOp::Not),
        _ => atom_prec() + 1,
    }
}

/// `e` may be read at level `min`: its top operator, if infix, binds at least that tightly.
pub open spec fn binds_at(e: Expr, min: nat) -> bool {
    match e {
        Expr::Binary(op, _, _) => binary_prec(op) >= min,
        _ => true,
    }
}

proof fn lemma_spell_one(t: Token)
    ensures
        spell(seq![t]) == token_text(t),
{
    let s = seq![t];
    assert(s.drop_first() =~= Seq::<Token>::empty());
    assert(spell(s.drop_first()) == Seq::<char>::empty());
    assert(s[0] == t);
    assert(token_text(t) + Seq::<char>::empty() =~= token_text(t));
}

proof fn lemma_spell_concat(a: Seq<Token>, b: Seq<Token>)
    ensures
        spell(a + b) == spell(a) + spell(b),
    decreases a.len(),
{
    if a.len() == 0 {
        assert(a + b =~= b);
    } else {
        assert((a + b).drop_first() =~= a.drop_first() + b);
        lemma_spell_concat(a.drop_first(), b);
    }
}

proof fn lemma_spell_paren(ts: Seq<Token>, paren: bool)
    ensures
        spell(paren_tokens(ts, paren)) == wrap(spell(ts), paren),
{
    if paren {
        lemma_spell_concat(seq![Token::Open], ts + seq![Token::Close]);
        lemma_spell_concat(ts, seq![Token::Close]);
        assert(seq![Token::Open] + ts + seq![Token::Close] =~= seq![Token::Open] + (ts + seq![
            Token::Close,
        ]));
        lemma_spell_one(Token::Open);
        lemma_spell_one(Token::Close);
        assert(wrap(spell(ts), paren) =~= seq!['('] + (spell(ts) + seq![')']));
    }
}

/// The tokens of `e` spell exactly its rendered text.
pub proof fn lemma_spell_tokens(e: Expr)
    ensures
        spell(tokens(e)) == expr_text(e),
    decreases e,
{
    match e {
        Expr::Unary(op, x) => {
            let p = operand_needs_parens(op, *x);
            lemma_spell_tokens(*x);
            lemma_spell_paren(tokens(*x), p);
            lemma_spell_concat(seq![Token::Prefix(op)], paren_tokens(tokens(*x), p));
            lemma_spell_one(Token::Prefix(op));
        },
        Expr::Binary(op, l, r) => {
            let lt = paren_tokens(tokens(*l), left_needs_parens(op, *l));
            let rt = paren_tokens(tokens(*r), right_needs_parens(op, *r));
            let mid = seq![Token::Infix(op)];
            lemma_spell_tokens(*l);
            lemma_spell_tokens(*r);
            lemma_spell_paren(tokens(*l), left_needs_parens(op, *l));
            lemma_spell_paren(tokens(*r), right_needs_parens(op, *r));
            lemma_spell_concat(lt + mid, rt);
            lemma_spell_concat(lt, mid);
            lemma_spell_one(Token::Infix(op));
            assert(expr_text(e) =~= spell(lt) + spell(mid) + spell(rt));
        },
        _ => {
            lemma_spell_one(Token::Leaf(e));
        },
    }
}

proof fn lemma_climb_stops(lhs: Expr, ts: Seq<Token>, min: nat)
    requires
        stops(ts, min),
    ensures
        climb(lhs, ts, min) == Some((lhs, ts)),
{
}

/// Reading a part of a rendered expression, grouped or not, gives that part and goes on
/// with what follows it.
proof fn lemma_parse_part(x: Expr, paren: bool, rest: Seq<Token>, min: nat)
    requires
        paren || (binds_at(x, min) && stops(rest, top_bound(x))),
    ensures
        parse_expr(paren_tokens(tokens(x), paren) + rest, min) == climb(x, rest, min),
    decreases x, 1nat,
{
    if paren {
        let closed = seq![Token::Close] + rest;
        lemma_parse_tokens(x, closed, 0);
        lemma_climb_stops(x, closed, 0);
        let ts = paren_tokens(tokens(x), true) + rest;
        assert(ts =~= seq![Token::Open] + (tokens(x) + closed));
        assert(ts.drop_first() =~= tokens(x) + closed);
        assert(closed.drop_first() =~= rest);
        assert(parse_operand(ts) == Some((x, rest)));
    } else {
        lemma_parse_tokens(x, rest, min);
    }
}

/// Reading the tokens of `e` followed by `rest` gives `e`, then goes on with `rest`, as long
/// as `e` may stand at level `min` and what follows does not bind more tightly than `e`.
proof fn lemma_parse_tokens(e: Expr, rest: Seq<Token>, min: nat)
    requires
        binds_at(e, min),
        stops(rest, top_bound(e)),
    ensures
        parse_expr(tokens(e) + rest, min) == climb(e, rest, min),
    decreases e, 0nat,
{
    match e {
        Expr::Unary(op, x) => {
            let p = operand_needs_parens(op, *x);
            let m = operand_min(op);
            let ts = tokens(e) + rest;
            assert(ts =~= seq![Token::Prefix(op)] + (paren_tokens(tokens(*x), p) + rest));
            assert(ts.drop_first() =~= paren_tokens(tokens(*x), p) + rest);
            lemma_parse_part(*x, p, rest, m);
            lemma_climb_stops(*x, rest, m);
            assert(parse_operand(ts) == Some((e, rest)));
        },
        Expr::Binary(op, l, r) => {
            let lp = left_needs_parens(op, *l);
            let rp = right_needs_parens(op, *r);
            let lt = paren_tokens(tokens(*l), lp);
            let rt = paren_tokens(tokens(*r), rp);
            let rest1 = seq![Token::Infix(op)] + rt + rest;
            assert(tokens(e) + rest =~= lt + rest1);
            lemma_parse_part(*l, lp, rest1, min);
            assert(rest1.drop_first() =~= rt + rest);
            lemma_parse_part(*r, rp, rest, binary_prec(op) + 1);
            lemma_climb_stops(*r, rest, binary_prec(op) + 1);
            assert(climb(*l, rest1, min) == climb(e, rest, min));
        },
        _ => {
            let ts = tokens(e) + rest;
            assert(ts =~= seq![Token::Leaf(e)] + rest);
            assert(ts.drop_first() =~= rest);
        },
    }
}

/// Rendering keeps every grouping. The rendered text of `e` is spelled by its tokens, and
/// reading those tokens back by the precedence table alone, with no knowledge of how they
/// were produced, gives `e` itself and consumes all of them.
pub proof fn lemma_round_trip(e: Expr)
    ensures
        spell(tokens(e)) == expr_text(e),
        parse_expr(tokens(e), 0) == Some((e, Seq::<Token>::empty())),
{
    lemma_spell_tokens(e);
    lemma_parse_tokens(e, Seq::empty(), 0);
    assert(tokens(e) + Seq::<Token>::empty() =~= tokens(e));
}

} // verus!
