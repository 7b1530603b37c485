//! The expression tree and its precedence-aware rendering.
use vstd::prelude::*;
use crate::item::{ColumnRef, Ident};
use crate::render::{join, Render};
use crate::stmt::select::{render_select, select_text, Select};
use crate::value::{value_text, Value};

verus! {

broadcast use vstd::std_specs::vec::group_vec_axioms;

/// A prefix operator.
#[derive(Clone, Copy, Debug, PartialEq, Eq)]
pub enum UnaryOp {
    Not,
    Neg,
}

/// An infix operator.
#[derive(Clone, Copy, Debug, PartialEq, Eq)]
pub enum BinaryOp {
    Or,
    And,
    Is,
    IsNot,
    Eq,
    Ne,
    Lt,
    Le,
    Gt,
    Ge,
    Like,
    NotLike,
    Concat,
    Add,
    Sub,
    Mul,
    Div,
    Rem,
}

/// A SQL scalar or boolean expression.
#[derive(Debug, PartialEq, Eq)]
pub enum Expr {
    Literal(Value),
    Column(ColumnRef),
    Unary(UnaryOp, Box<Expr>),
    Binary(BinaryOp, Box<Expr>, Box<Expr>),
    /// A function call: the function's name, then its arguments.
    Call(Ident, Vec<Expr>),
    /// A statement used as a value, written between parentheses.
    Subquery(Box<Select>),
}

/// `a AND b`
pub open spec fn conj(a: Expr, b: Expr) -> Expr {
    Expr::Binary(BinaryOp::And, Box::new(a), Box::new(b))
}

/// The predicate after one more condition is added: the condition alone at first, then the
/// conjunction of what stood before and the new condition, in call order.
pub open spec fn and_merged(prev: Option<Expr>, e: Expr) -> Expr {
    match prev {
        Some(p) => conj(p, e),
        None => e,
    }
}

/// The binding power of literals, columns and calls: nothing binds tighter.
pub open spec fn atom_prec() -> nat {
    11
}

/// The binding power of each prefix operator.
pub open spec fn unary_prec(op: UnaryOp) -> nat {
    match op {
        UnaryOp::Not => 3,
        UnaryOp::Neg => 10,
    }
}

/// The binding power of each infix operator, higher binding tighter.
pub open spec fn binary_prec(op: BinaryOp) -> nat {
    match op {
        BinaryOp::Or => 1,
        BinaryOp::And => 2,
        BinaryOp::Is | BinaryOp::IsNot => 4,
        BinaryOp::Eq | BinaryOp::Ne | BinaryOp::Lt | BinaryOp::Le | BinaryOp::Gt | BinaryOp::Ge => 5,
        BinaryOp::Like | BinaryOp::NotLike => 6,
        BinaryOp::Concat => 7,
        BinaryOp::Add | BinaryOp::Sub => 8,
        BinaryOp::Mul | BinaryOp::Div | BinaryOp::Rem => 9,
    }
}

/// Whether a chain of operators of this level groups from the left without parentheses.
/// Comparisons, `IS` and `LIKE` do not chain.
pub open spec fn left_assoc(op: BinaryOp) -> bool {
    match op {
        BinaryOp::Or | BinaryOp::And | BinaryOp::Concat | BinaryOp::Add | BinaryOp::Sub
        | BinaryOp::Mul | BinaryOp::Div | BinaryOp::Rem => true,
        _ => false,
    }
}

/// `AND` and `OR`.
pub open spec fn is_logic(op: BinaryOp) -> bool {
    op == BinaryOp::And || op == BinaryOp::Or
}

/// The binding power of the top of `e`. A negative number reads as a negation.
pub open spec fn expr_prec(e: Expr) -> nat {
    match e {
        Expr::Literal(Value::Int(n)) => if n < 0 { unary_prec(UnaryOp::Neg) } else { atom_prec() },
        Expr::Unary(op, _) => unary_prec(op),
        Expr::Binary(op, _, _) => binary_prec(op),
        _ => atom_prec(),
    }
}

/// Whether `child` is an `AND` under an `OR` or the other way round: these are always
/// grouped explicitly.
pub open spec fn mixes_logic(op: BinaryOp, child: Expr) -> bool {
    match child {
        Expr::Binary(c, _, _) => is_logic(op) && is_logic(c) && c != op,
        _ => false,
    }
}

/// Whether `child`, as the left operand of `op`, needs parentheses.
pub open spec fn left_needs_parens(op: BinaryOp, child: Expr) -> bool {
    expr_prec(child) < binary_prec(op)
        || (expr_prec(child) == binary_prec(op) && !left_assoc(op))
        || mixes_logic(op, child)
}

/// Whether `child`, as the right operand of `op`, needs parentheses.
pub open spec fn right_needs_parens(op: BinaryOp, child: Expr) -> bool {
    expr_prec(child) <= binary_prec(op) || mixes_logic(op, child)
}

/// Whether `child`, as the operand of `op`, needs parentheses. A negation of a negation is
/// grouped so that no `--` (a comment in SQL) comes out.
pub open spec fn operand_needs_parens(op: UnaryOp, child: Expr) -> bool {
    match op {
        UnaryOp::Not => expr_prec(child) < unary_prec(op),
        UnaryOp::Neg => expr_prec(child) <= unary_prec(op),
    }
}

/// `s`, between parentheses where `paren` holds.
pub open spec fn wrap(s: Seq<char>, paren: bool) -> Seq<char> {
    if paren {
        seq!['('] + s + seq![')']
    } else {
        s
    }
}

/// The keyword of a prefix operator, with what follows it.
pub open spec fn unary_token(op: UnaryOp) -> Seq<char> {
    match op {
        UnaryOp::Not => "NOT "@,
        UnaryOp::Neg => "-"@,
    }
}

/// The symbol of an infix operator.
pub open spec fn binary_token(op: BinaryOp) -> Seq<char> {
    match op {
        BinaryOp::Or => "OR"@,
        BinaryOp::And => "AND"@,
        BinaryOp::Is => "IS"@,
        BinaryOp::IsNot => "IS NOT"@,
        BinaryOp::Eq => "="@,
        BinaryOp::Ne => "<>"@,
        BinaryOp::Lt => "<"@,
        BinaryOp::Le => "<="@,
        BinaryOp::Gt => ">"@,
        BinaryOp::Ge => ">="@,
        BinaryOp::Like => "LIKE"@,
        BinaryOp::NotLike => "NOT LIKE"@,
        BinaryOp::Concat => "||"@,
        BinaryOp::Add => "+"@,
        BinaryOp::Sub => "-"@,
        BinaryOp::Mul => "*"@,
        BinaryOp::Div => "/"@,
        BinaryOp::Rem => "%"@,
    }
}

/// The SQL text of an expression.
pub open spec fn expr_text(e: Expr) -> Seq<char>
    decreases e,
{
    match e {
        Expr::Literal(v) => value_text(v),
        Expr::Column(c) => c.text(),
        Expr::Unary(op, x) => unary_token(op) + wrap(expr_text(*x), operand_needs_parens(op, *x)),
        Expr::Binary(op, l, r) => wrap(expr_text(*l), left_needs_parens(op, *l)) + seq![' ']
            + binary_token(op) + seq![' '] + wrap(expr_text(*r), right_needs_parens(op, *r)),
        Expr::Call(name, args) => name.text() + seq!['('] + join(exprs_texts(args@), ", "@)
            + seq![')'],
        Expr::Subquery(q) => seq!['('] + select_text(*q) + seq![')'],
    }
}

/// Grouping follows the precedence table. An infix expression is written as its left
/// operand, the operator between single spaces, then its right operand; an operand is put
/// between parentheses exactly when it binds less tightly than the operator, or as tightly
/// on a side where reading without parentheses would regroup it (the right side, or either
/// side of an operator that does not chain), or when it is an `AND` under an `OR` or the
/// other way round. An operand that binds more tightly, such as a literal, a column or a
/// call, is never put between parentheses.
pub proof fn lemma_binary_grouping(op: BinaryOp, l: Expr, r: Expr)
    ensures
        expr_text(Expr::Binary(op, Box::new(l), Box::new(r))) == wrap(
            expr_text(l),
            left_needs_parens(op, l),
        ) + seq![' '] + binary_token(op) + seq![' '] + wrap(expr_text(r), right_needs_parens(op, r)),
        left_needs_parens(op, l) <==> (expr_prec(l) < binary_prec(op) || (expr_prec(l)
            == binary_prec(op) && !left_assoc(op)) || mixes_logic(op, l)),
        right_needs_parens(op, r) <==> (expr_prec(r) <= binary_prec(op) || mixes_logic(op, r)),
        expr_prec(l) > binary_prec(op) && !mixes_logic(op, l) ==> wrap(
            expr_text(l),
            left_needs_parens(op, l),
        ) == expr_text(l),
        expr_prec(r) > binary_prec(op) && !mixes_logic(op, r) ==> wrap(
            expr_text(r),
            right_needs_parens(op, r),
        ) == expr_text(r),
        expr_prec(l) < binary_prec(op) ==> wrap(expr_text(l), left_needs_parens(op, l)) == seq![
            '(',
        ] + expr_text(l) + seq![')'],
        expr_prec(r) <= binary_prec(op) ==> wrap(expr_text(r), right_needs_parens(op, r)) == seq![
            '(',
        ] + expr_text(r) + seq![')'],
{
}

/// A prefix operator puts its operand between parentheses exactly when the operand binds
/// less tightly (for `NOT`), or not more tightly (for `-`, so that no `--` comes out).
pub proof fn lemma_unary_grouping(op: UnaryOp, x: Expr)
    ensures
        expr_text(Expr::Unary(op, Box::new(x))) == unary_token(op) + wrap(
            expr_text(x),
            operand_needs_parens(op, x),
        ),
        op == UnaryOp::Not ==> (operand_needs_parens(op, x) <==> expr_prec(x) < unary_prec(op)),
        op == UnaryOp::Neg ==> (operand_needs_parens(op, x) <==> expr_prec(x) <= unary_prec(op)),
{
}

/// The texts of expressions, in order.
pub open spec fn exprs_texts(es: Seq<Expr>) -> Seq<Seq<char>>
    decreases es,
{
    if es.len() == 0 {
        Seq::empty()
    } else {
        exprs_texts(es.drop_last()).push(expr_text(es.last()))
    }
}

impl UnaryOp {
    /// The binding power of this operator.
    pub fn prec(&self) -> (r: u8)
        ensures
            r == unary_prec(*self),
    {
        match self {
            UnaryOp::Not => 3,
            UnaryOp::Neg => 10,
        }
    }

    fn token(&self) -> (r: &'static str)
        ensures
            r@ == unary_token(*self),
    {
        match self {
            UnaryOp::Not => "NOT ",
            UnaryOp::Neg => "-",
        }
    }
}

impl BinaryOp {
    /// The binding power of this operator.
    pub fn prec(&self) -> (r: u8)
        ensures
            r == binary_prec(*self),
    {
        match self {
            BinaryOp::Or => 1,
            BinaryOp::And => 2,
            BinaryOp::Is | BinaryOp::IsNot => 4,
            BinaryOp::Eq | BinaryOp::Ne | BinaryOp::Lt | BinaryOp::Le | BinaryOp::Gt
            | BinaryOp::Ge => 5,
            BinaryOp::Like | BinaryOp::NotLike => 6,
            BinaryOp::Concat => 7,
            BinaryOp::Add | BinaryOp::Sub => 8,
            BinaryOp::Mul | BinaryOp::Div | BinaryOp::Rem => 9,
        }
    }

    fn is_left_assoc(&self) -> (r: bool)
        ensures
            r == left_assoc(*self),
    {
        match self {
            BinaryOp::Or | BinaryOp::And | BinaryOp::Concat | BinaryOp::Add | BinaryOp::Sub
            | BinaryOp::Mul | BinaryOp::Div | BinaryOp::Rem => true,
            _ => false,
        }
    }

    fn is_logic(&self) -> (r: bool)
        ensures
            r == is_logic(*self),
    {
        match self {
            BinaryOp::Or | BinaryOp::And => true,
            _ => false,
        }
    }

    fn token(&self) -> (r: &'static str)
        ensures
            r@ == binary_token(*self),
    {
        match self {
            BinaryOp::Or => "OR",
            BinaryOp::And => "AND",
            BinaryOp::Is => "IS",
            BinaryOp::IsNot => "IS NOT",
            BinaryOp::Eq => "=",
            BinaryOp::Ne => "<>",
            BinaryOp::Lt => "<",
            BinaryOp::Le => "<=",
            BinaryOp::Gt => ">",
            BinaryOp::Ge => ">=",
            BinaryOp::Like => "LIKE",
            BinaryOp::NotLike => "NOT LIKE",
            BinaryOp::Concat => "||",
            BinaryOp::Add => "+",
            BinaryOp::Sub => "-",
            BinaryOp::Mul => "*",
            BinaryOp::Div => "/",
            BinaryOp::Rem => "%",
        }
    }
}

fn same_binary_op(a: &BinaryOp, b: &BinaryOp) -> (r: bool)
    ensures
        r == (*a == *b),
{
    match (a, b) {
        (BinaryOp::Or, BinaryOp::Or) | (BinaryOp::And, BinaryOp::And) => true,
        (BinaryOp::Is, BinaryOp::Is) | (BinaryOp::IsNot, BinaryOp::IsNot) => true,
        (BinaryOp::Eq, BinaryOp::Eq) | (BinaryOp::Ne, BinaryOp::Ne) => true,
        (BinaryOp::Lt, BinaryOp::Lt) | (BinaryOp::Le, BinaryOp::Le) => true,
        (BinaryOp::Gt, BinaryOp::Gt) | (BinaryOp::Ge, BinaryOp::Ge) => true,
        (BinaryOp::Like, BinaryOp::Like) | (BinaryOp::NotLike, BinaryOp::NotLike) => true,
        (BinaryOp::Concat, BinaryOp::Concat) => true,
        (BinaryOp::Add, BinaryOp::Add) | (BinaryOp::Sub, BinaryOp::Sub) => true,
        (BinaryOp::Mul, BinaryOp::Mul) | (BinaryOp::Div, BinaryOp::Div) => true,
        (BinaryOp::Rem, BinaryOp::Rem) => true,
        _ => false,
    }
}

impl Expr {
    /// The binding power of the top of this expression.
    pub fn prec(&self) -> (r: u8)
        ensures
            r == expr_prec(*self),
    {
        match self {
            Expr::Literal(Value::Int(n)) => if *n < 0 {
                10
            } else {
                11
            },
            Expr::Unary(op, _) => op.prec(),
            Expr::Binary(op, _, _) => op.prec(),
            _ => 11,
        }
    }

    fn mixes_logic_under(&self, op: &BinaryOp) -> (r: bool)
        ensures
            r == mixes_logic(*op, *self),
    {
        match self {
            Expr::Binary(c, _, _) => op.is_logic() && c.is_logic() && !same_binary_op(c, op),
            _ => false,
        }
    }
}

/// Adds `e` to the predicate `prev` by the rule of `and_merged`.
pub fn merge_and(prev: Option<Expr>, e: Expr) -> (r: Expr)
    ensures
        r == and_merged(prev, e),
{
    match prev {
        Some(p) => Expr::Binary(BinaryOp::And, Box::new(p), Box::new(e)),
        None => e,
    }
}

/// Writes `s`, between parentheses where `paren` holds.
fn render_wrapped(s: String, paren: bool) -> (r: String)
    ensures
        r@ == wrap(s@, paren),
{
    if paren {
        proof {
            reveal_strlit("(");
            reveal_strlit(")");
        }
        let mut out = String::from_str("(");
        out.append(s.as_str());
        out.append(")");
        out
    } else {
        s
    }
}

/// Writes the SQL text of `e`.
pub fn render_expr(e: &Expr) -> (r: String)
    ensures
        r@ == expr_text(*e),
    decreases e,
{
    match e {
        Expr::Literal(v) => v.render(),
        Expr::Column(c) => c.render(),
        Expr::Unary(op, x) => {
            let paren = match op {
                UnaryOp::Not => x.prec() < op.prec(),
                UnaryOp::Neg => x.prec() <= op.prec(),
            };
            let inner = render_wrapped(render_expr(x), paren);
            let mut out = String::from_str(op.token());
            out.append(inner.as_str());
            out
        },
        Expr::Binary(op, l, r) => {
            let lp = l.prec() < op.prec() || (l.prec() == op.prec() && !op.is_left_assoc())
                || l.mixes_logic_under(op);
            let rp = r.prec() <= op.prec() || r.mixes_logic_under(op);
            let left = render_wrapped(render_expr(l), lp);
            let right = render_wrapped(render_expr(r), rp);
            proof {
                reveal_strlit(" ");
            }
            let mut out = left;
            out.append(" ");
            out.append(op.token());
            out.append(" ");
            out.append(right.as_str());
            out
        },
        Expr::Call(name, args) => {
            proof {
                reveal_strlit("(");
                reveal_strlit(")");
                assert(decreases_to!(*e => (*e)->Call_1));
            }
            let mut out = name.render();
            out.append("(");
            let inner = render_exprs(args);
            out.append(inner.as_str());
            out.append(")");
            out
        },
        Expr::Subquery(q) => {
            proof {
                reveal_strlit("(");
                reveal_strlit(")");
            }
            let mut out = String::from_str("(");
            let inner = render_select(q);
            out.append(inner.as_str());
            out.append(")");
            out
        },
    }
}

/// Writes the SQL texts of `es` in order, `, ` between two neighbours.
pub fn render_exprs(es: &Vec<Expr>) -> (r: String)
    ensures
        r@ == join(exprs_texts(es@), ", "@),
    decreases es,
{
    proof {
        assert(decreases_to!(*es => es@));
    }
    let mut out = String::new();
    let mut i: usize = 0;
    while i < es.len()
        invariant
            i <= es@.len(),
            decreases_to!(*es => es@),
            out@ == join(exprs_texts(es@.subrange(0, i as int)), ", "@),
        decreases es@.len() - i,
    {
        if i > 0 {
            out.append(", ");
        }
        proof {
            assert(decreases_to!(es@ => es@[i as int]));
        }
        let part = render_expr(&es[i]);
        out.append(part.as_str());
        proof {
            let pre = es@.subrange(0, i + 1);
            assert(pre.drop_last() =~= es@.subrange(0, i as int));
            assert(exprs_texts(pre).drop_last() =~= exprs_texts(es@.subrange(0, i as int)));
        }
        i = i + 1;
    }
    assert(es@.subrange(0, es@.len() as int) =~= es@);
    out
}

impl Render for Expr {
    open spec fn text(&self) -> Seq<char> {
        expr_text(*self)
    }

    fn render(&self) -> (r: String) {
        render_expr(self)
    }
}

} // verus!
