//! Constructors of expressions, list entries and tables.
use vstd::prelude::*;
use crate::expr::{BinaryOp, Expr, UnaryOp};
use crate::item::{Assign, ColumnRef, Field, Ident, Order, Sort, Table, TableExpr, TableRef};
use crate::stmt::select::Select;
use crate::value::Value;

verus! {

/// The bare column `name`.
pub fn col(name: &str) -> (r: Expr)
    ensures
        r matches Expr::Column(ColumnRef::Column(c)) && c.0@ == name@,
{
    Expr::Column(ColumnRef::Column(Ident::new(name)))
}

/// The column `table.name`.
pub fn qcol(table: &str, name: &str) -> (r: Expr)
    ensures
        r matches Expr::Column(ColumnRef::TableColumn(t, c)) && t.0@ == table@ && c.0@ == name@,
{
    Expr::Column(ColumnRef::TableColumn(Ident::new(table), Ident::new(name)))
}

/// The integer literal `n`.
pub fn number(n: i64) -> (r: Expr)
    ensures
        r == Expr::Literal(Value::Int(n)),
{
    Expr::Literal(Value::Int(n))
}

/// The boolean literal `b`.
pub fn boolean(b: bool) -> (r: Expr)
    ensures
        r == Expr::Literal(Value::Bool(b)),
{
    Expr::Literal(Value::Bool(b))
}

/// The literal `NULL`.
pub fn null() -> (r: Expr)
    ensures
        r == Expr::Literal(Value::Null),
{
    Expr::Literal(Value::Null)
}

/// The text literal `s`.
pub fn text(s: &str) -> (r: Expr)
    ensures
        r matches Expr::Literal(Value::Text(t)) && t@ == s@,
{
    Expr::Literal(Value::Text(String::from_str(s)))
}

/// The statement `q` used as a value.
pub fn subquery(q: Select) -> (r: Expr)
    ensures
        r == Expr::Subquery(Box::new(q)),
{
    Expr::Subquery(Box::new(q))
}

/// `a op b`
pub fn binary(op: BinaryOp, a: Expr, b: Expr) -> (r: Expr)
    ensures
        r == Expr::Binary(op, Box::new(a), Box::new(b)),
{
    Expr::Binary(op, Box::new(a), Box::new(b))
}

/// `a AND b`
pub fn and(a: Expr, b: Expr) -> (r: Expr)
    ensures
        r == Expr::Binary(BinaryOp::And, Box::new(a), Box::new(b)),
{
    binary(BinaryOp::And, a, b)
}

/// `a OR b`
pub fn or(a: Expr, b: Expr) -> (r: Expr)
    ensures
        r == Expr::Binary(BinaryOp::Or, Box::new(a), Box::new(b)),
{
    binary(BinaryOp::Or, a, b)
}

/// `a = b`
pub fn eq(a: Expr, b: Expr) -> (r: Expr)
    ensures
        r == Expr::Binary(BinaryOp::Eq, Box::new(a), Box::new(b)),
{
    binary(BinaryOp::Eq, a, b)
}

/// `a <> b`
pub fn ne(a: Expr, b: Expr) -> (r: Expr)
    ensures
        r == Expr::Binary(BinaryOp::Ne, Box::new(a), Box::new(b)),
{
    binary(BinaryOp::Ne, a, b)
}

/// `a < b`
pub fn lt(a: Expr, b: Expr) -> (r: Expr)
    ensures
        r == Expr::Binary(BinaryOp::Lt, Box::new(a), Box::new(b)),
{
    binary(BinaryOp::Lt, a, b)
}

/// `a <= b`
pub fn le(a: Expr, b: Expr) -> (r: Expr)
    ensures
        r == Expr::Binary(BinaryOp::Le, Box::new(a), Box::new(b)),
{
    binary(BinaryOp::Le, a, b)
}

/// `a > b`
pub fn gt(a: Expr, b: Expr) -> (r: Expr)
    ensures
        r == Expr::Binary(BinaryOp::Gt, Box::new(a), Box::new(b)),
{
    binary(BinaryOp::Gt, a, b)
}

/// `a >= b`
pub fn ge(a: Expr, b: Expr) -> (r: Expr)
    ensures
        r == Expr::Binary(BinaryOp::Ge, Box::new(a), Box::new(b)),
{
    binary(BinaryOp::Ge, a, b)
}

/// `NOT a`
pub fn not(a: Expr) -> (r: Expr)
    ensures
        r == Expr::Unary(UnaryOp::Not, Box::new(a)),
{
    Expr::Unary(UnaryOp::Not, Box::new(a))
}

/// `-a`
pub fn neg(a: Expr) -> (r: Expr)
    ensures
        r == Expr::Unary(UnaryOp::Neg, Box::new(a)),
{
    Expr::Unary(UnaryOp::Neg, Box::new(a))
}

/// The call `name(args)`.
pub fn func(name: &str, args: Vec<Expr>) -> (r: Expr)
    ensures
        r matches Expr::Call(n, a) && n.0@ == name@ && a == args,
{
    Expr::Call(Ident::new(name), args)
}

/// A call of the aggregate `name` on one argument.
fn aggregate(name: &str, arg: Expr) -> (r: Expr)
    ensures
        r matches Expr::Call(n, a) && n.0@ == name@ && a@ == seq![arg],
{
    let mut args = Vec::new();
    args.push(arg);
    Expr::Call(Ident::new(name), args)
}

/// `COUNT(arg)`
pub fn count(arg: Expr) -> (r: Expr)
    ensures
        r matches Expr::Call(n, a) && n.0@ == "COUNT"@ && a@ == seq![arg],
{
    aggregate("COUNT", arg)
}

/// `MAX(arg)`
pub fn max(arg: Expr) -> (r: Expr)
    ensures
        r matches Expr::Call(n, a) && n.0@ == "MAX"@ && a@ == seq![arg],
{
    aggregate("MAX", arg)
}

/// `MIN(arg)`
pub fn min(arg: Expr) -> (r: Expr)
    ensures
        r matches Expr::Call(n, a) && n.0@ == "MIN"@ && a@ == seq![arg],
{
    aggregate("MIN", arg)
}

/// `AVG(arg)`
pub fn avg(arg: Expr) -> (r: Expr)
    ensures
        r matches Expr::Call(n, a) && n.0@ == "AVG"@ && a@ == seq![arg],
{
    aggregate("AVG", arg)
}

/// The sort key `e ASC`.
pub fn asc(e: Expr) -> (r: Order)
    ensures
        r == Order(e, Some(Sort::Asc)),
{
    Order(e, Some(Sort::Asc))
}

/// The sort key `e DESC`.
pub fn desc(e: Expr) -> (r: Order)
    ensures
        r == Order(e, Some(Sort::Desc)),
{
    Order(e, Some(Sort::Desc))
}

impl Field {
    /// The entry `expr`, without alias.
    pub fn new(expr: Expr) -> (r: Field)
        ensures
            r.expr == expr,
            r.alias is None,
    {
        Field { expr, alias: None }
    }

    /// The entry `expr AS alias`.
    pub fn aliased(expr: Expr, alias: &str) -> (r: Field)
        ensures
            r.expr == expr,
            r.alias matches Some(a) && a.0@ == alias@,
    {
        Field { expr, alias: Some(Ident::new(alias)) }
    }
}

impl Table {
    /// The table `name`, without alias.
    pub fn named(name: &str) -> (r: Table)
        ensures
            r.table matches TableExpr::TableRef(TableRef::Table(t)) && t.0@ == name@,
            r.alias is None,
    {
        Table { table: TableExpr::TableRef(TableRef::Table(Ident::new(name))), alias: None }
    }

    /// The table `schema.name`, without alias.
    pub fn qualified(schema: &str, name: &str) -> (r: Table)
        ensures
            r.table matches TableExpr::TableRef(TableRef::SchemaTable(s, t)) && s.0@ == schema@
                && t.0@ == name@,
            r.alias is None,
    {
        Table {
            table: TableExpr::TableRef(TableRef::SchemaTable(Ident::new(schema), Ident::new(name))),
            alias: None,
        }
    }

    /// The rows of the function call `name(args)`, without alias.
    pub fn call(name: &str, args: Vec<Expr>) -> (r: Table)
        ensures
            r.table matches TableExpr::Call(n, a) && n.0@ == name@ && a == args,
            r.alias is None,
    {
        Table { table: TableExpr::Call(Ident::new(name), args), alias: None }
    }
}

impl Table {
    /// The rows of the statement `q`, under the name `alias`.
    pub fn subquery(q: Select, alias: &str) -> (r: Table)
        ensures
            r.table == TableExpr::Subquery(Box::new(q)),
            r.alias matches Some(a) && a.0@ == alias@,
    {
        Table { table: TableExpr::Subquery(Box::new(q)), alias: Some(Ident::new(alias)) }
    }
}

impl Assign {
    /// The assignment `column = value`.
    pub fn new(column: &str, value: Expr) -> (r: Assign)
        ensures
            r.0.0@ == column@,
            r.1 == value,
    {
        Assign(Ident::new(column), value)
    }
}

} // verus!
