//! One value type per SQL clause, with its text form.
use vstd::prelude::*;
use crate::expr::Expr;
use crate::expr::{exprs_texts, render_exprs};
use crate::item::{
    fields_texts, orders_texts, render_fields, render_orders, render_tables, tables_texts, Assign,
    Cte, Field, Ident, Order, Row, Table, TableRef,
};
use crate::render::{join, list_text, render_list, Render};

verus! {

/// `kw` followed by the texts of `items` joined with `, `.
pub open spec fn keyword_list<T: Render>(kw: Seq<char>, items: Seq<T>) -> Seq<char> {
    kw + list_text(items, ", "@)
}

fn render_keyword_list<T: Render>(kw: &str, items: &Vec<T>) -> (r: String)
    ensures
        r@ == keyword_list(kw@, items@),
{
    let mut out = String::from_str(kw);
    let body = render_list(items, ", ");
    out.append(body.as_str());
    out
}

/// Writes `kw`, then `body`.
fn keyword_then(kw: &str, body: String) -> (r: String)
    ensures
        r@ == kw@ + body@,
{
    let mut out = String::from_str(kw);
    out.append(body.as_str());
    out
}

fn render_keyword<T: Render>(kw: &str, item: &T) -> (r: String)
    ensures
        r@ == kw@ + item.text(),
{
    let mut out = String::from_str(kw);
    let body = item.render();
    out.append(body.as_str());
    out
}

/// A `WITH` clause: whether it is `RECURSIVE`, then its common table expressions in order.
#[derive(Debug, PartialEq, Eq)]
pub struct With(pub bool, pub Vec<Cte>);

impl Render for With {
    open spec fn text(&self) -> Seq<char> {
        crate::stmt::select::with_text(*self)
    }

    fn render(&self) -> (r: String) {
        crate::stmt::select::render_with(self)
    }
}

/// A `SELECT` clause: the output columns.
#[derive(Debug, PartialEq, Eq)]
pub struct Select(pub Vec<Field>);

impl Render for Select {
    open spec fn text(&self) -> Seq<char> {
        "SELECT "@ + join(fields_texts(self.0@), ", "@)
    }

    fn render(&self) -> (r: String) {
        keyword_then("SELECT ", render_fields(&self.0))
    }
}

/// A `FROM` clause: the tables read.
#[derive(Debug, PartialEq, Eq)]
pub struct From(pub Vec<Table>);

impl Render for From {
    open spec fn text(&self) -> Seq<char> {
        "FROM "@ + join(tables_texts(self.0@), ", "@)
    }

    fn render(&self) -> (r: String) {
        keyword_then("FROM ", render_tables(&self.0))
    }
}

/// A `WHERE` clause: the row filter.
#[derive(Debug, PartialEq, Eq)]
pub struct Where(pub Expr);

impl Render for Where {
    open spec fn text(&self) -> Seq<char> {
        "WHERE "@ + self.0.text()
    }

    fn render(&self) -> (r: String) {
        render_keyword("WHERE ", &self.0)
    }
}

/// A `GROUP BY` clause: the grouping expressions.
#[derive(Debug, PartialEq, Eq)]
pub struct GroupBy(pub Vec<Expr>);

impl Render for GroupBy {
    open spec fn text(&self) -> Seq<char> {
        "GROUP BY "@ + join(exprs_texts(self.0@), ", "@)
    }

    fn render(&self) -> (r: String) {
        keyword_then("GROUP BY ", render_exprs(&self.0))
    }
}

/// A `HAVING` clause: the group filter.
#[derive(Debug, PartialEq, Eq)]
pub struct Having(pub Expr);

impl Render for Having {
    open spec fn text(&self) -> Seq<char> {
        "HAVING "@ + self.0.text()
    }

    fn render(&self) -> (r: String) {
        render_keyword("HAVING ", &self.0)
    }
}

/// An `ORDER BY` clause: the sort keys.
#[derive(Debug, PartialEq, Eq)]
pub struct OrderBy(pub Vec<Order>);

impl Render for OrderBy {
    open spec fn text(&self) -> Seq<char> {
        "ORDER BY "@ + join(orders_texts(self.0@), ", "@)
    }

    fn render(&self) -> (r: String) {
        keyword_then("ORDER BY ", render_orders(&self.0))
    }
}

/// An `INSERT INTO` clause: the target table and, if any, its listed columns.
#[derive(Debug, PartialEq, Eq)]
pub struct Insert(pub TableRef, pub Vec<Ident>);

impl Render for Insert {
    open spec fn text(&self) -> Seq<char> {
        "INSERT INTO "@ + self.0.text() + if self.1@.len() == 0 {
            Seq::empty()
        } else {
            seq!['('] + list_text(self.1@, ", "@) + seq![')']
        }
    }

    fn render(&self) -> (r: String) {
        let mut out = render_keyword("INSERT INTO ", &self.0);
        if self.1.len() > 0 {
            proof {
                reveal_strlit("(");
                reveal_strlit(")");
            }
            out.append("(");
            let cols = render_list(&self.1, ", ");
            out.append(cols.as_str());
            out.append(")");
        }
        out
    }
}

/// A `VALUES` clause: the inserted rows.
#[derive(Debug, PartialEq, Eq)]
pub struct Values(pub Vec<Row>);

impl Render for Values {
    open spec fn text(&self) -> Seq<char> {
        keyword_list("VALUES "@, self.0@)
    }

    fn render(&self) -> (r: String) {
        render_keyword_list("VALUES ", &self.0)
    }
}

/// A `RETURNING` clause: the columns handed back.
#[derive(Debug, PartialEq, Eq)]
pub struct Returning(pub Vec<Field>);

impl Render for Returning {
    open spec fn text(&self) -> Seq<char> {
        "RETURNING "@ + join(fields_texts(self.0@), ", "@)
    }

    fn render(&self) -> (r: String) {
        keyword_then("RETURNING ", render_fields(&self.0))
    }
}

/// A `DELETE FROM` clause: the table rows are removed from.
#[derive(Debug, PartialEq, Eq)]
pub struct Delete(pub TableRef);

impl Render for Delete {
    open spec fn text(&self) -> Seq<char> {
        "DELETE FROM "@ + self.0.text()
    }

    fn render(&self) -> (r: String) {
        render_keyword("DELETE FROM ", &self.0)
    }
}

/// An `UPDATE` clause: the table changed.
#[derive(Debug, PartialEq, Eq)]
pub struct Update(pub TableRef);

impl Render for Update {
    open spec fn text(&self) -> Seq<char> {
        "UPDATE "@ + self.0.text()
    }

    fn render(&self) -> (r: String) {
        render_keyword("UPDATE ", &self.0)
    }
}

/// A `SET` clause of an `UPDATE`: the assignments, in order.
#[derive(Debug, PartialEq, Eq)]
pub struct SetClause(pub Vec<Assign>);

impl Render for SetClause {
    open spec fn text(&self) -> Seq<char> {
        keyword_list("SET "@, self.0@)
    }

    fn render(&self) -> (r: String) {
        render_keyword_list("SET ", &self.0)
    }
}

/// A `LIMIT` clause.
#[derive(Debug, PartialEq, Eq)]
pub struct Limit(pub Expr);

impl Render for Limit {
    open spec fn text(&self) -> Seq<char> {
        "LIMIT "@ + self.0.text()
    }

    fn render(&self) -> (r: String) {
        render_keyword("LIMIT ", &self.0)
    }
}

/// An `OFFSET` clause.
#[derive(Debug, PartialEq, Eq)]
pub struct Offset(pub Expr);

impl Render for Offset {
    open spec fn text(&self) -> Seq<char> {
        "OFFSET "@ + self.0.text()
    }

    fn render(&self) -> (r: String) {
        render_keyword("OFFSET ", &self.0)
    }
}

} // verus!
