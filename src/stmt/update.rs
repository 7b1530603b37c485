//! The `UPDATE` statement.
use vstd::prelude::*;
use crate::clause;
use crate::expr::{and_merged, Expr};
use crate::item::{Assign, Cte, Field, Ident, Table, TableRef};
use crate::render::Render;
use crate::stmt::{
    append_items, append_then, extend_returning, extend_with, make_recursive, merge_where,
    returning_items, then_text, where_expr, with_items, with_recursive,
};
use crate::stmt::select::{from_items, render_with_lead, with_lead};

verus! {

/// An `UPDATE` statement. Each optional clause is absent until a builder call sets it.
#[derive(Debug, PartialEq, Eq)]
pub struct Update {
    pub with: Option<clause::With>,
    pub table: clause::Update,
    pub set: clause::SetClause,
    pub from: Option<clause::From>,
    pub filter: Option<clause::Where>,
    pub returned: Option<clause::Returning>,
}

/// The SQL text of an `UPDATE` statement: its present clauses in the fixed order
/// `WITH`, `UPDATE`, `SET`, `FROM`, `WHERE`, `RETURNING`, one space apart.
pub open spec fn update_text(u: Update) -> Seq<char> {
    with_lead(u.with) + u.table.text() + seq![' '] + u.set.text() + then_text(u.from)
        + then_text(u.filter) + then_text(u.returned)
}

/// An `UPDATE` of `table` with no assignment yet and no other clause.
pub fn update(table: TableRef) -> (r: Update)
    ensures
        r.table.0 == table,
        r.set.0@.len() == 0,
        r.with is None,
        r.from is None,
        r.filter is None,
        r.returned is None,
{
    Update {
        with: None,
        table: clause::Update(table),
        set: clause::SetClause(Vec::new()),
        from: None,
        filter: None,
        returned: None,
    }
}

impl Update {
    /// Adds common table expressions to the `WITH` clause, after those already there.
    pub fn with(self, ctes: Vec<Cte>) -> (r: Update)
        ensures
            r.with is Some,
            with_items(r.with) == with_items(self.with) + ctes@,
            with_recursive(r.with) == with_recursive(self.with),
            r.table == self.table,
            r.set == self.set,
            r.from == self.from,
            r.filter == self.filter,
            r.returned == self.returned,
    {
        let mut u = self;
        let prev = u.with.take();
        u.with = Some(extend_with(prev, ctes));
        u
    }

    /// Makes the `WITH` clause `WITH RECURSIVE`, for all its expressions.
    pub fn recursive(self) -> (r: Update)
        ensures
            r.with is Some,
            with_items(r.with) == with_items(self.with),
            with_recursive(r.with),
            r.table == self.table,
            r.set == self.set,
            r.from == self.from,
            r.filter == self.filter,
            r.returned == self.returned,
    {
        let mut u = self;
        let prev = u.with.take();
        u.with = Some(make_recursive(prev));
        u
    }

    /// Sets the table changed, replacing the earlier one.
    pub fn table(self, table: TableRef) -> (r: Update)
        ensures
            r.table.0 == table,
            r.with == self.with,
            r.set == self.set,
            r.from == self.from,
            r.filter == self.filter,
            r.returned == self.returned,
    {
        let mut u = self;
        u.table = clause::Update(table);
        u
    }

    /// Adds the assignment `column = value` after those already there.
    pub fn set(self, column: Ident, value: Expr) -> (r: Update)
        ensures
            r.set.0@ == self.set.0@.push(Assign(column, value)),
            r.with == self.with,
            r.table == self.table,
            r.from == self.from,
            r.filter == self.filter,
            r.returned == self.returned,
    {
        let mut u = self;
        u.set.0.push(Assign(column, value));
        u
    }

    /// Adds assignments after those already there.
    pub fn set_values(self, values: Vec<Assign>) -> (r: Update)
        ensures
            r.set.0@ == self.set.0@ + values@,
            r.with == self.with,
            r.table == self.table,
            r.from == self.from,
            r.filter == self.filter,
            r.returned == self.returned,
    {
        let mut u = self;
        let mut values = values;
        u.set.0.append(&mut values);
        u
    }

    /// Adds tables to the `FROM` list, after those already there.
    pub fn from(self, tables: Vec<Table>) -> (r: Update)
        ensures
            r.from is Some,
            from_items(r.from) == from_items(self.from) + tables@,
            r.with == self.with,
            r.table == self.table,
            r.set == self.set,
            r.filter == self.filter,
            r.returned == self.returned,
    {
        let mut u = self;
        let prev = match u.from.take() {
            Some(f) => Some(f.0),
            None => None,
        };
        u.from = Some(clause::From(append_items(prev, tables)));
        u
    }

    /// Adds a condition to the `WHERE` clause: the first call sets it, each later call
    /// joins it to what stood before with `AND`, the earlier condition on the left.
    pub fn filter(self, expr: Expr) -> (r: Update)
        ensures
            r.filter == Some(clause::Where(and_merged(where_expr(self.filter), expr))),
            r.with == self.with,
            r.table == self.table,
            r.set == self.set,
            r.from == self.from,
            r.returned == self.returned,
    {
        let mut u = self;
        let prev = u.filter.take();
        u.filter = Some(merge_where(prev, expr));
        u
    }

    /// Adds fields to the `RETURNING` list, after those already there.
    pub fn returning(self, returned: Vec<Field>) -> (r: Update)
        ensures
            r.returned is Some,
            returning_items(r.returned) == returning_items(self.returned) + returned@,
            r.with == self.with,
            r.table == self.table,
            r.set == self.set,
            r.from == self.from,
            r.filter == self.filter,
    {
        let mut u = self;
        let prev = u.returned.take();
        u.returned = Some(extend_returning(prev, returned));
        u
    }
}

impl Render for Update {
    open spec fn text(&self) -> Seq<char> {
        update_text(*self)
    }

    fn render(&self) -> (r: String) {
        proof {
            reveal_strlit(" ");
        }
        let mut out = render_with_lead(&self.with);
        let table = self.table.render();
        out.append(table.as_str());
        out.append(" ");
        let set = self.set.render();
        out.append(set.as_str());
        append_then(&mut out, &self.from);
        append_then(&mut out, &self.filter);
        append_then(&mut out, &self.returned);
        out
    }
}

} // verus!
