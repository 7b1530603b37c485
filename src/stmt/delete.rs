//! The `DELETE` statement.
use vstd::prelude::*;
use crate::clause;
use crate::expr::{and_merged, Expr};
use crate::item::{Cte, Field, TableRef};
use crate::render::Render;
use crate::stmt::{
    append_then, extend_returning, extend_with, make_recursive, merge_where, returning_items,
    then_text, where_expr, with_items, with_recursive,
};
use crate::stmt::select::{render_with_lead, with_lead};

verus! {

/// A `DELETE` statement. Each optional clause is absent until a builder call sets it.
#[derive(Debug, PartialEq, Eq)]
pub struct Delete {
    pub with: Option<clause::With>,
    pub table: clause::Delete,
    pub filter: Option<clause::Where>,
    pub returned: Option<clause::Returning>,
}

/// The SQL text of a `DELETE` statement: its present clauses in the fixed order
/// `WITH`, `DELETE FROM`, `WHERE`, `RETURNING`, one space apart.
pub open spec fn delete_text(d: Delete) -> Seq<char> {
    with_lead(d.with) + d.table.text() + then_text(d.filter) + then_text(d.returned)
}

/// A `DELETE FROM table` with no other clause.
pub fn delete(table: TableRef) -> (r: Delete)
    ensures
        r.table.0 == table,
        r.with is None,
        r.filter is None,
        r.returned is None,
{
    Delete { with: None, table: clause::Delete(table), filter: None, returned: None }
}

impl Delete {
    /// Adds common table expressions to the `WITH` clause, after those already there.
    pub fn with(self, ctes: Vec<Cte>) -> (r: Delete)
        ensures
            r.with is Some,
            with_items(r.with) == with_items(self.with) + ctes@,
            with_recursive(r.with) == with_recursive(self.with),
            r.table == self.table,
            r.filter == self.filter,
            r.returned == self.returned,
    {
        let mut d = self;
        let prev = d.with.take();
        d.with = Some(extend_with(prev, ctes));
        d
    }

    /// Makes the `WITH` clause `WITH RECURSIVE`, for all its expressions.
    pub fn recursive(self) -> (r: Delete)
        ensures
            r.with is Some,
            with_items(r.with) == with_items(self.with),
            with_recursive(r.with),
            r.table == self.table,
            r.filter == self.filter,
            r.returned == self.returned,
    {
        let mut d = self;
        let prev = d.with.take();
        d.with = Some(make_recursive(prev));
        d
    }

    /// Sets the table rows are removed from, replacing the earlier one.
    pub fn table(self, table: TableRef) -> (r: Delete)
        ensures
            r.table.0 == table,
            r.with == self.with,
            r.filter == self.filter,
            r.returned == self.returned,
    {
        let mut d = self;
        d.table = clause::Delete(table);
        d
    }

    /// Adds a condition to the `WHERE` clause: the first call sets it, each later call
    /// joins it to what stood before with `AND`, the earlier condition on the left.
    pub fn filter(self, expr: Expr) -> (r: Delete)
        ensures
            r.filter == Some(clause::Where(and_merged(where_expr(self.filter), expr))),
            r.with == self.with,
            r.table == self.table,
            r.returned == self.returned,
    {
        let mut d = self;
        let prev = d.filter.take();
        d.filter = Some(merge_where(prev, expr));
        d
    }

    /// Adds fields to the `RETURNING` list, after those already there.
    pub fn returning(self, returned: Vec<Field>) -> (r: Delete)
        ensures
            r.returned is Some,
            returning_items(r.returned) == returning_items(self.returned) + returned@,
            r.with == self.with,
            r.table == self.table,
            r.filter == self.filter,
    {
        let mut d = self;
        let prev = d.returned.take();
        d.returned = Some(extend_returning(prev, returned));
        d
    }
}

impl Render for Delete {
    open spec fn text(&self) -> Seq<char> {
        delete_text(*self)
    }

    fn render(&self) -> (r: String) {
        let mut out = render_with_lead(&self.with);
        let table = self.table.render();
        out.append(table.as_str());
        append_then(&mut out, &self.filter);
        append_then(&mut out, &self.returned);
        out
    }
}

} // verus!
