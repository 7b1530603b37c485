//! The `INSERT` statement.
use vstd::prelude::*;
use crate::clause;
use crate::item::{Cte, Field, Ident, Row, TableRef};
use crate::render::Render;
use crate::stmt::{
    append_then, extend_returning, extend_with, make_recursive, returning_items, then_text,
    with_items, with_recursive,
};
use crate::stmt::select::{render_with_lead, with_lead};

verus! {

/// An `INSERT` statement. Each optional clause is absent until a builder call sets it.
#[derive(Debug, PartialEq, Eq)]
pub struct Insert {
    pub with: Option<clause::With>,
    pub target: clause::Insert,
    pub values: clause::Values,
    pub returned: Option<clause::Returning>,
}

/// The SQL text of an `INSERT` statement: its present clauses in the fixed order
/// `WITH`, `INSERT INTO`, `VALUES`, `RETURNING`, one space apart.
pub open spec fn insert_text(i: Insert) -> Seq<char> {
    with_lead(i.with) + i.target.text() + seq![' '] + i.values.text() + then_text(i.returned)
}

/// An `INSERT INTO table(columns)` with no row yet and no other clause. An empty column list
/// leaves the columns out.
pub fn insert(table: TableRef, columns: Vec<Ident>) -> (r: Insert)
    ensures
        r.target.0 == table,
        r.target.1@ == columns@,
        r.values.0@.len() == 0,
        r.with is None,
        r.returned is None,
{
    Insert {
        with: None,
        target: clause::Insert(table, columns),
        values: clause::Values(Vec::new()),
        returned: None,
    }
}

impl Insert {
    /// Adds common table expressions to the `WITH` clause, after those already there.
    pub fn with(self, ctes: Vec<Cte>) -> (r: Insert)
        ensures
            r.with is Some,
            with_items(r.with) == with_items(self.with) + ctes@,
            with_recursive(r.with) == with_recursive(self.with),
            r.target == self.target,
            r.values == self.values,
            r.returned == self.returned,
    {
        let mut i = self;
        let prev = i.with.take();
        i.with = Some(extend_with(prev, ctes));
        i
    }

    /// Makes the `WITH` clause `WITH RECURSIVE`, for all its expressions.
    pub fn recursive(self) -> (r: Insert)
        ensures
            r.with is Some,
            with_items(r.with) == with_items(self.with),
            with_recursive(r.with),
            r.target == self.target,
            r.values == self.values,
            r.returned == self.returned,
    {
        let mut i = self;
        let prev = i.with.take();
        i.with = Some(make_recursive(prev));
        i
    }

    /// Sets the target table and its column list, replacing the earlier ones.
    pub fn target(self, table: TableRef, columns: Vec<Ident>) -> (r: Insert)
        ensures
            r.target.0 == table,
            r.target.1@ == columns@,
            r.with == self.with,
            r.values == self.values,
            r.returned == self.returned,
    {
        let mut i = self;
        i.target = clause::Insert(table, columns);
        i
    }

    /// Adds rows to the `VALUES` list, after those already there.
    pub fn values(self, rows: Vec<Row>) -> (r: Insert)
        ensures
            r.values.0@ == self.values.0@ + rows@,
            r.with == self.with,
            r.target == self.target,
            r.returned == self.returned,
    {
        let mut i = self;
        let mut rows = rows;
        i.values.0.append(&mut rows);
        i
    }

    /// Adds fields to the `RETURNING` list, after those already there.
    pub fn returning(self, returned: Vec<Field>) -> (r: Insert)
        ensures
            r.returned is Some,
            returning_items(r.returned) == returning_items(self.returned) + returned@,
            r.with == self.with,
            r.target == self.target,
            r.values == self.values,
    {
        let mut i = self;
        let prev = i.returned.take();
        i.returned = Some(extend_returning(prev, returned));
        i
    }
}

impl Render for Insert {
    open spec fn text(&self) -> Seq<char> {
        insert_text(*self)
    }

    fn render(&self) -> (r: String) {
        proof {
            reveal_strlit(" ");
        }
        let mut out = render_with_lead(&self.with);
        let target = self.target.render();
        out.append(target.as_str());
        out.append(" ");
        let values = self.values.render();
        out.append(values.as_str());
        append_then(&mut out, &self.returned);
        out
    }
}

} // verus!
