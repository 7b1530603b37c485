//! The `SELECT` statement.
use vstd::prelude::*;
use crate::clause;
use crate::expr::{
    and_merged, binary_token, conj, expr_text, left_needs_parens, merge_and, right_needs_parens,
    render_expr, render_exprs, exprs_texts, wrap, BinaryOp, Expr,
};
use crate::item::{
    fields_texts, orders_texts, render_fields, render_orders, render_tables, tables_texts, Cte,
    Field, Order, Table,
};
use crate::render::{join, list_text, render_list, Render};
use crate::stmt::{
    append_items, extend_with, make_recursive, merge_where, where_expr, with_items, with_recursive,
};
use crate::stmt::paginated::{limit_clause, offset_clause, Paginated};

verus! {

/// A `SELECT` statement. Each optional clause is absent until a builder call sets it.
#[derive(Debug, PartialEq, Eq)]
pub struct Select {
    pub with: Option<clause::With>,
    pub fields: clause::Select,
    pub tables: Option<clause::From>,
    pub filter: Option<clause::Where>,
    pub groups: Option<clause::GroupBy>,
    pub having: Option<clause::Having>,
    pub orders: Option<clause::OrderBy>,
}

/// The tables of a `FROM` clause that may be absent.
pub open spec fn from_items(c: Option<clause::From>) -> Seq<Table> {
    match c {
        Some(f) => f.0@,
        None => Seq::empty(),
    }
}

/// The expressions of a `GROUP BY` clause that may be absent.
pub open spec fn group_items(c: Option<clause::GroupBy>) -> Seq<Expr> {
    match c {
        Some(g) => g.0@,
        None => Seq::empty(),
    }
}

/// The sort keys of an `ORDER BY` clause that may be absent.
pub open spec fn order_items(c: Option<clause::OrderBy>) -> Seq<Order> {
    match c {
        Some(o) => o.0@,
        None => Seq::empty(),
    }
}

/// The condition of a `HAVING` clause that may be absent.
pub open spec fn having_expr(c: Option<clause::Having>) -> Option<Expr> {
    match c {
        Some(h) => Some(h.0),
        None => None,
    }
}

/// The SQL text of a `SELECT` statement: its present clauses in the fixed order
/// `WITH`, `SELECT`, `FROM`, `WHERE`, `GROUP BY`, `HAVING`, `ORDER BY`, one space apart.
pub open spec fn select_text(s: Select) -> Seq<char>
    decreases s,
{
    with_lead(s.with) + "SELECT "@ + join(fields_texts(s.fields.0@), ", "@) + from_part(s.tables)
        + where_part(s.filter) + group_part(s.groups) + having_part(s.having) + order_part(
        s.orders,
    )
}

/// A space and the `FROM` clause, where it is present.
pub open spec fn from_part(c: Option<clause::From>) -> Seq<char>
    decreases c,
{
    match c {
        Some(f) => seq![' '] + "FROM "@ + join(tables_texts(f.0@), ", "@),
        None => Seq::empty(),
    }
}

/// A space and the `WHERE` clause, where it is present.
pub open spec fn where_part(c: Option<clause::Where>) -> Seq<char>
    decreases c,
{
    match c {
        Some(w) => seq![' '] + "WHERE "@ + expr_text(w.0),
        None => Seq::empty(),
    }
}

/// A space and the `GROUP BY` clause, where it is present.
pub open spec fn group_part(c: Option<clause::GroupBy>) -> Seq<char>
    decreases c,
{
    match c {
        Some(g) => seq![' '] + "GROUP BY "@ + join(exprs_texts(g.0@), ", "@),
        None => Seq::empty(),
    }
}

/// A space and the `HAVING` clause, where it is present.
pub open spec fn having_part(c: Option<clause::Having>) -> Seq<char>
    decreases c,
{
    match c {
        Some(h) => seq![' '] + "HAVING "@ + expr_text(h.0),
        None => Seq::empty(),
    }
}

/// A space and the `ORDER BY` clause, where it is present.
pub open spec fn order_part(c: Option<clause::OrderBy>) -> Seq<char>
    decreases c,
{
    match c {
        Some(o) => seq![' '] + "ORDER BY "@ + join(orders_texts(o.0@), ", "@),
        None => Seq::empty(),
    }
}

/// The text of a `WITH` clause and a space, where the clause is present.
pub open spec fn with_lead(w: Option<clause::With>) -> Seq<char>
    decreases w,
{
    match w {
        Some(x) => with_text(x) + seq![' '],
        None => Seq::empty(),
    }
}

/// The SQL text of a `WITH` clause.
pub open spec fn with_text(w: clause::With) -> Seq<char>
    decreases w,
{
    (if w.0 {
        "WITH RECURSIVE "@
    } else {
        "WITH "@
    }) + join(ctes_texts(w.1@), ", "@)
}

/// The texts of common table expressions, in order.
pub open spec fn ctes_texts(cs: Seq<Cte>) -> Seq<Seq<char>>
    decreases cs,
{
    if cs.len() == 0 {
        Seq::empty()
    } else {
        ctes_texts(cs.drop_last()).push(cte_text(cs.last()))
    }
}

/// ` (a, b)` for a non-empty column list, nothing for an empty one.
pub open spec fn columns_text(cols: Seq<crate::item::Ident>) -> Seq<char> {
    if cols.len() == 0 {
        Seq::empty()
    } else {
        "("@ + list_text(cols, ", "@) + ")"@
    }
}

/// The SQL text of a common table expression: `name(cols) AS (query)`.
pub open spec fn cte_text(c: Cte) -> Seq<char>
    decreases c,
{
    c.name.text() + columns_text(c.columns@) + " AS ("@ + select_text(*c.query) + ")"@
}

/// Writes the SQL text of `s`.
pub fn render_select(s: &Select) -> (r: String)
    ensures
        r@ == select_text(*s),
    decreases s,
{
    proof {
        assert(decreases_to!(*s => s.fields));
        assert(decreases_to!(s.fields => s.fields.0));
    }
    let mut out = render_with_lead(&s.with);
    out.append("SELECT ");
    let fields = render_fields(&s.fields.0);
    out.append(fields.as_str());
    let tables = render_from_part(&s.tables);
    out.append(tables.as_str());
    let filter = render_where_part(&s.filter);
    out.append(filter.as_str());
    let groups = render_group_part(&s.groups);
    out.append(groups.as_str());
    let having = render_having_part(&s.having);
    out.append(having.as_str());
    let orders = render_order_part(&s.orders);
    out.append(orders.as_str());
    out
}

fn render_from_part(c: &Option<clause::From>) -> (r: String)
    ensures
        r@ == from_part(*c),
    decreases c,
{
    match c {
        Some(x) => {
            proof {
                reveal_strlit(" ");
            }
            let mut out = String::from_str(" ");
            out.append("FROM ");
            let part = render_tables(&x.0);
            out.append(part.as_str());
            out
        },
        None => String::new(),
    }
}

fn render_where_part(c: &Option<clause::Where>) -> (r: String)
    ensures
        r@ == where_part(*c),
    decreases c,
{
    match c {
        Some(x) => {
            proof {
                reveal_strlit(" ");
            }
            let mut out = String::from_str(" ");
            out.append("WHERE ");
            let part = render_expr(&x.0);
            out.append(part.as_str());
            out
        },
        None => String::new(),
    }
}

fn render_group_part(c: &Option<clause::GroupBy>) -> (r: String)
    ensures
        r@ == group_part(*c),
    decreases c,
{
    match c {
        Some(x) => {
            proof {
                reveal_strlit(" ");
            }
            let mut out = String::from_str(" ");
            out.append("GROUP BY ");
            let part = render_exprs(&x.0);
            out.append(part.as_str());
            out
        },
        None => String::new(),
    }
}

fn render_having_part(c: &Option<clause::Having>) -> (r: String)
    ensures
        r@ == having_part(*c),
    decreases c,
{
    match c {
        Some(x) => {
            proof {
                reveal_strlit(" ");
            }
            let mut out = String::from_str(" ");
            out.append("HAVING ");
            let part = render_expr(&x.0);
            out.append(part.as_str());
            out
        },
        None => String::new(),
    }
}

fn render_order_part(c: &Option<clause::OrderBy>) -> (r: String)
    ensures
        r@ == order_part(*c),
    decreases c,
{
    match c {
        Some(x) => {
            proof {
                reveal_strlit(" ");
            }
            let mut out = String::from_str(" ");
            out.append("ORDER BY ");
            let part = render_orders(&x.0);
            out.append(part.as_str());
            out
        },
        None => String::new(),
    }
}

/// Writes the text of a `WITH` clause and a space, where the clause is present.
pub fn render_with_lead(w: &Option<clause::With>) -> (r: String)
    ensures
        r@ == with_lead(*w),
    decreases w,
{
    match w {
        Some(x) => {
            proof {
                reveal_strlit(" ");
            }
            let mut out = render_with(x);
            out.append(" ");
            out
        },
        None => String::new(),
    }
}

/// Writes the SQL text of `w`.
pub fn render_with(w: &clause::With) -> (r: String)
    ensures
        r@ == with_text(*w),
    decreases w,
{
    let mut out = if w.0 {
        String::from_str("WITH RECURSIVE ")
    } else {
        String::from_str("WITH ")
    };
    let ghost head = out@;
    let ctes = &w.1;
    proof {
        assert(decreases_to!(*w => w.1));
        assert(decreases_to!(w.1 => w.1@));
    }
    let mut i: usize = 0;
    while i < ctes.len()
        invariant
            i <= ctes@.len(),
            *ctes == w.1,
            decreases_to!(*w => ctes@),
            out@ == head + join(ctes_texts(ctes@.subrange(0, i as int)), ", "@),
        decreases ctes@.len() - i,
    {
        if i > 0 {
            out.append(", ");
        }
        proof {
            assert(decreases_to!(ctes@ => ctes@[i as int]));
        }
        let part = render_cte(&ctes[i]);
        out.append(part.as_str());
        proof {
            let pre = ctes@.subrange(0, i + 1);
            assert(pre.drop_last() =~= ctes@.subrange(0, i as int));
            assert(ctes_texts(pre).drop_last() =~= ctes_texts(ctes@.subrange(0, i as int)));
        }
        i = i + 1;
    }
    assert(ctes@.subrange(0, ctes@.len() as int) =~= ctes@);
    out
}

/// Writes the SQL text of `c`.
pub fn render_cte(c: &Cte) -> (r: String)
    ensures
        r@ == cte_text(*c),
    decreases c,
{
    proof {
        reveal_strlit("(");
        reveal_strlit(")");
        assert(decreases_to!(*c => c.query));
    }
    let mut out = c.name.render();
    if c.columns.len() > 0 {
        out.append("(");
        let cols = render_list(&c.columns, ", ");
        out.append(cols.as_str());
        out.append(")");
    }
    out.append(" AS (");
    let q = render_select(&c.query);
    out.append(q.as_str());
    out.append(")");
    out
}

/// `after` is `before` with `fields` added at the end of its `SELECT` list, all else kept.
pub open spec fn selected(before: Select, fields: Seq<Field>, after: Select) -> bool {
    &&& after.fields.0@ == before.fields.0@ + fields
    &&& after.with == before.with
    &&& after.tables == before.tables
    &&& after.filter == before.filter
    &&& after.groups == before.groups
    &&& after.having == before.having
    &&& after.orders == before.orders
}

/// `after` is `before` with `expr` merged into its `WHERE` clause by `and_merged`, all else
/// kept.
pub open spec fn filtered(before: Select, expr: Expr, after: Select) -> bool {
    &&& after.filter == Some(clause::Where(and_merged(where_expr(before.filter), expr)))
    &&& after.with == before.with
    &&& after.fields == before.fields
    &&& after.tables == before.tables
    &&& after.groups == before.groups
    &&& after.having == before.having
    &&& after.orders == before.orders
}

/// Two calls of `select` give the statement, and the text, that one call with both lists
/// joined in call order gives.
pub proof fn lemma_select_twice(
    s: Select,
    f1: Seq<Field>,
    f2: Seq<Field>,
    mid: Select,
    two: Select,
    one: Select,
)
    requires
        selected(s, f1, mid),
        selected(mid, f2, two),
        selected(s, f1 + f2, one),
    ensures
        two.fields.0@ == one.fields.0@,
        two.fields.0@ == s.fields.0@ + f1 + f2,
        select_text(two) == select_text(one),
{
    assert(two.fields.0@ =~= one.fields.0@);
}

/// Two calls of `filter` on a statement with no `WHERE` clause give `WHERE first AND second`, the
/// earlier condition on the left: the condition is the conjunction of the two, and its text
/// is that of `first`, then ` AND `, then that of `second`, each grouped as the precedence rules
/// require.
pub proof fn lemma_filter_twice(s: Select, first: Expr, second: Expr, mid: Select, two: Select)
    requires
        s.filter is None,
        filtered(s, first, mid),
        filtered(mid, second, two),
    ensures
        two.filter == Some(clause::Where(conj(first, second))),
        where_part(two.filter) == " WHERE "@ + wrap(
            expr_text(first),
            left_needs_parens(BinaryOp::And, first),
        ) + " AND "@ + wrap(expr_text(second), right_needs_parens(BinaryOp::And, second)),
{
    reveal_strlit("AND");
    reveal_strlit(" AND ");
    reveal_strlit("WHERE ");
    reveal_strlit(" WHERE ");
    assert(binary_token(BinaryOp::And) =~= "AND"@);
    assert(where_part(two.filter) =~= " WHERE "@ + wrap(expr_text(first), left_needs_parens(BinaryOp::And, first))
        + " AND "@ + wrap(expr_text(second), right_needs_parens(BinaryOp::And, second)));
}

/// A `SELECT` statement of `fields`, with no other clause.
pub fn select(fields: Vec<Field>) -> (r: Select)
    ensures
        r.fields.0@ == fields@,
        r.with is None,
        r.tables is None,
        r.filter is None,
        r.groups is None,
        r.having is None,
        r.orders is None,
{
    Select {
        with: None,
        fields: clause::Select(fields),
        tables: None,
        filter: None,
        groups: None,
        having: None,
        orders: None,
    }
}

impl Select {
    /// Adds common table expressions to the `WITH` clause, after those already there.
    pub fn with(self, ctes: Vec<Cte>) -> (r: Select)
        ensures
            r.with is Some,
            with_items(r.with) == with_items(self.with) + ctes@,
            with_recursive(r.with) == with_recursive(self.with),
            r.fields == self.fields,
            r.tables == self.tables,
            r.filter == self.filter,
            r.groups == self.groups,
            r.having == self.having,
            r.orders == self.orders,
    {
        let mut s = self;
        let prev = s.with.take();
        s.with = Some(extend_with(prev, ctes));
        s
    }

    /// Makes the `WITH` clause `WITH RECURSIVE`, for all its expressions.
    pub fn recursive(self) -> (r: Select)
        ensures
            r.with is Some,
            with_items(r.with) == with_items(self.with),
            with_recursive(r.with),
            r.fields == self.fields,
            r.tables == self.tables,
            r.filter == self.filter,
            r.groups == self.groups,
            r.having == self.having,
            r.orders == self.orders,
    {
        let mut s = self;
        let prev = s.with.take();
        s.with = Some(make_recursive(prev));
        s
    }

    /// Adds columns to the `SELECT` list, after those already there.
    pub fn select(self, fields: Vec<Field>) -> (r: Select)
        ensures
            selected(self, fields@, r),
    {
        let mut s = self;
        let mut fields = fields;
        s.fields.0.append(&mut fields);
        s
    }

    /// Adds tables to the `FROM` list, after those already there.
    pub fn from(self, tables: Vec<Table>) -> (r: Select)
        ensures
            r.tables is Some,
            from_items(r.tables) == from_items(self.tables) + tables@,
            r.with == self.with,
            r.fields == self.fields,
            r.filter == self.filter,
            r.groups == self.groups,
            r.having == self.having,
            r.orders == self.orders,
    {
        let mut s = self;
        let prev = match s.tables.take() {
            Some(f) => Some(f.0),
            None => None,
        };
        s.tables = Some(clause::From(append_items(prev, tables)));
        s
    }

    /// Adds a condition to the `WHERE` clause: the first call sets it, each later call
    /// joins it to what stood before with `AND`, the earlier condition on the left.
    pub fn filter(self, expr: Expr) -> (r: Select)
        ensures
            filtered(self, expr, r),
    {
        let mut s = self;
        let prev = s.filter.take();
        s.filter = Some(merge_where(prev, expr));
        s
    }

    /// Adds expressions to the `GROUP BY` list, after those already there.
    pub fn group_by(self, groups: Vec<Expr>) -> (r: Select)
        ensures
            r.groups is Some,
            group_items(r.groups) == group_items(self.groups) + groups@,
            r.with == self.with,
            r.fields == self.fields,
            r.tables == self.tables,
            r.filter == self.filter,
            r.having == self.having,
            r.orders == self.orders,
    {
        let mut s = self;
        let prev = match s.groups.take() {
            Some(g) => Some(g.0),
            None => None,
        };
        s.groups = Some(clause::GroupBy(append_items(prev, groups)));
        s
    }

    /// Adds a condition to the `HAVING` clause, by the same rule as `filter`.
    pub fn having(self, expr: Expr) -> (r: Select)
        ensures
            r.having == Some(clause::Having(and_merged(having_expr(self.having), expr))),
            r.with == self.with,
            r.fields == self.fields,
            r.tables == self.tables,
            r.filter == self.filter,
            r.groups == self.groups,
            r.orders == self.orders,
    {
        let mut s = self;
        let prev = match s.having.take() {
            Some(h) => Some(h.0),
            None => None,
        };
        s.having = Some(clause::Having(merge_and(prev, expr)));
        s
    }

    /// Adds sort keys to the `ORDER BY` list, after those already there.
    pub fn order_by(self, orders: Vec<Order>) -> (r: Select)
        ensures
            r.orders is Some,
            order_items(r.orders) == order_items(self.orders) + orders@,
            r.with == self.with,
            r.fields == self.fields,
            r.tables == self.tables,
            r.filter == self.filter,
            r.groups == self.groups,
            r.having == self.having,
    {
        let mut s = self;
        let prev = match s.orders.take() {
            Some(o) => Some(o.0),
            None => None,
        };
        s.orders = Some(clause::OrderBy(append_items(prev, orders)));
        s
    }

    /// Wraps the statement with both a `LIMIT` and an `OFFSET`.
    pub fn pagination(self, limit: u32, offset: u32) -> (r: Paginated)
        ensures
            r.data == self,
            r.limit == Some(limit_clause(limit)),
            r.offset == Some(offset_clause(offset)),
    {
        Paginated::new(self).limit(limit).offset(offset)
    }

    /// Wraps the statement with a `LIMIT`.
    pub fn limit(self, limit: u32) -> (r: Paginated)
        ensures
            r.data == self,
            r.limit == Some(limit_clause(limit)),
            r.offset is None,
    {
        Paginated::new(self).limit(limit)
    }

    /// Wraps the statement with an `OFFSET`.
    pub fn offset(self, offset: u32) -> (r: Paginated)
        ensures
            r.data == self,
            r.limit is None,
            r.offset == Some(offset_clause(offset)),
    {
        Paginated::new(self).offset(offset)
    }
}

impl Render for Select {
    open spec fn text(&self) -> Seq<char> {
        select_text(*self)
    }

    fn render(&self) -> (r: String) {
        render_select(self)
    }
}

} // verus!
