//! Names and references: identifiers, columns and tables.
use vstd::prelude::*;
use crate::expr::{expr_text, exprs_texts, render_expr, render_exprs, Expr};
use crate::render::{join, list_text, render_list, Render};
use crate::stmt::select::{render_select, select_text, Select};

verus! {

/// A name, written verbatim.
#[derive(Clone, Debug, PartialEq, Eq)]
pub struct Ident(pub String);

impl Ident {
    /// The identifier with the text `name`.
    pub fn new(name: &str) -> (r: Ident)
        ensures
            r.0@ == name@,
    {
        Ident(String::from_str(name))
    }
}

impl Render for Ident {
    open spec fn text(&self) -> Seq<char> {
        self.0@
    }

    fn render(&self) -> (r: String) {
        String::from_str(self.0.as_str())
    }
}

/// A column, bare or qualified by its table.
#[derive(Clone, Debug, PartialEq, Eq)]
pub enum ColumnRef {
    Column(Ident),
    TableColumn(Ident, Ident),
}

/// `a.b`
pub open spec fn dotted(a: Seq<char>, b: Seq<char>) -> Seq<char> {
    a + seq!['.'] + b
}

fn render_dotted(a: &Ident, b: &Ident) -> (r: String)
    ensures
        r@ == dotted(a.text(), b.text()),
{
    proof {
        reveal_strlit(".");
    }
    let mut out = a.render();
    out.append(".");
    out.append(b.0.as_str());
    out
}

impl Render for ColumnRef {
    open spec fn text(&self) -> Seq<char> {
        match self {
            ColumnRef::Column(c) => c.text(),
            ColumnRef::TableColumn(t, c) => dotted(t.text(), c.text()),
        }
    }

    fn render(&self) -> (r: String) {
        match self {
            ColumnRef::Column(c) => c.render(),
            ColumnRef::TableColumn(t, c) => render_dotted(t, c),
        }
    }
}

/// A table, bare or qualified by its schema.
#[derive(Clone, Debug, PartialEq, Eq)]
pub enum TableRef {
    Table(Ident),
    SchemaTable(Ident, Ident),
}

impl Render for TableRef {
    open spec fn text(&self) -> Seq<char> {
        match self {
            TableRef::Table(t) => t.text(),
            TableRef::SchemaTable(s, t) => dotted(s.text(), t.text()),
        }
    }

    fn render(&self) -> (r: String) {
        match self {
            TableRef::Table(t) => t.render(),
            TableRef::SchemaTable(s, t) => render_dotted(s, t),
        }
    }
}

/// ` AS alias` where an alias is given.
pub open spec fn alias_text(alias: Option<Ident>) -> Seq<char> {
    match alias {
        Some(a) => " AS "@ + a.text(),
        None => Seq::empty(),
    }
}

fn append_alias(out: &mut String, alias: &Option<Ident>)
    ensures
        final(out)@ == old(out)@ + alias_text(*alias),
{
    match alias {
        Some(a) => {
            out.append(" AS ");
            out.append(a.0.as_str());
        },
        None => {},
    }
}

/// One entry of a `SELECT` or `RETURNING` list: an expression and its alias.
#[derive(Debug, PartialEq, Eq)]
pub struct Field {
    pub expr: Expr,
    pub alias: Option<Ident>,
}

/// The SQL text of a list entry.
pub open spec fn field_text(f: Field) -> Seq<char>
    decreases f,
{
    expr_text(f.expr) + alias_text(f.alias)
}

/// The texts of list entries, in order.
pub open spec fn fields_texts(fs: Seq<Field>) -> Seq<Seq<char>>
    decreases fs,
{
    if fs.len() == 0 {
        Seq::empty()
    } else {
        fields_texts(fs.drop_last()).push(field_text(fs.last()))
    }
}

/// Writes the SQL text of `f`.
pub fn render_field(f: &Field) -> (r: String)
    ensures
        r@ == field_text(*f),
    decreases f,
{
    let mut out = render_expr(&f.expr);
    append_alias(&mut out, &f.alias);
    out
}

/// Writes the texts of `fs` in order, `, ` between two neighbours.
pub fn render_fields(fs: &Vec<Field>) -> (r: String)
    ensures
        r@ == join(fields_texts(fs@), ", "@),
    decreases fs,
{
    proof {
        assert(decreases_to!(*fs => fs@));
    }
    let mut out = String::new();
    let mut i: usize = 0;
    while i < fs.len()
        invariant
            i <= fs@.len(),
            decreases_to!(*fs => fs@),
            out@ == join(fields_texts(fs@.subrange(0, i as int)), ", "@),
        decreases fs@.len() - i,
    {
        if i > 0 {
            out.append(", ");
        }
        proof {
            assert(decreases_to!(fs@ => fs@[i as int]));
        }
        let part = render_field(&fs[i]);
        out.append(part.as_str());
        proof {
            let pre = fs@.subrange(0, i + 1);
            assert(pre.drop_last() =~= fs@.subrange(0, i as int));
            assert(fields_texts(pre).drop_last() =~= fields_texts(fs@.subrange(0, i as int)));
        }
        i = i + 1;
    }
    assert(fs@.subrange(0, fs@.len() as int) =~= fs@);
    out
}

impl Render for Field {
    open spec fn text(&self) -> Seq<char> {
        field_text(*self)
    }

    fn render(&self) -> (r: String) {
        render_field(self)
    }
}

/// What can stand after `FROM`.
#[derive(Debug, PartialEq, Eq)]
pub enum TableExpr {
    TableRef(TableRef),
    /// A function returning rows: its name, then its arguments.
    Call(Ident, Vec<Expr>),
    /// A statement read as a table, written between parentheses.
    Subquery(Box<Select>),
}

/// The SQL text of a table expression.
pub open spec fn table_expr_text(t: TableExpr) -> Seq<char>
    decreases t,
{
    match t {
        TableExpr::TableRef(r) => r.text(),
        TableExpr::Call(name, args) => name.text() + seq!['('] + join(exprs_texts(args@), ", "@)
            + seq![')'],
        TableExpr::Subquery(q) => seq!['('] + select_text(*q) + seq![')'],
    }
}

/// Writes the SQL text of `t`.
pub fn render_table_expr(t: &TableExpr) -> (r: String)
    ensures
        r@ == table_expr_text(*t),
    decreases t,
{
    proof {
        reveal_strlit("(");
        reveal_strlit(")");
    }
    match t {
        TableExpr::TableRef(r) => r.render(),
        TableExpr::Call(name, args) => {
            proof {
                assert(decreases_to!(*t => (*t)->Call_1));
            }
            let mut out = name.render();
            out.append("(");
            let inner = render_exprs(args);
            out.append(inner.as_str());
            out.append(")");
            out
        },
        TableExpr::Subquery(q) => {
            let mut out = String::from_str("(");
            let inner = render_select(q);
            out.append(inner.as_str());
            out.append(")");
            out
        },
    }
}

/// One entry of a `FROM` list: a table expression and its alias.
#[derive(Debug, PartialEq, Eq)]
pub struct Table {
    pub table: TableExpr,
    pub alias: Option<Ident>,
}

/// The SQL text of a `FROM` entry.
pub open spec fn table_text(t: Table) -> Seq<char>
    decreases t,
{
    table_expr_text(t.table) + alias_text(t.alias)
}

/// The texts of `FROM` entries, in order.
pub open spec fn tables_texts(ts: Seq<Table>) -> Seq<Seq<char>>
    decreases ts,
{
    if ts.len() == 0 {
        Seq::empty()
    } else {
        tables_texts(ts.drop_last()).push(table_text(ts.last()))
    }
}

/// Writes the SQL text of `t`.
pub fn render_table(t: &Table) -> (r: String)
    ensures
        r@ == table_text(*t),
    decreases t,
{
    let mut out = render_table_expr(&t.table);
    append_alias(&mut out, &t.alias);
    out
}

/// Writes the texts of `ts` in order, `, ` between two neighbours.
pub fn render_tables(ts: &Vec<Table>) -> (r: String)
    ensures
        r@ == join(tables_texts(ts@), ", "@),
    decreases ts,
{
    proof {
        assert(decreases_to!(*ts => ts@));
    }
    let mut out = String::new();
    let mut i: usize = 0;
    while i < ts.len()
        invariant
            i <= ts@.len(),
            decreases_to!(*ts => ts@),
            out@ == join(tables_texts(ts@.subrange(0, i as int)), ", "@),
        decreases ts@.len() - i,
    {
        if i > 0 {
            out.append(", ");
        }
        proof {
            assert(decreases_to!(ts@ => ts@[i as int]));
        }
        let part = render_table(&ts[i]);
        out.append(part.as_str());
        proof {
            let pre = ts@.subrange(0, i + 1);
            assert(pre.drop_last() =~= ts@.subrange(0, i as int));
            assert(tables_texts(pre).drop_last() =~= tables_texts(ts@.subrange(0, i as int)));
        }
        i = i + 1;
    }
    assert(ts@.subrange(0, ts@.len() as int) =~= ts@);
    out
}

impl Render for Table {
    open spec fn text(&self) -> Seq<char> {
        table_text(*self)
    }

    fn render(&self) -> (r: String) {
        render_table(self)
    }
}

/// A sort direction.
#[derive(Clone, Copy, Debug, PartialEq, Eq)]
pub enum Sort {
    Asc,
    Desc,
}

/// ` ASC` or ` DESC` where a direction is given.
pub open spec fn sort_text(sort: Option<Sort>) -> Seq<char> {
    match sort {
        Some(Sort::Asc) => " ASC"@,
        Some(Sort::Desc) => " DESC"@,
        None => Seq::empty(),
    }
}

/// One entry of an `ORDER BY` list: an expression and its direction.
#[derive(Debug, PartialEq, Eq)]
pub struct Order(pub Expr, pub Option<Sort>);

/// The SQL text of a sort key.
pub open spec fn order_text(o: Order) -> Seq<char>
    decreases o,
{
    expr_text(o.0) + sort_text(o.1)
}

/// The texts of sort keys, in order.
pub open spec fn orders_texts(os: Seq<Order>) -> Seq<Seq<char>>
    decreases os,
{
    if os.len() == 0 {
        Seq::empty()
    } else {
        orders_texts(os.drop_last()).push(order_text(os.last()))
    }
}

/// Writes the SQL text of `o`.
pub fn render_order(o: &Order) -> (r: String)
    ensures
        r@ == order_text(*o),
    decreases o,
{
    let mut out = render_expr(&o.0);
    match o.1 {
        Some(Sort::Asc) => out.append(" ASC"),
        Some(Sort::Desc) => out.append(" DESC"),
        None => {},
    }
    out
}

/// Writes the texts of `os` in order, `, ` between two neighbours.
pub fn render_orders(os: &Vec<Order>) -> (r: String)
    ensures
        r@ == join(orders_texts(os@), ", "@),
    decreases os,
{
    proof {
        assert(decreases_to!(*os => os@));
    }
    let mut out = String::new();
    let mut i: usize = 0;
    while i < os.len()
        invariant
            i <= os@.len(),
            decreases_to!(*os => os@),
            out@ == join(orders_texts(os@.subrange(0, i as int)), ", "@),
        decreases os@.len() - i,
    {
        if i > 0 {
            out.append(", ");
        }
        proof {
            assert(decreases_to!(os@ => os@[i as int]));
        }
        let part = render_order(&os[i]);
        out.append(part.as_str());
        proof {
            let pre = os@.subrange(0, i + 1);
            assert(pre.drop_last() =~= os@.subrange(0, i as int));
            assert(orders_texts(pre).drop_last() =~= orders_texts(os@.subrange(0, i as int)));
        }
        i = i + 1;
    }
    assert(os@.subrange(0, os@.len() as int) =~= os@);
    out
}

impl Render for Order {
    open spec fn text(&self) -> Seq<char> {
        order_text(*self)
    }

    fn render(&self) -> (r: String) {
        render_order(self)
    }
}

/// One tuple of a `VALUES` list.
#[derive(Debug, PartialEq, Eq)]
pub struct Row(pub Vec<Expr>);

impl Render for Row {
    open spec fn text(&self) -> Seq<char> {
        seq!['('] + list_text(self.0@, ", "@) + seq![')']
    }

    fn render(&self) -> (r: String) {
        proof {
            reveal_strlit("(");
            reveal_strlit(")");
        }
        let mut out = String::from_str("(");
        let inner = render_list(&self.0, ", ");
        out.append(inner.as_str());
        out.append(")");
        out
    }
}

/// One assignment of a `SET` list: a column and its new value.
#[derive(Debug, PartialEq, Eq)]
pub struct Assign(pub Ident, pub Expr);

impl Render for Assign {
    open spec fn text(&self) -> Seq<char> {
        self.0.text() + " = "@ + self.1.text()
    }

    fn render(&self) -> (r: String) {
        let mut out = self.0.render();
        out.append(" = ");
        let value = render_expr(&self.1);
        out.append(value.as_str());
        out
    }
}

/// A common table expression: a name, its optional column list, and the statement
/// that defines it.
#[derive(Debug, PartialEq, Eq)]
pub struct Cte {
    pub name: Ident,
    pub columns: Vec<Ident>,
    pub query: Box<Select>,
}

impl Render for Cte {
    open spec fn text(&self) -> Seq<char> {
        crate::stmt::select::cte_text(*self)
    }

    fn render(&self) -> (r: String) {
        crate::stmt::select::render_cte(self)
    }
}

} // verus!
