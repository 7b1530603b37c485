//! A finished statement with its `LIMIT` and `OFFSET`.
use vstd::prelude::*;
use crate::clause;
use crate::expr::Expr;
use crate::render::Render;
use crate::stmt::append_then;
use crate::stmt::select::Select;
use crate::stmt::then_text;
use crate::value::{int_text, Value};

verus! {

/// A statement wrapped with an optional `LIMIT` and `OFFSET`. Once wrapped, only these two
/// can be set; each call replaces the earlier value.
#[derive(Debug, PartialEq, Eq)]
pub struct Paginated {
    pub data: Select,
    pub limit: Option<clause::Limit>,
    pub offset: Option<clause::Offset>,
}

/// `LIMIT n`
pub open spec fn limit_clause(n: u32) -> clause::Limit {
    clause::Limit(Expr::Literal(Value::Int(n as i64)))
}

/// `OFFSET n`
pub open spec fn offset_clause(n: u32) -> clause::Offset {
    clause::Offset(Expr::Literal(Value::Int(n as i64)))
}

/// The SQL text: the statement's own, then ` LIMIT n` if set, then ` OFFSET n` if set.
pub open spec fn paginated_text(p: Paginated) -> Seq<char> {
    p.data.text() + then_text(p.limit) + then_text(p.offset)
}

/// `after` is `before` with its `LIMIT` set to `n`, all else kept.
pub open spec fn limited(before: Paginated, n: u32, after: Paginated) -> bool {
    &&& after.data == before.data
    &&& after.limit == Some(limit_clause(n))
    &&& after.offset == before.offset
}

/// `after` is `before` with its `OFFSET` set to `n`, all else kept.
pub open spec fn offset_by(before: Paginated, n: u32, after: Paginated) -> bool {
    &&& after.data == before.data
    &&& after.limit == before.limit
    &&& after.offset == Some(offset_clause(n))
}

/// Of two calls of `limit`, the later one wins: the text holds ` LIMIT m` for the second
/// value `m` only, and the first value is gone.
pub proof fn lemma_limit_twice(p: Paginated, n: u32, m: u32, mid: Paginated, two: Paginated)
    requires
        limited(p, n, mid),
        limited(mid, m, two),
    ensures
        two.limit == Some(limit_clause(m)),
        paginated_text(two) == p.data.text() + " LIMIT "@ + int_text(m as int) + then_text(
            p.offset,
        ),
{
    reveal_strlit("LIMIT ");
    reveal_strlit(" LIMIT ");
    assert(limit_clause(m).text() == "LIMIT "@ + int_text(m as int));
    assert(paginated_text(two) =~= p.data.text() + " LIMIT "@ + int_text(m as int) + then_text(
        p.offset,
    ));
}

impl Paginated {
    /// Wraps `data` with neither `LIMIT` nor `OFFSET`.
    pub fn new(data: Select) -> (r: Paginated)
        ensures
            r.data == data,
            r.limit is None,
            r.offset is None,
    {
        Paginated { data, limit: None, offset: None }
    }

    /// Sets the `LIMIT`, replacing any earlier one.
    pub fn limit(self, n: u32) -> (r: Paginated)
        ensures
            limited(self, n, r),
    {
        let mut p = self;
        p.limit = Some(clause::Limit(Expr::Literal(Value::Int(n as i64))));
        p
    }

    /// Sets the `OFFSET`, replacing any earlier one.
    pub fn offset(self, n: u32) -> (r: Paginated)
        ensures
            offset_by(self, n, r),
    {
        let mut p = self;
        p.offset = Some(clause::Offset(Expr::Literal(Value::Int(n as i64))));
        p
    }
}

impl Render for Paginated {
    open spec fn text(&self) -> Seq<char> {
        paginated_text(*self)
    }

    fn render(&self) -> (r: String) {
        let mut out = self.data.render();
        append_then(&mut out, &self.limit);
        append_then(&mut out, &self.offset);
        out
    }
}

} // verus!
