//! Statement builders.
use vstd::prelude::*;
use crate::clause;
use crate::expr::{and_merged, merge_and, Expr};
use crate::item::{Cte, Field};
use crate::render::Render;

pub mod delete;
pub mod insert;
pub mod paginated;
pub mod select;
pub mod update;

verus! {

/// A space, then the text of the clause, where the clause is present.
pub open spec fn then_text<T: Render>(c: Option<T>) -> Seq<char> {
    match c {
        Some(x) => seq![' '] + x.text(),
        None => Seq::empty(),
    }
}

/// Appends a space and the clause's text where the clause is present.
pub fn append_then<T: Render>(out: &mut String, c: &Option<T>)
    ensures
        final(out)@ == old(out)@ + then_text(*c),
{
    match c {
        Some(x) => {
            proof {
                reveal_strlit(" ");
            }
            out.append(" ");
            let t = x.render();
            out.append(t.as_str());
        },
        None => {},
    }
}

/// The items of a list clause that may be absent: none where it is absent.
pub open spec fn items_of<T>(c: Option<Vec<T>>) -> Seq<T> {
    match c {
        Some(v) => v@,
        None => Seq::empty(),
    }
}

/// Appends `more` to the list `prev`, which may be absent.
pub fn append_items<T>(prev: Option<Vec<T>>, more: Vec<T>) -> (r: Vec<T>)
    ensures
        r@ == items_of(prev) + more@,
{
    let mut more = more;
    match prev {
        Some(v) => {
            let mut v = v;
            v.append(&mut more);
            v
        },
        None => more,
    }
}

/// The condition of a `WHERE` clause that may be absent.
pub open spec fn where_expr(c: Option<clause::Where>) -> Option<Expr> {
    match c {
        Some(w) => Some(w.0),
        None => None,
    }
}

/// Merges `expr` into the `WHERE` clause `prev` by the rule of `and_merged`.
pub fn merge_where(prev: Option<clause::Where>, expr: Expr) -> (r: clause::Where)
    ensures
        r == clause::Where(and_merged(where_expr(prev), expr)),
{
    let prev = match prev {
        Some(w) => Some(w.0),
        None => None,
    };
    clause::Where(merge_and(prev, expr))
}

/// The fields of a `RETURNING` clause that may be absent.
pub open spec fn returning_items(c: Option<clause::Returning>) -> Seq<Field> {
    match c {
        Some(r) => r.0@,
        None => Seq::empty(),
    }
}

/// Appends `more` to the `RETURNING` clause `prev`.
pub fn extend_returning(prev: Option<clause::Returning>, more: Vec<Field>) -> (r: clause::Returning)
    ensures
        r.0@ == returning_items(prev) + more@,
{
    let prev = match prev {
        Some(f) => Some(f.0),
        None => None,
    };
    clause::Returning(append_items(prev, more))
}

/// The common table expressions of a `WITH` clause that may be absent.
pub open spec fn with_items(c: Option<clause::With>) -> Seq<Cte> {
    match c {
        Some(w) => w.1@,
        None => Seq::empty(),
    }
}

/// Whether a `WITH` clause that may be absent is `RECURSIVE`.
pub open spec fn with_recursive(c: Option<clause::With>) -> bool {
    match c {
        Some(w) => w.0,
        None => false,
    }
}

/// Appends `more` to the `WITH` clause `prev`, keeping its `RECURSIVE` flag.
pub fn extend_with(prev: Option<clause::With>, more: Vec<Cte>) -> (r: clause::With)
    ensures
        r.0 == with_recursive(prev),
        r.1@ == with_items(prev) + more@,
{
    match prev {
        Some(w) => {
            let mut ctes = w.1;
            let mut more = more;
            ctes.append(&mut more);
            clause::With(w.0, ctes)
        },
        None => clause::With(false, more),
    }
}

/// Marks the `WITH` clause `prev` as `RECURSIVE`, keeping its expressions.
pub fn make_recursive(prev: Option<clause::With>) -> (r: clause::With)
    ensures
        r.0,
        r.1@ == with_items(prev),
{
    match prev {
        Some(w) => clause::With(true, w.1),
        None => clause::With(true, Vec::new()),
    }
}

} // verus!
