use xql::item::{Assign, Field, Table};
use xql::ops::{
    and, avg, boolean, col, count, desc, eq, func, ge, gt, max, min, number, qcol, subquery, text,
};
use xql::render::Render;
use xql::stmt::select::select;
use xql::stmt::update::update;
use xql::item::{Ident, TableRef};

fn fields(names: &[&str]) -> Vec<Field> {
    names.iter().map(|n| Field::new(col(n))).collect()
}

#[test]
fn select_test() {
    let mut query = select(vec![
        Field::new(qcol("data", "id")),
        Field::new(qcol("data", "value")),
    ]);
    query = query.select(vec![
        Field::new(count(col("id"))),
        Field::new(max(col("age"))),
        Field::new(min(col("age"))),
        Field::new(avg(col("age"))),
    ]);

    let name = &"name".to_string();
    query = query
        .from(vec![Table::qualified("public", "data")])
        .from(vec![Table::call("unnest", vec![qcol("data", "value")])])
        .filter(and(
            eq(qcol("data", "id"), number(1)),
            eq(qcol("data", "name"), text(name)),
        ))
        .group_by(vec![qcol("data", "id")])
        .having(boolean(true))
        .order_by(vec![desc(qcol("data", "id"))]);
    let expect = "SELECT data.id, data.value, COUNT(id), MAX(age), MIN(age), AVG(age) FROM public.data, unnest(data.value) WHERE data.id = 1 AND data.name = \'name\' GROUP BY data.id HAVING true ORDER BY data.id DESC";
    assert_eq!(query.render(), expect);
}

#[test]
fn update_test() {
    let someone = &"someone".to_string();
    let query = update(TableRef::Table(Ident::new("user")))
        .set_values(vec![Assign::new("id", number(1)), Assign::new("age", number(30))])
        .set(Ident::new("name"), text(someone))
        .from(vec![Table::named("data")])
        .filter(eq(qcol("user", "id"), qcol("data", "id")))
        .returning(fields(&["id", "age"]));
    assert_eq!(query.render(), "UPDATE user SET id = 1, age = 30, name = 'someone' FROM data WHERE user.id = data.id RETURNING id, age");
}

#[test]
fn end_to_end_select() {
    let query = select(fields(&["id", "name"]))
        .from(vec![Table::named("book")])
        .filter(ge(col("year"), number(1970)))
        .order_by(vec![desc(col("id"))])
        .limit(10);
    assert_eq!(
        query.render(),
        "SELECT id, name FROM book WHERE year >= 1970 ORDER BY id DESC LIMIT 10"
    );
}

#[test]
fn qualified_references() {
    let query = select(vec![
        Field::new(qcol("book", "id")),
        Field::new(qcol("author", "id")),
    ])
    .from(vec![Table::named("book"), Table::named("author")])
    .filter(eq(qcol("book", "id"), qcol("author", "id")));
    assert_eq!(
        query.render(),
        "SELECT book.id, author.id FROM book, author WHERE book.id = author.id"
    );
}

#[test]
fn from_twice_equals_from_list() {
    let one = select(fields(&["id"]))
        .from(vec![Table::named("book"), Table::named("author")]);
    let two = select(fields(&["id"]))
        .from(vec![Table::named("book")])
        .from(vec![Table::named("author")]);
    assert_eq!(one, two);
    assert_eq!(two.render(), "SELECT id FROM book, author");
}

#[test]
fn update_scenario() {
    let query = update(TableRef::Table(Ident::new("user")))
        .set_values(vec![Assign::new("id", number(1)), Assign::new("age", number(30))])
        .returning(fields(&["id"]));
    assert_eq!(query.render(), "UPDATE user SET id = 1, age = 30 RETURNING id");
}

#[test]
fn update_filter_and_returning_merge() {
    let query = update(TableRef::SchemaTable(Ident::new("public"), Ident::new("book")))
        .set(Ident::new("id"), number(1))
        .filter(ge(col("id"), number(1)))
        .filter(ge(col("year"), number(1970)))
        .returning(fields(&["id"]))
        .returning(fields(&["name"]));
    assert_eq!(
        query.render(),
        "UPDATE public.book SET id = 1 WHERE id >= 1 AND year >= 1970 RETURNING id, name"
    );
}

#[test]
fn select_twice_equals_one_select() {
    let two = select(fields(&["id"])).select(fields(&["name", "year"]));
    let one = select(fields(&["id", "name", "year"]));
    assert_eq!(two, one);
    assert_eq!(two.render(), "SELECT id, name, year");
}

#[test]
fn duplicates_are_kept() {
    let query = select(fields(&["id"])).select(fields(&["id"]));
    assert_eq!(query.render(), "SELECT id, id");
}

#[test]
fn filter_twice_keeps_call_order() {
    let query = select(fields(&["id"]))
        .from(vec![Table::named("book")])
        .filter(ge(col("id"), number(1)))
        .filter(ge(col("year"), number(1970)));
    assert_eq!(
        query.render(),
        "SELECT id FROM book WHERE id >= 1 AND year >= 1970"
    );
    let merged = select(fields(&["id"]))
        .from(vec![Table::named("book")])
        .filter(and(ge(col("id"), number(1)), ge(col("year"), number(1970))));
    assert_eq!(query, merged);
}

#[test]
fn having_twice_keeps_call_order() {
    let query = select(fields(&["id"]))
        .group_by(vec![col("id")])
        .having(ge(col("id"), number(1)))
        .having(eq(col("id"), number(2)));
    assert_eq!(
        query.render(),
        "SELECT id GROUP BY id HAVING id >= 1 AND id = 2"
    );
}

#[test]
fn limit_replaces_earlier_limit() {
    let query = select(fields(&["id"])).limit(5).limit(10);
    assert_eq!(query.render(), "SELECT id LIMIT 10");
}

#[test]
fn offset_after_limit_whatever_the_call_order() {
    let query = select(fields(&["id"])).offset(20).limit(10);
    assert_eq!(query.render(), "SELECT id LIMIT 10 OFFSET 20");
    let paged = select(fields(&["id"])).pagination(10, 20);
    assert_eq!(paged.render(), "SELECT id LIMIT 10 OFFSET 20");
    let only_offset = select(fields(&["id"])).offset(0).offset(7);
    assert_eq!(only_offset.render(), "SELECT id OFFSET 7");
}

#[test]
fn clause_order_is_fixed() {
    let query = select(fields(&["id"]))
        .order_by(vec![desc(col("id"))])
        .having(boolean(true))
        .group_by(vec![col("id")])
        .filter(boolean(false))
        .from(vec![Table::named("t")]);
    assert_eq!(
        query.render(),
        "SELECT id FROM t WHERE false GROUP BY id HAVING true ORDER BY id DESC"
    );
}

#[test]
fn aliases_and_calls() {
    let query = select(vec![Field::aliased(count(col("id")), "n")])
        .from(vec![Table::call("generate_series", vec![number(1), number(3)])]);
    assert_eq!(
        query.render(),
        "SELECT COUNT(id) AS n FROM generate_series(1, 3)"
    );
    assert_eq!(func("now", vec![]).render(), "now()");
}

#[test]
fn subqueries_in_expressions_and_from() {
    let newest = select(vec![Field::new(max(col("year")))]).from(vec![Table::named("book")]);
    let query = select(fields(&["id"]))
        .from(vec![Table::named("book")])
        .filter(eq(col("year"), subquery(newest)));
    assert_eq!(
        query.render(),
        "SELECT id FROM book WHERE year = (SELECT MAX(year) FROM book)"
    );
    let inner = select(fields(&["id", "year"])).from(vec![Table::named("book")]);
    let outer = select(vec![Field::new(qcol("b", "id"))])
        .from(vec![Table::subquery(inner, "b")])
        .filter(gt(qcol("b", "year"), number(2000)));
    assert_eq!(
        outer.render(),
        "SELECT b.id FROM (SELECT id, year FROM book) AS b WHERE b.year > 2000"
    );
}
