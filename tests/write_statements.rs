use xql::clause::{Delete, Insert, Values, With};
use xql::item::{Cte, Field, Ident, Row, Table, TableRef};
use xql::ops::{col, number, text};
use xql::render::Render;
use xql::item::Assign;
use xql::ops::{eq, ge};
use xql::stmt::delete::delete;
use xql::stmt::insert::insert;
use xql::stmt::select::select;
use xql::stmt::update::update;

#[test]
fn insert_clause_with_and_without_columns() {
    let bare = Insert(TableRef::Table(Ident::new("user")), vec![]);
    assert_eq!(bare.render(), "INSERT INTO user");
    let listed = Insert(
        TableRef::SchemaTable(Ident::new("public"), Ident::new("user")),
        vec![Ident::new("id"), Ident::new("name")],
    );
    assert_eq!(listed.render(), "INSERT INTO public.user(id, name)");
}

#[test]
fn values_clause() {
    let values = Values(vec![
        Row(vec![number(1), text("a")]),
        Row(vec![number(2), text("b")]),
    ]);
    assert_eq!(values.render(), "VALUES (1, 'a'), (2, 'b')");
}

#[test]
fn delete_clause() {
    assert_eq!(
        Delete(TableRef::Table(Ident::new("user"))).render(),
        "DELETE FROM user"
    );
}

#[test]
fn with_clause() {
    let cte = Cte {
        name: Ident::new("recent"),
        columns: vec![Ident::new("id")],
        query: Box::new(select(vec![Field::new(col("id"))]).from(vec![Table::named("book")])),
    };
    let with = With(true, vec![cte]);
    assert_eq!(
        with.render(),
        "WITH RECURSIVE recent(id) AS (SELECT id FROM book)"
    );
    let mut query = select(vec![Field::new(col("id"))]).from(vec![Table::named("recent")]);
    query.with = Some(with);
    assert_eq!(
        query.render(),
        "WITH RECURSIVE recent(id) AS (SELECT id FROM book) SELECT id FROM recent"
    );
}

#[test]
fn insert_statement() {
    let query = insert(
        TableRef::Table(Ident::new("user")),
        vec![Ident::new("id"), Ident::new("name")],
    )
    .values(vec![Row(vec![number(1), text("a")])])
    .values(vec![Row(vec![number(2), text("O'Brien")])])
    .returning(vec![Field::new(col("id"))]);
    assert_eq!(
        query.render(),
        "INSERT INTO user(id, name) VALUES (1, 'a'), (2, 'O''Brien') RETURNING id"
    );
}

#[test]
fn insert_target_is_replaced() {
    let query = insert(TableRef::Table(Ident::new("a")), vec![Ident::new("x")])
        .target(TableRef::Table(Ident::new("b")), vec![])
        .values(vec![Row(vec![number(1)])]);
    assert_eq!(query.render(), "INSERT INTO b VALUES (1)");
}

#[test]
fn delete_statement() {
    let query = delete(TableRef::Table(Ident::new("user")))
        .filter(ge(col("age"), number(30)))
        .filter(eq(col("name"), text("x")))
        .returning(vec![Field::new(col("id"))]);
    assert_eq!(
        query.render(),
        "DELETE FROM user WHERE age >= 30 AND name = 'x' RETURNING id"
    );
    let moved = delete(TableRef::Table(Ident::new("a"))).table(TableRef::Table(Ident::new("b")));
    assert_eq!(moved.render(), "DELETE FROM b");
}

#[test]
fn with_builders_share_one_recursive_flag() {
    let first = Cte {
        name: Ident::new("a"),
        columns: vec![],
        query: Box::new(select(vec![Field::new(number(1))])),
    };
    let second = Cte {
        name: Ident::new("b"),
        columns: vec![],
        query: Box::new(select(vec![Field::new(number(2))])),
    };
    let query = select(vec![Field::new(col("x"))])
        .with(vec![first])
        .recursive()
        .with(vec![second])
        .from(vec![Table::named("a")]);
    assert_eq!(
        query.render(),
        "WITH RECURSIVE a AS (SELECT 1), b AS (SELECT 2) SELECT x FROM a"
    );
    let cte = Cte {
        name: Ident::new("old"),
        columns: vec![],
        query: Box::new(select(vec![Field::new(col("id"))]).from(vec![Table::named("t")])),
    };
    let changed = update(TableRef::Table(Ident::new("t")))
        .with(vec![cte])
        .set_values(vec![Assign::new("flag", number(0))]);
    assert_eq!(
        changed.render(),
        "WITH old AS (SELECT id FROM t) UPDATE t SET flag = 0"
    );
}
