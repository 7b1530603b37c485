use xql::clause::{From, GroupBy, Having, OrderBy, Select, Where};
use xql::expr::Expr;
use xql::item::{ColumnRef, Field, Ident, Order, Sort, Table, TableExpr, TableRef};
use xql::ops::{boolean, col, qcol};
use xql::render::Render;
use xql::value::Value;

fn ident(s: &str) -> Ident {
    Ident(s.to_string())
}

#[test]
fn select() {
    let mut clause = Select(vec![Field::new(col("id"))]);
    assert_eq!(
        clause,
        Select(vec![Field {
            alias: None,
            expr: Expr::Column(ColumnRef::Column(ident("id")))
        }])
    );
    assert_eq!(clause.render(), "SELECT id");

    clause.0.extend([Field::new(qcol("user", "name"))]);
    assert_eq!(
        clause,
        Select(vec![
            Field {
                alias: None,
                expr: Expr::Column(ColumnRef::Column(ident("id"))),
            },
            Field {
                alias: None,
                expr: Expr::Column(ColumnRef::TableColumn(ident("user"), ident("name"))),
            },
        ])
    );
    assert_eq!(clause.render(), "SELECT id, user.name");
}

#[test]
fn from() {
    let mut clause = From(vec![Table::named("user")]);
    assert_eq!(
        clause,
        From(vec![Table {
            alias: None,
            table: TableExpr::TableRef(TableRef::Table(ident("user"))),
        }])
    );
    assert_eq!(clause.render(), "FROM user");

    clause.0.extend([Table::qualified("public", "contact")]);
    assert_eq!(
        clause,
        From(vec![
            Table {
                alias: None,
                table: TableExpr::TableRef(TableRef::Table(ident("user")))
            },
            Table {
                alias: None,
                table: TableExpr::TableRef(TableRef::SchemaTable(
                    ident("public"),
                    ident("contact")
                ))
            },
        ])
    );
    assert_eq!(clause.render(), "FROM user, public.contact")
}

#[test]
fn where_() {
    let clause = Where(boolean(true));
    assert_eq!(clause, Where(Expr::Literal(Value::Bool(true))));
    assert_eq!(clause.render(), "WHERE true");
}

#[test]
fn group_by() {
    let mut clause = GroupBy(vec![col("id")]);
    assert_eq!(
        clause,
        GroupBy(vec![Expr::Column(ColumnRef::Column(ident("id")))])
    );
    assert_eq!(clause.render(), "GROUP BY id");

    clause.0.extend([qcol("user", "name")]);
    assert_eq!(
        clause,
        GroupBy(vec![
            Expr::Column(ColumnRef::Column(ident("id"))),
            Expr::Column(ColumnRef::TableColumn(ident("user"), ident("name")))
        ])
    );
    assert_eq!(clause.render(), "GROUP BY id, user.name")
}

#[test]
fn having() {
    let clause = Having(boolean(true));
    assert_eq!(clause, Having(Expr::Literal(Value::Bool(true))));
    assert_eq!(clause.render(), "HAVING true");
}

#[test]
fn order_by() {
    let mut clause = OrderBy(vec![Order(col("id"), None)]);
    assert_eq!(
        clause,
        OrderBy(vec![Order(
            Expr::Column(ColumnRef::Column(ident("id"))),
            None
        )]),
    );
    assert_eq!(clause.render(), "ORDER BY id");

    clause.0.extend([Order(qcol("user", "name"), Some(Sort::Desc))]);

    assert_eq!(
        clause,
        OrderBy(vec![
            Order(Expr::Column(ColumnRef::Column(ident("id"))), None),
            Order(
                Expr::Column(ColumnRef::TableColumn(ident("user"), ident("name"))),
                Some(Sort::Desc)
            )
        ]),
    );
    assert_eq!(clause.render(), "ORDER BY id, user.name DESC")
}
