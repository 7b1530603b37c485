use xql::expr::{BinaryOp, Expr};
use xql::ops::{and, binary, boolean, col, eq, neg, not, null, number, or, text};
use xql::render::Render;
use xql::value::Value;

#[test]
fn and_of_comparisons_needs_no_parentheses() {
    let e = and(eq(col("a"), number(1)), eq(col("b"), number(2)));
    assert_eq!(e.render(), "a = 1 AND b = 2");
}

#[test]
fn and_under_or_is_grouped() {
    let e = or(
        and(eq(col("a"), number(1)), eq(col("b"), number(2))),
        eq(col("c"), number(3)),
    );
    assert_eq!(e.render(), "(a = 1 AND b = 2) OR c = 3");
    let f = and(
        eq(col("a"), number(1)),
        or(eq(col("b"), number(2)), eq(col("c"), number(3))),
    );
    assert_eq!(f.render(), "a = 1 AND (b = 2 OR c = 3)");
}

#[test]
fn same_operator_chains_left_only() {
    let left = and(and(col("a"), col("b")), col("c"));
    assert_eq!(left.render(), "a AND b AND c");
    let right = and(col("a"), and(col("b"), col("c")));
    assert_eq!(right.render(), "a AND (b AND c)");
    let sub = binary(
        BinaryOp::Sub,
        col("a"),
        binary(BinaryOp::Sub, col("b"), col("c")),
    );
    assert_eq!(sub.render(), "a - (b - c)");
    let mixed = binary(
        BinaryOp::Sub,
        binary(BinaryOp::Add, col("a"), col("b")),
        col("c"),
    );
    assert_eq!(mixed.render(), "a + b - c");
}

#[test]
fn tighter_and_looser_operands() {
    let sum_times = binary(
        BinaryOp::Mul,
        binary(BinaryOp::Add, col("a"), col("b")),
        col("c"),
    );
    assert_eq!(sum_times.render(), "(a + b) * c");
    let plus_product = binary(
        BinaryOp::Add,
        col("a"),
        binary(BinaryOp::Mul, col("b"), col("c")),
    );
    assert_eq!(plus_product.render(), "a + b * c");
}

#[test]
fn comparisons_do_not_chain() {
    let e = eq(binary(BinaryOp::Lt, col("a"), col("b")), boolean(true));
    assert_eq!(e.render(), "(a < b) = true");
}

#[test]
fn prefix_operators() {
    assert_eq!(not(and(col("a"), col("b"))).render(), "NOT (a AND b)");
    assert_eq!(not(eq(col("a"), number(1))).render(), "NOT a = 1");
    assert_eq!(not(not(col("a"))).render(), "NOT NOT a");
    assert_eq!(neg(neg(col("a"))).render(), "-(-a)");
    assert_eq!(neg(number(-5)).render(), "-(-5)");
    assert_eq!(
        binary(BinaryOp::Sub, col("a"), number(-5)).render(),
        "a - -5"
    );
    assert_eq!(
        neg(binary(BinaryOp::Add, col("a"), col("b"))).render(),
        "-(a + b)"
    );
}

#[test]
fn is_null() {
    let e = binary(BinaryOp::IsNot, col("a"), null());
    assert_eq!(e.render(), "a IS NOT NULL");
}

#[test]
fn literal_escaping() {
    assert_eq!(text("O'Brien").render(), "'O''Brien'");
    assert_eq!(text("").render(), "''");
    assert_eq!(text("''").render(), "''''''");
    assert_eq!(text("é'ü").render(), "'é''ü'");
}

#[test]
fn literal_values() {
    assert_eq!(Value::Null.render(), "NULL");
    assert_eq!(Value::Bool(true).render(), "true");
    assert_eq!(Value::Bool(false).render(), "false");
    assert_eq!(Value::Int(0).render(), "0");
    assert_eq!(Value::Int(1970).render(), "1970");
    assert_eq!(Value::Int(-42).render(), "-42");
    assert_eq!(Value::Int(i64::MAX).render(), "9223372036854775807");
    assert_eq!(Value::Int(i64::MIN).render(), "-9223372036854775808");
    assert_eq!(Expr::Literal(Value::Text("x".to_string())).render(), "'x'");
}
