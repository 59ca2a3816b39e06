use exograph_core::access::{
    check_retrieve_access, solve, AccessPredicateExpression, AccessPrimitive, RelationalOp,
    RequestContext,
};
use exograph_core::column_path::{ColumnId, PhysicalColumnPath};
use exograph_core::error::PostgresExecutionError;
use exograph_core::order_by::{
    AbstractOrderBy, AbstractOrderByExpr, OrderByComputation, SortOrder,
};
use exograph_core::predicate::{AbstractPredicate, ColumnPath, CompareOp, SqlParam};
use exograph_core::value::{ConstValue, Number};

fn column(table_id: usize, column_index: usize) -> ColumnPath {
    ColumnPath::Physical(PhysicalColumnPath::leaf(ColumnId { table_id, column_index }))
}

fn int_param(n: u64) -> ColumnPath {
    ColumnPath::Param(SqlParam::Value(ConstValue::Number(Number::PosInt(n))))
}

fn some_predicate(n: u64) -> AbstractPredicate {
    AbstractPredicate::eq(column(0, 0), int_param(n))
}

fn context(values: Vec<(&str, ConstValue)>) -> RequestContext {
    RequestContext { values: values.into_iter().map(|(k, v)| (k.to_string(), v)).collect() }
}

#[test]
fn and_with_true_is_identity() {
    assert_eq!(AbstractPredicate::and(AbstractPredicate::True, some_predicate(1)), some_predicate(1));
    assert_eq!(AbstractPredicate::and(some_predicate(1), AbstractPredicate::True), some_predicate(1));
    assert_eq!(
        AbstractPredicate::and(AbstractPredicate::True, AbstractPredicate::True),
        AbstractPredicate::True
    );
}

#[test]
fn and_with_false_is_false() {
    assert_eq!(
        AbstractPredicate::and(AbstractPredicate::False, some_predicate(1)),
        AbstractPredicate::False
    );
    assert_eq!(
        AbstractPredicate::and(some_predicate(1), AbstractPredicate::False),
        AbstractPredicate::False
    );
    assert_eq!(
        AbstractPredicate::and(AbstractPredicate::False, AbstractPredicate::True),
        AbstractPredicate::False
    );
}

#[test]
fn and_of_two_predicates_keeps_both() {
    assert_eq!(
        AbstractPredicate::and(some_predicate(1), some_predicate(2)),
        AbstractPredicate::And(Box::new(some_predicate(1)), Box::new(some_predicate(2)))
    );
}

#[test]
fn or_and_not_simplify_constants() {
    assert_eq!(AbstractPredicate::or(AbstractPredicate::False, some_predicate(1)), some_predicate(1));
    assert_eq!(
        AbstractPredicate::or(some_predicate(1), AbstractPredicate::True),
        AbstractPredicate::True
    );
    assert_eq!(
        AbstractPredicate::or(some_predicate(1), some_predicate(2)),
        AbstractPredicate::Or(Box::new(some_predicate(1)), Box::new(some_predicate(2)))
    );
    assert_eq!(AbstractPredicate::not(AbstractPredicate::True), AbstractPredicate::False);
    assert_eq!(AbstractPredicate::not(AbstractPredicate::False), AbstractPredicate::True);
    assert_eq!(
        AbstractPredicate::not(some_predicate(1)),
        AbstractPredicate::Not(Box::new(some_predicate(1)))
    );
}

#[test]
fn predicate_duplicate_is_equal() {
    let p = AbstractPredicate::And(
        Box::new(some_predicate(1)),
        Box::new(AbstractPredicate::Not(Box::new(some_predicate(2)))),
    );
    assert_eq!(p.duplicate(), p);
    assert!(AbstractPredicate::True.is_true());
    assert!(AbstractPredicate::False.is_false());
    assert!(!p.is_true());
    assert!(!p.is_false());
}

fn by_column(table_id: usize, column_index: usize, order: SortOrder) -> (AbstractOrderByExpr, SortOrder) {
    (
        AbstractOrderByExpr::Column(PhysicalColumnPath::leaf(ColumnId { table_id, column_index })),
        order,
    )
}

#[test]
fn combine_concatenates_in_order_and_conjoins_from_the_left() {
    let results = vec![
        OrderByComputation::new(
            AbstractOrderBy(vec![by_column(0, 1, SortOrder::Asc)]),
            some_predicate(1),
        ),
        OrderByComputation::new(AbstractOrderBy(vec![]), AbstractPredicate::True),
        OrderByComputation::new(
            AbstractOrderBy(vec![by_column(0, 2, SortOrder::Desc), by_column(0, 3, SortOrder::Asc)]),
            some_predicate(2),
        ),
        OrderByComputation::new(
            AbstractOrderBy(vec![by_column(0, 4, SortOrder::Asc)]),
            some_predicate(3),
        ),
    ];
    let combined = OrderByComputation::combine(results);
    assert_eq!(
        combined.order_by,
        AbstractOrderBy(vec![
            by_column(0, 1, SortOrder::Asc),
            by_column(0, 2, SortOrder::Desc),
            by_column(0, 3, SortOrder::Asc),
            by_column(0, 4, SortOrder::Asc),
        ])
    );
    assert_eq!(
        combined.predicate,
        AbstractPredicate::And(
            Box::new(AbstractPredicate::And(
                Box::new(some_predicate(1)),
                Box::new(some_predicate(2))
            )),
            Box::new(some_predicate(3)),
        )
    );
}

#[test]
fn combine_of_nothing_is_empty_and_true() {
    let combined = OrderByComputation::combine(vec![]);
    assert_eq!(combined.order_by, AbstractOrderBy(vec![]));
    assert_eq!(combined.predicate, AbstractPredicate::True);
}

#[test]
fn combine_with_false_is_false() {
    let combined = OrderByComputation::combine(vec![
        OrderByComputation::new(AbstractOrderBy(vec![by_column(0, 1, SortOrder::Asc)]), some_predicate(1)),
        OrderByComputation::new(AbstractOrderBy(vec![]), AbstractPredicate::False),
    ]);
    assert_eq!(combined.predicate, AbstractPredicate::False);
    assert_eq!(combined.order_by, AbstractOrderBy(vec![by_column(0, 1, SortOrder::Asc)]));
}

fn role_is(role: &str) -> AccessPredicateExpression {
    AccessPredicateExpression::Relational(
        RelationalOp::Eq,
        AccessPrimitive::Context("AuthContext.role".to_string()),
        AccessPrimitive::Literal(ConstValue::String(role.to_string())),
    )
}

fn owner_is_caller() -> AccessPredicateExpression {
    AccessPredicateExpression::Relational(
        RelationalOp::Eq,
        AccessPrimitive::Column(PhysicalColumnPath::leaf(ColumnId { table_id: 0, column_index: 2 })),
        AccessPrimitive::Context("AuthContext.id".to_string()),
    )
}

#[test]
fn literals_reduce_to_constants() {
    let ctx = context(vec![]);
    assert_eq!(solve(&AccessPredicateExpression::BooleanLiteral(true), &ctx), AbstractPredicate::True);
    assert_eq!(
        solve(&AccessPredicateExpression::BooleanLiteral(false), &ctx),
        AbstractPredicate::False
    );
}

#[test]
fn context_comparisons_are_decided() {
    let admin = context(vec![("AuthContext.role", ConstValue::String("admin".to_string()))]);
    let user = context(vec![("AuthContext.role", ConstValue::String("user".to_string()))]);
    let nobody = context(vec![]);
    assert_eq!(solve(&role_is("admin"), &admin), AbstractPredicate::True);
    assert_eq!(solve(&role_is("admin"), &user), AbstractPredicate::False);
    assert_eq!(solve(&role_is("admin"), &nobody), AbstractPredicate::False);
}

#[test]
fn column_comparisons_become_row_predicates() {
    let ctx = context(vec![("AuthContext.id", ConstValue::Number(Number::PosInt(7)))]);
    assert_eq!(
        solve(&owner_is_caller(), &ctx),
        AbstractPredicate::Compare(CompareOp::Eq, column(0, 2), int_param(7))
    );
    let nobody = context(vec![]);
    assert_eq!(
        solve(&owner_is_caller(), &nobody),
        AbstractPredicate::Compare(
            CompareOp::Eq,
            column(0, 2),
            ColumnPath::Param(SqlParam::Value(ConstValue::Null))
        )
    );
}

#[test]
fn combinators_simplify_while_solving() {
    let ctx = context(vec![
        ("AuthContext.role", ConstValue::String("admin".to_string())),
        ("AuthContext.id", ConstValue::Number(Number::PosInt(7))),
    ]);
    let admin_or_owner = AccessPredicateExpression::Or(
        Box::new(role_is("admin")),
        Box::new(owner_is_caller()),
    );
    assert_eq!(solve(&admin_or_owner, &ctx), AbstractPredicate::True);
    let user_and_owner = AccessPredicateExpression::And(
        Box::new(AccessPredicateExpression::Not(Box::new(role_is("user")))),
        Box::new(owner_is_caller()),
    );
    assert_eq!(
        solve(&user_and_owner, &ctx),
        AbstractPredicate::Compare(CompareOp::Eq, column(0, 2), int_param(7))
    );
}

#[test]
fn integer_order_is_decided() {
    let ctx = context(vec![("AuthContext.level", ConstValue::Number(Number::NegInt(-3)))]);
    let at_least = |n: i64, op: RelationalOp| AccessPredicateExpression::Relational(
        op,
        AccessPrimitive::Context("AuthContext.level".to_string()),
        AccessPrimitive::Literal(if n >= 0 {
            ConstValue::Number(Number::PosInt(n as u64))
        } else {
            ConstValue::Number(Number::NegInt(n))
        }),
    );
    assert_eq!(solve(&at_least(0, RelationalOp::Lt), &ctx), AbstractPredicate::True);
    assert_eq!(solve(&at_least(-3, RelationalOp::Lte), &ctx), AbstractPredicate::True);
    assert_eq!(solve(&at_least(-3, RelationalOp::Gt), &ctx), AbstractPredicate::False);
    assert_eq!(solve(&at_least(-4, RelationalOp::Gte), &ctx), AbstractPredicate::True);
    assert_eq!(solve(&at_least(-3, RelationalOp::Neq), &ctx), AbstractPredicate::False);
    let text = AccessPredicateExpression::Relational(
        RelationalOp::Lt,
        AccessPrimitive::Literal(ConstValue::String("a".to_string())),
        AccessPrimitive::Literal(ConstValue::String("b".to_string())),
    );
    assert_eq!(solve(&text, &ctx), AbstractPredicate::False);
}

#[test]
fn retrieve_access_refuses_false() {
    let ctx = context(vec![]);
    assert_eq!(
        check_retrieve_access(&AccessPredicateExpression::BooleanLiteral(false), &ctx),
        Err(PostgresExecutionError::Authorization)
    );
    assert_eq!(
        check_retrieve_access(&AccessPredicateExpression::BooleanLiteral(true), &ctx),
        Ok(AbstractPredicate::True)
    );
    assert_eq!(
        check_retrieve_access(&owner_is_caller(), &ctx),
        Ok(AbstractPredicate::Compare(
            CompareOp::Eq,
            column(0, 2),
            ColumnPath::Param(SqlParam::Value(ConstValue::Null))
        ))
    );
}
