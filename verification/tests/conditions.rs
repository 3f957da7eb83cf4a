use rorm_lib::conditions::{
    Binary, BinaryOperator, In, InOperator, NullType, SqlValue, Ternary, TernaryOperator, Unary,
    UnaryOperator, Value,
};
use rorm_lib::query_context::QueryContext;

#[test]
fn values_borrow_as_sql() {
    assert!(matches!(Value::String("x".to_string()).as_sql(), SqlValue::String("x")));
    assert!(matches!(Value::Null(NullType::I64).as_sql(), SqlValue::Null(NullType::I64)));
    assert!(matches!(Value::Binary(vec![1, 2]).as_sql(), SqlValue::Binary(&[1, 2])));
}

#[test]
fn nested_conditions_append_in_prefix_order() {
    let mut ctx = QueryContext::new();
    let condition = Ternary {
        operator: TernaryOperator::Between,
        fst_arg: Value::I64(5),
        snd_arg: Value::I64(1),
        trd_arg: Unary { operator: UnaryOperator::Not, fst_arg: Value::Bool(false) },
    };
    assert_eq!(ctx.add_condition(&condition), 0);
    // ternary + 3 arguments, the last of which is a unary with one argument
    assert_eq!(ctx.conditions_len(), 5);
    assert_eq!(ctx.values_len(), 3);
}

#[test]
fn not_in_negates_the_membership_test() {
    let mut ctx = QueryContext::new();
    let condition = In {
        operator: InOperator::NotIn,
        fst_arg: Value::I32(1),
        snd_arg: vec![Value::I32(1), Value::I32(2), Value::I32(3)],
    };
    ctx.add_condition(&condition);
    // a negation, then the same collection as for IN
    assert_eq!(ctx.conditions_len(), 1 + 1 + 3 * 3 + 1);
    assert_eq!(ctx.values_len(), 6);
}

#[test]
fn empty_not_in_is_a_single_value() {
    let mut ctx = QueryContext::new();
    let condition: In<Value, Value> = In { operator: InOperator::NotIn, fst_arg: Value::I32(1), snd_arg: vec![] };
    ctx.add_condition(&condition);
    assert_eq!(ctx.values_len(), 1);
    assert_eq!(ctx.conditions_len(), 1);
}

#[test]
fn in_condition_appends_members() {
    let mut ctx = QueryContext::new();
    let condition = In {
        operator: InOperator::In,
        fst_arg: Value::I32(1),
        snd_arg: vec![Value::I32(1), Value::I32(2), Value::I32(3)],
    };
    ctx.add_condition(&condition);
    // one comparison per member, each repeating the left side
    assert_eq!(ctx.values_len(), 6);
    assert_eq!(ctx.conditions_len(), 1 + 3 * 3 + 1);
    let binary = Binary {
        operator: BinaryOperator::Equals,
        fst_arg: Value::I64(1),
        snd_arg: Value::I64(1),
    };
    let index = ctx.add_condition(&binary);
    assert_eq!(index, ctx.conditions_len() - 3);
}
