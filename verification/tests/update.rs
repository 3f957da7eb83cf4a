use rorm_lib::conditions::{SqlValue, Value};
use rorm_lib::update::UpdateBuilder;

struct Model;

#[test]
fn finish_dyn_set_without_columns_fails() {
    let builder = UpdateBuilder::<u8, Model, ()>::new(3).begin_dyn_set();
    let builder = builder.set_if("name", None);
    assert!(builder.finish_dyn_set().is_err());
}

#[test]
fn finish_dyn_set_with_columns_succeeds() {
    let builder = UpdateBuilder::<u8, Model, ()>::new(3)
        .begin_dyn_set()
        .set_if("name", Some(Value::String("bob".to_string())))
        .set("age", Value::I32(4));
    let builder = match builder.finish_dyn_set() {
        Ok(b) => b,
        Err(_) => panic!("columns were set"),
    };
    let columns = builder.columns_as_sql();
    assert_eq!(columns.len(), 2);
    assert_eq!(columns[0].0, "name");
    assert!(matches!(columns[0].1, SqlValue::String("bob")));
    assert!(matches!(columns[1].1, SqlValue::I32(4)));
    let (executor, values) = builder.into_parts();
    assert_eq!(executor, 3);
    assert_eq!(values.len(), 2);
}

#[test]
fn set_starts_a_non_empty_list() {
    let builder = UpdateBuilder::<(), Model, ()>::new(())
        .set("a", Value::Bool(true))
        .set("b", Value::I16(2));
    let (_, values) = builder.into_parts();
    assert_eq!(values.len(), 2);
    assert_eq!(values[1].0, "b");
}
