use rorm_lib::conditions::{Binary, BinaryOperator, Value};
use rorm_lib::query_context::{PathId, QueryContext, SelectAggregator, SortOrder};

#[test]
fn add_condition_returns_its_first_node() {
    let mut ctx = QueryContext::new();
    let first = ctx.add_condition(&Value::I64(1));
    assert_eq!(first, 0);
    let second = ctx.add_condition(&Binary {
        operator: BinaryOperator::Equals,
        fst_arg: Value::I32(1),
        snd_arg: Value::Bool(true),
    });
    assert_eq!(second, 1);
    assert_eq!(ctx.conditions_len(), 4);
    assert_eq!(ctx.values_len(), 3);
}

#[test]
fn selects_get_distinct_aliases() {
    let mut ctx = QueryContext::new();
    let path = ctx.add_origin_path(PathId(7), "post");
    assert_eq!(path, PathId(7));
    let (i, a) = ctx.select_field(path, "id");
    let (j, b) = ctx.select_aggregation(path, "likes", SelectAggregator::Count);
    assert_eq!((i, a.as_str()), (0, "a"));
    assert_eq!((j, b.as_str()), (1, "b"));
    let selects = ctx.get_selects();
    assert_eq!(selects.len(), 2);
    assert_eq!(selects[0].table_name, Some("post"));
    assert_eq!(selects[0].column_name, "id");
    assert_eq!(selects[1].select_alias, Some("b"));
    assert_eq!(selects[1].aggregation, Some(SelectAggregator::Count));
}

#[test]
fn returning_only_without_aggregation() {
    let mut ctx = QueryContext::new();
    assert_eq!(ctx.get_returning(), None);
    let path = ctx.add_origin_path(PathId(1), "user");
    ctx.select_field(path, "id");
    ctx.select_field(path, "name");
    assert_eq!(ctx.get_returning(), Some(vec!["id", "name"]));
    ctx.select_aggregation(path, "id", SelectAggregator::Max);
    assert_eq!(ctx.get_returning(), None);
}

#[test]
fn relation_path_adds_a_join_once() {
    let mut ctx = QueryContext::new();
    let origin = ctx.add_origin_path(PathId(1), "post");
    let user = ctx.add_relation_path(PathId(2), origin, "user", "id", "user");
    assert_eq!(user, PathId(2));
    assert_eq!(ctx.conditions_len(), 3);
    let again = ctx.add_relation_path(PathId(2), origin, "user", "id", "user");
    assert_eq!(again, PathId(2));
    assert_eq!(ctx.conditions_len(), 3);
    ctx.select_field(user, "name");
    let selects = ctx.get_selects();
    // the origin is aliased by its table, the join by the next letter
    assert_eq!(selects[0].table_name, Some("b"));
    assert_eq!(ctx.get_returning(), None);
}

#[test]
fn base_path_redirects_origin() {
    let mut ctx = QueryContext::new();
    let prev = ctx.set_base_path(PathId(9));
    assert_eq!(prev, None);
    assert_eq!(ctx.add_origin_path(PathId(1), "user"), PathId(9));
    ctx.restore_base_path(prev);
    assert_eq!(ctx.add_origin_path(PathId(1), "user"), PathId(1));
}

#[test]
fn order_bys_use_table_aliases() {
    let mut ctx = QueryContext::new();
    let path = ctx.add_origin_path(PathId(3), "thread");
    ctx.order_by_field(path, "opened_at", SortOrder::Desc);
    let order = ctx.get_order_bys();
    assert_eq!(order.len(), 1);
    assert_eq!(order[0].table_name, Some("thread"));
    assert_eq!(order[0].column_name, "opened_at");
    assert_eq!(order[0].ordering, SortOrder::Desc);
}
