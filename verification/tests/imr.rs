use rorm_lib::annotations::Annotations;
use rorm_lib::conditions::NullType;
use rorm_lib::imr::{column_read_as, null_type_to_db_type, push_imr, DbType, ImrField, Source, UnsupportedColumn};

#[test]
fn null_types_map_to_db_types() {
    assert_eq!(null_type_to_db_type(NullType::String), DbType::VarChar);
    assert_eq!(null_type_to_db_type(NullType::Choice), DbType::Choices);
    assert_eq!(null_type_to_db_type(NullType::JsonValue), DbType::Binary);
    assert_eq!(null_type_to_db_type(NullType::ChronoDateTime), DbType::DateTime);
    assert_eq!(null_type_to_db_type(NullType::UuidSimple), DbType::Uuid);
}

#[test]
fn push_imr_adds_one_column_per_name() {
    let source = Source { file: "user.rs", line: 3, column: 5 };
    let mut annotations = Annotations::empty();
    annotations.max_length = Some(255);
    let mut imr: Vec<ImrField> = Vec::new();
    push_imr(&["name"], &[annotations], &[NullType::String], true, source, &mut imr);
    push_imr(&["a", "b"], &[Annotations::empty(), Annotations::empty()], &[NullType::I64, NullType::Bool], false, source, &mut imr);
    assert_eq!(imr.len(), 3);
    assert_eq!(imr[0].name, "name");
    assert_eq!(imr[0].db_type, DbType::VarChar);
    assert!(imr[0].annotations.nullable);
    assert_eq!(imr[0].annotations.max_length, Some(255));
    assert_eq!(imr[0].source_defined_at.unwrap().line, 3);
    assert_eq!(imr[2].name, "b");
    assert_eq!(imr[2].db_type, DbType::Boolean);
    assert!(!imr[2].annotations.nullable);
}

#[test]
fn push_imr_stops_at_the_shortest_list() {
    let source = Source { file: "x.rs", line: 1, column: 1 };
    let mut imr: Vec<ImrField> = Vec::new();
    push_imr(&["a", "b", "c"], &[Annotations::empty()], &[NullType::I32, NullType::I32], false, source, &mut imr);
    assert_eq!(imr.len(), 1);
}

#[test]
fn stored_columns_read_as() {
    assert_eq!(column_read_as(DbType::Choices), Ok(NullType::String));
    assert_eq!(column_read_as(DbType::Int8), Ok(NullType::I16));
    assert_eq!(column_read_as(DbType::Timestamp), Ok(NullType::I64));
    assert_eq!(column_read_as(DbType::Date), Err(UnsupportedColumn::RequiresChronoOrTime));
    assert_eq!(column_read_as(DbType::Uuid), Err(UnsupportedColumn::RequiresUuid));
    assert_eq!(column_read_as(DbType::BitVec), Err(UnsupportedColumn::RequiresPostgresOnly));
}

#[test]
fn declared_columns_read_back() {
    for null_type in [NullType::String, NullType::I64, NullType::I32, NullType::I16, NullType::Bool, NullType::F64, NullType::F32, NullType::Binary] {
        assert_eq!(column_read_as(null_type_to_db_type(null_type)), Ok(null_type));
    }
}
