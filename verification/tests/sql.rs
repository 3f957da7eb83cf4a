use rorm_lib::conditions::SqlValue;
use rorm_lib::imr::DbType;
use rorm_lib::sql::{DBImpl, OnConflict, SQLAlterTableOperation};

#[test]
fn alter_table_rename_to() {
    let (sql, values) = DBImpl::SQLite
        .alter_table("user", SQLAlterTableOperation::RenameTo { name: "account".to_string() })
        .build();
    assert_eq!(sql, "ALTER TABLE user RENAME TO account");
    assert!(values.is_empty());
}

#[test]
fn alter_table_rename_column() {
    let (sql, _) = DBImpl::SQLite
        .alter_table(
            "user",
            SQLAlterTableOperation::RenameColumnTo {
                column_name: "name".to_string(),
                new_column_name: "username".to_string(),
            },
        )
        .build();
    assert_eq!(sql, "ALTER TABLE user RENAME COLUMN name TO username");
}

#[test]
fn alter_table_drop_column() {
    let (sql, _) = DBImpl::SQLite
        .alter_table("post", SQLAlterTableOperation::DropColumn { name: "likes".to_string() })
        .build();
    assert_eq!(sql, "ALTER TABLE post DROP COLUMN likes");
}

#[test]
fn statement_builders_start_empty() {
    let create = DBImpl::SQLite.create_table("thread");
    assert_eq!(create.name, "thread");
    assert!(create.columns.is_empty());
    assert!(!create.if_not_exists);
    let select = DBImpl::SQLite.select(&["id", "name"], "user");
    assert_eq!(select.resulting_columns, &["id", "name"]);
    assert_eq!(select.from_clause, "user");
    assert!(select.where_clause.is_none());
    let delete = DBImpl::SQLite.delete("post");
    assert_eq!(delete.model, "post");
}

#[test]
fn create_column_borrows_its_annotations() {
    let annotations = ["primary_key", "auto_increment"];
    let column = DBImpl::SQLite.create_column("_rorm__last_migration", "id", DbType::Int64, &annotations);
    assert_eq!(column.name, "id");
    assert_eq!(column.table_name, "_rorm__last_migration");
    assert_eq!(column.data_type, DbType::Int64);
    assert_eq!(column.annotations.len(), 2);
    assert_eq!(*column.annotations[1].annotation, "auto_increment");
}

#[test]
fn insert_aborts_on_conflict() {
    let values = [SqlValue::String("0001")];
    let rows: [&[SqlValue]; 1] = [&values];
    let insert = DBImpl::SQLite.insert("_rorm__last_migration", &["migration_name"], &rows);
    assert_eq!(insert.into_clause, "_rorm__last_migration");
    assert_eq!(insert.columns, &["migration_name"]);
    assert_eq!(insert.row_values.len(), 1);
    assert!(insert.lookup.is_empty());
    assert_eq!(insert.on_conflict, OnConflict::ABORT);
}
