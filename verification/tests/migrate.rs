use rorm_lib::migrate::{last_migration_query, last_migration_table_name, plan_migrations, PlanError};

fn ids(names: &[&str]) -> Vec<String> {
    names.iter().map(|s| s.to_string()).collect()
}

#[test]
fn default_table_name() {
    assert_eq!(last_migration_table_name(None), "_rorm__last_migration");
    assert_eq!(last_migration_table_name(Some("applied".to_string())), "applied");
}

#[test]
fn query_for_last_migration() {
    assert_eq!(
        last_migration_query("_rorm__last_migration"),
        "SELECT migration_name FROM _rorm__last_migration ORDER BY id DESC LIMIT 1;"
    );
}

#[test]
fn nothing_applied_applies_all() {
    assert_eq!(plan_migrations(&ids(&["0001", "0002"]), None).unwrap(), 0);
}

#[test]
fn applies_those_after_the_last_applied() {
    let existing = ids(&["0001", "0002", "0003"]);
    assert_eq!(plan_migrations(&existing, Some("0001".to_string())).unwrap(), 1);
    assert_eq!(plan_migrations(&existing, Some("0002".to_string())).unwrap(), 2);
}

#[test]
fn rerun_applies_nothing() {
    let existing = ids(&["0001", "0002", "0003"]);
    assert_eq!(plan_migrations(&existing, Some("0003".to_string())).unwrap(), existing.len());
}

#[test]
fn unknown_last_migration_is_an_error() {
    let existing = ids(&["0001", "0002"]);
    match plan_migrations(&existing, Some("0999".to_string())) {
        Err(PlanError::LastMigrationNotFound(id)) => assert_eq!(id, "0999"),
        Ok(_) => panic!("an unknown migration must not be planned"),
    }
}
