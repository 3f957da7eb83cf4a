use rorm_lib::naming::to_db_name;

#[test]
fn to_db_name_lowercases_ascii() {
    assert_eq!(to_db_name("UserProfile".to_string()), "userprofile");
    assert_eq!(to_db_name("already_lower".to_string()), "already_lower");
    assert_eq!(to_db_name("ÄBC".to_string()), "Äbc");
    assert_eq!(to_db_name("ÄBC".to_string()).chars().count(), 3);
}

#[test]
fn to_db_name_is_idempotent() {
    let once = to_db_name("MixedCase_Name42".to_string());
    let twice = to_db_name(once.clone());
    assert_eq!(once, twice);
}
