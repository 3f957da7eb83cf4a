use rorm_lib::const_concat::{ConstString, ConstVec};

#[test]
fn error() {
    assert_eq!(
        ConstString::error(&["Hello ", "world"]).as_str(),
        "Hello world"
    );
}

#[test]
fn error_too_long_falls_back() {
    let long = "x".repeat(1000);
    let message = ConstString::error(&[long.as_str(), long.as_str()]);
    assert_eq!(
        message.as_str(),
        "The error message is longer than 1024 bytes. Try using shorter names or contact the library authors."
    );
}

#[test]
fn push_str_appends() {
    let s = ConstString::<8>::new().push_str("ab").unwrap().push_str("cd").unwrap();
    assert_eq!(s.as_str(), "abcd");
}

#[test]
fn push_str_refuses_overflow() {
    let s = ConstString::<4>::new().push_str("abc").unwrap();
    assert!(s.clone().push_str("de").is_none());
    assert_eq!(s.push_str("d").unwrap().as_str(), "abcd");
}

#[test]
fn push_str_counts_utf8_bytes() {
    // "ä" takes two bytes
    assert!(ConstString::<3>::new().push_str("ää").is_none());
    assert_eq!(ConstString::<4>::new().push_str("ää").unwrap().as_str(), "ää");
}

#[test]
fn extend_from_slice_keeps_order() {
    let v = ConstVec::<u8, 4>::new().extend_from_slice(&[1, 2]).unwrap();
    let v = v.extend_from_slice(&[3]).unwrap();
    assert_eq!(v.as_slice(), &[1, 2, 3]);
    assert!(v.extend_from_slice(&[4, 5]).is_none());
}

#[test]
fn columns_concatenates() {
    let columns = ConstVec::<&'static str, 1024>::columns(&[&["id", "name"], &[], &["age"]]).unwrap();
    assert_eq!(columns.as_slice(), &["id", "name", "age"]);
}

#[test]
fn columns_refuses_more_than_1024() {
    let many: Vec<&'static str> = vec!["c"; 1000];
    let err = ConstVec::<&'static str, 1024>::columns(&[many.as_slice(), many.as_slice()])
        .err()
        .unwrap();
    assert_eq!(err.as_str(), "rorm doesn't support more than 1024 columns");
}
