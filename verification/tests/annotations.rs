use rorm_lib::fields::{Array, Columns};
use rorm_lib::fields::Contains;
use rorm_lib::annotations::{
    disallow_annotations_check, set_null_annotations, Annotations, ImplicitMaxLength,
    ImplicitMaxLengthAndNullable, OnAction,
};

#[test]
fn empty_has_nothing_set() {
    let a = Annotations::empty();
    assert!(!a.nullable && !a.primary_key && a.max_length.is_none() && a.foreign.is_none());
}

#[test]
fn set_null_keeps_the_rest() {
    let mut a = Annotations::empty();
    a.unique = true;
    a.on_delete = Some(OnAction::Cascade);
    let [b] = set_null_annotations(a);
    assert!(b.nullable);
    assert!(b.unique);
    assert_eq!(b.on_delete, Some(OnAction::Cascade));
}

#[test]
fn back_refs_take_no_annotations() {
    assert!(disallow_annotations_check(Annotations::empty(), [Annotations::empty(); 0]).is_ok());
    let mut a = Annotations::empty();
    a.index = None;
    a.nullable = true;
    let err = disallow_annotations_check(a, [Annotations::empty(); 1]).err().unwrap();
    assert_eq!(err.as_str(), "BackRef doesn't take any annotations");
}

#[test]
fn implicit_max_length() {
    let a = ImplicitMaxLength::<255>::item();
    assert_eq!(a.max_length, Some(255));
    assert!(!a.nullable);
    let b = ImplicitMaxLengthAndNullable::<16>::item();
    assert_eq!(b.max_length, Some(16));
    assert!(b.nullable);
}

#[test]
fn arrays_count_their_columns() {
    assert_eq!(Array::<1>::num(), 1);
    assert_eq!(Array::<3>::num(), 3);
}
