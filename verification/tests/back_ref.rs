use rorm_lib::back_ref::{populate_bulk, BackRef};

#[test]
fn populate_overwrites_the_cache() {
    let mut back_ref: BackRef<&str> = BackRef::new();
    assert!(back_ref.cached.is_none());
    back_ref.populate(vec!["a", "b"]);
    assert_eq!(back_ref.cached, Some(vec!["a", "b"]));
    back_ref.populate(vec![]);
    assert_eq!(back_ref.cached, Some(vec![]));
}

#[test]
fn bulk_groups_by_key_in_order() {
    let caches = populate_bulk(&vec![1, 2, 3], vec![(2, "x"), (1, "y"), (2, "z")]);
    assert_eq!(caches.len(), 3);
    assert_eq!(caches[0].cached, Some(vec!["y"]));
    assert_eq!(caches[1].cached, Some(vec!["x", "z"]));
    assert_eq!(caches[2].cached, Some(vec![]));
}

#[test]
fn bulk_populates_only_the_first_duplicate() {
    let caches = populate_bulk(&vec![5, 5, 6, 6], vec![(5, 1u8)]);
    assert_eq!(caches[0].cached, Some(vec![1]));
    assert_eq!(caches[1].cached, None);
    // nothing references 6: every model with that key gets an empty cache
    assert_eq!(caches[2].cached, Some(vec![]));
    assert_eq!(caches[3].cached, Some(vec![]));
}

#[test]
fn bulk_of_one_equals_populate() {
    let instances = vec![(4, 'a'), (4, 'b')];
    let bulk = populate_bulk(&vec![4], instances.clone());
    let mut single = BackRef::new();
    single.populate(instances.into_iter().map(|(_, m)| m).collect());
    assert_eq!(bulk[0].cached, single.cached);
}
