use rorm_lib::djb2::Hasher;

#[test]
fn new_uses_seed() {
    assert_eq!(Hasher::new().0, 5381);
}

#[test]
fn write_hashes_bytes() {
    let mut h = Hasher::new();
    h.write(b"a");
    assert_eq!(h.0, 177604);
    let mut h = Hasher::new();
    h.write(b"hello");
    assert_eq!(h.0, 210631454183);
}

#[test]
fn write_in_pieces_equals_write_at_once() {
    let mut pieces = Hasher::new();
    pieces.write(b"hel");
    pieces.write(b"");
    pieces.write(b"lo");
    let mut once = Hasher::new();
    once.write(b"hello");
    assert_eq!(pieces, once);
}
