use rorm_lib::max_str::{MaxStr, MaxStrDecoder, NumBytes, OptionMaxStrDecoder, RowIndex};
use rorm_lib::query_context::{PathId, QueryContext};

type Str8 = MaxStr<8, NumBytes, String>;

#[test]
fn new_accepts_short_strings() {
    let s = Str8::new("hello".to_string()).unwrap();
    assert_eq!(s.as_str(), "hello");
    assert_eq!(s.len(), 5);
    assert_eq!(s.into_inner(), "hello");
}

#[test]
fn new_accepts_exactly_max_len() {
    assert_eq!(Str8::new("12345678".to_string()).unwrap().len(), 8);
}

#[test]
fn new_rejects_long_strings() {
    let err = Str8::new("123456789".to_string()).err().unwrap();
    assert_eq!(err.string, "123456789");
    assert_eq!(err.max, 8);
    assert_eq!(err.got, 9);
}

#[test]
fn length_counts_utf8_bytes() {
    // four characters, eight bytes
    assert!(Str8::new("ääää".to_string()).is_ok());
    let err = Str8::new("äääää".to_string()).err().unwrap();
    assert_eq!(err.got, 10);
}

#[test]
fn with_impl_and_as_ref() {
    let s = MaxStr::<4, NumBytes, &str>::with_impl("abcd", NumBytes).unwrap();
    let r = s.as_ref();
    assert_eq!(r.as_str(), "abcd");
    assert_eq!(r.len(), 4);
    assert!(MaxStr::<4, NumBytes, &str>::with_impl("abcde", NumBytes).is_err());
}

#[test]
fn decoder_selects_its_column() {
    let mut ctx = QueryContext::new();
    let path = ctx.add_origin_path(PathId(1), "user");
    let first = MaxStrDecoder::<4, NumBytes>::new(&mut ctx, path, "name");
    let second = OptionMaxStrDecoder::<4, NumBytes>::new(&mut ctx, path, "nick");
    assert_eq!(ctx.selects_len(), 2);
    assert_eq!(first.by_index("abcd".to_string()).unwrap().as_str(), "abcd");
    assert_eq!(second.by_name(None).unwrap().is_none(), true);
}

#[test]
fn decoder_reports_too_long_values() {
    let mut ctx = QueryContext::new();
    let path = ctx.add_origin_path(PathId(1), "user");
    let _skipped = MaxStrDecoder::<4, NumBytes>::new(&mut ctx, path, "id");
    let decoder = MaxStrDecoder::<4, NumBytes>::new(&mut ctx, path, "name");
    let err = decoder.by_name("abcde".to_string()).err().unwrap();
    assert!(matches!(err.index, RowIndex::Name(ref n) if n == "b"));
    assert_eq!(err.source.got, 5);
    let err = decoder.by_index("abcde".to_string()).err().unwrap();
    assert!(matches!(err.index, RowIndex::Index(1)));
}

#[test]
fn option_decoder_reports_by_alias() {
    let mut ctx = QueryContext::new();
    let path = ctx.add_origin_path(PathId(1), "user");
    let decoder = OptionMaxStrDecoder::<2, NumBytes>::new(&mut ctx, path, "nick");
    assert_eq!(decoder.by_index(Some("ab".to_string())).unwrap().unwrap().as_str(), "ab");
    let err = decoder.by_index(Some("abc".to_string())).err().unwrap();
    assert!(matches!(err.index, RowIndex::Name(ref n) if n == "a"));
    assert_eq!(err.source.max, 2);
}

#[test]
fn default_is_empty() {
    let s: Str8 = Default::default();
    assert_eq!(s.as_str(), "");
    assert_eq!(s.len(), 0);
}

#[test]
fn default_str_slice_is_empty() {
    let s: MaxStr<0, NumBytes, &str> = Default::default();
    assert_eq!(s.as_str(), "");
}
