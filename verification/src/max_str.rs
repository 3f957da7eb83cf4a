//! Strings restricted to a maximum length.
use vstd::prelude::*;
use std::marker::PhantomData;

use crate::alias::{az_alias, az_valid};
use crate::const_concat::utf8_len;
use vstd::utf8::encode_utf8;
use crate::query_context::{PathId, QueryContext};

verus! {

/// A definition of a string's "length".
///
/// Databases differ in what they count, so the length used by a [`MaxStr`] is pluggable.
pub trait LenImpl {
    /// The length of a string with the characters `s`.
    spec fn spec_len(s: Seq<char>) -> nat;

    /// Compute the length of `string`.
    fn len(&self, string: &str) -> (n: usize)
        ensures
            n == Self::spec_len(string@),
    ;

    /// The empty string has length 0.
    proof fn lemma_empty_len()
        ensures
            Self::spec_len(Seq::<char>::empty()) == 0,
    ;
}

/// Counts the number of bytes a string takes in UTF-8.
#[derive(Copy, Clone, Debug, Default)]
pub struct NumBytes;

impl LenImpl for NumBytes {
    open spec fn spec_len(s: Seq<char>) -> nat {
        utf8_len(s)
    }

    fn len(&self, string: &str) -> (n: usize) {
        string.as_bytes().len()
    }

    proof fn lemma_empty_len() {
        assert(encode_utf8(Seq::<char>::empty()) =~= Seq::<u8>::empty());
    }
}

impl<'a, I: LenImpl> LenImpl for &'a I {
    open spec fn spec_len(s: Seq<char>) -> nat {
        I::spec_len(s)
    }

    fn len(&self, string: &str) -> (n: usize) {
        (**self).len(string)
    }

    proof fn lemma_empty_len() {
        I::lemma_empty_len();
    }
}

/// A type which dereferences to a string slice.
pub trait StrLike {
    /// The characters of the string.
    spec fn chars(&self) -> Seq<char>;

    /// Borrow the string slice.
    fn as_str_slice(&self) -> (s: &str)
        ensures
            s@ == self.chars(),
    ;
}

impl StrLike for String {
    open spec fn chars(&self) -> Seq<char> {
        self@
    }

    fn as_str_slice(&self) -> (s: &str) {
        self.as_str()
    }
}

impl<'a> StrLike for &'a str {
    open spec fn chars(&self) -> Seq<char> {
        (*self)@
    }

    fn as_str_slice(&self) -> (s: &str) {
        *self
    }
}

/// String which is restricted to a maximum length
///
/// When storing strings in a database you have to specify a maximum length
/// which is enforced by the database upon insertion or update.
/// This type forces you to perform this check before the database by having a fallible constructor.
///
/// The "length" of a string is not really a well-defined thing
/// and different databases might have different opinions.
/// So this type uses a generic `Impl: LenImpl` to select the definition of "length".
///
/// This type is also generic over the string implementation to also support `&str`.
#[derive(Debug)]
pub struct MaxStr<const MAX_LEN: usize, Impl: LenImpl, Str: StrLike> {
    string: Str,
    len_impl: Impl,
}

/// Error returned by [`MaxStr`]'s constructors when the input string is too long
#[derive(Debug)]
pub struct MaxLenError<Str> {
    /// The rejected string
    pub string: Str,
    /// The maximum length which was exceeded
    pub max: usize,
    /// The `string`'s length (according to the [`LenImpl`] which was used)
    pub got: usize,
}

impl<const MAX_LEN: usize, Impl: LenImpl, Str: StrLike> MaxStr<MAX_LEN, Impl, Str> {
    /// The wrapped string.
    pub closed spec fn string(&self) -> Str {
        self.string
    }

    /// The length definition in use.
    pub closed spec fn len_impl(&self) -> Impl {
        self.len_impl
    }

    #[verifier::type_invariant]
    closed spec fn within_limit(&self) -> bool {
        Impl::spec_len(self.string.chars()) <= MAX_LEN
    }

    /// Wraps a string returning `Err` if it is too long.
    pub fn new(string: Str) -> (r: Result<Self, MaxLenError<Str>>)
        where
            Impl: Default,
        ensures
            r is Ok <==> Impl::spec_len(string.chars()) <= MAX_LEN,
            r matches Ok(m) ==> m.string() == string,
            r matches Err(e) ==> e.string == string && e.max == MAX_LEN && e.got
                == Impl::spec_len(string.chars()),
    {
        Self::with_impl(string, Impl::default())
    }

    /// Wraps a string using a custom [`LenImpl`] returning `Err` if the string is too long.
    pub fn with_impl(string: Str, len_impl: Impl) -> (r: Result<Self, MaxLenError<Str>>)
        ensures
            r is Ok <==> Impl::spec_len(string.chars()) <= MAX_LEN,
            r matches Ok(m) ==> m.string() == string && m.len_impl() == len_impl,
            r matches Err(e) ==> e.string == string && e.max == MAX_LEN && e.got
                == Impl::spec_len(string.chars()),
    {
        let got = len_impl.len(string.as_str_slice());
        if got > MAX_LEN {
            Err(MaxLenError { string, max: MAX_LEN, got })
        } else {
            Ok(Self { string, len_impl })
        }
    }

    /// Returns the length of the wrapped `Str`.
    ///
    /// This method replaces `str::len`
    /// to return the length relevant to the limit.
    pub fn len(&self) -> (n: usize)
        ensures
            n == Impl::spec_len(self.string().chars()),
            n <= MAX_LEN,
    {
        proof {
            use_type_invariant(self);
        }
        self.len_impl.len(self.string.as_str_slice())
    }

    /// Borrow the wrapped string while remembering its `MAX_LEN`.
    pub fn as_ref(&self) -> (r: MaxStr<MAX_LEN, &Impl, &str>)
        ensures
            r.string()@ == self.string().chars(),
            *r.len_impl() == self.len_impl(),
    {
        proof {
            use_type_invariant(self);
        }
        MaxStr { string: self.string.as_str_slice(), len_impl: &self.len_impl }
    }

    /// Borrow the wrapped string as a plain string slice.
    pub fn as_str(&self) -> (s: &str)
        ensures
            s@ == self.string().chars(),
    {
        self.string.as_str_slice()
    }

    /// Unwraps the string.
    pub fn into_inner(self) -> (s: Str)
        ensures
            s == self.string(),
    {
        self.string
    }
}

impl<const MAX_LEN: usize, Impl: LenImpl + Default> Default for MaxStr<MAX_LEN, Impl, String> {
    /// The empty string, which fits every limit.
    fn default() -> (r: Self)
        ensures
            r.string()@ == Seq::<char>::empty(),
    {
        proof {
            Impl::lemma_empty_len();
        }
        MaxStr { string: String::new(), len_impl: Impl::default() }
    }
}

impl<'a, const MAX_LEN: usize, Impl: LenImpl + Default> Default for MaxStr<MAX_LEN, Impl, &'a str> {
    /// The empty string slice, which fits every limit.
    fn default() -> (r: Self)
        ensures
            r.string()@ == Seq::<char>::empty(),
    {
        let empty: &'a str = "";
        proof {
            Impl::lemma_empty_len();
            reveal_strlit("");
            assert(empty@ =~= Seq::<char>::empty());
        }
        MaxStr { string: empty, len_impl: Impl::default() }
    }
}

/// Where in a row a decoded column was looked up.
#[derive(Debug)]
pub enum RowIndex {
    /// By the column's alias
    Name(String),
    /// By the column's position
    Index(usize),
}

/// A column's value could not be decoded: it is longer than allowed.
#[derive(Debug)]
pub struct DecodeError {
    /// Where the column was looked up
    pub index: RowIndex,
    /// Why its value was refused
    pub source: MaxLenError<String>,
}

/// Decodes a selected column into a [`MaxStr`].
pub struct MaxStrDecoder<const MAX_LEN: usize, Impl: LenImpl> {
    column: String,
    index: usize,
    generics: PhantomData<Impl>,
}

/// Decodes a selected nullable column into an optional [`MaxStr`].
pub struct OptionMaxStrDecoder<const MAX_LEN: usize, Impl: LenImpl> {
    column: String,
    index: usize,
    generics: PhantomData<Impl>,
}

/// Whether `r` is the result of decoding `raw` into a `MaxStr`: the string itself if it
/// fits, else an error reporting its length.
pub open spec fn decoded<const MAX_LEN: usize, Impl: LenImpl>(
    r: Result<MaxStr<MAX_LEN, Impl, String>, DecodeError>,
    raw: Seq<char>,
) -> bool {
    &&& r is Ok <==> Impl::spec_len(raw) <= MAX_LEN
    &&& r matches Ok(m) ==> m.string()@ == raw
    &&& r matches Err(e) ==> {
        &&& e.source.string@ == raw
        &&& e.source.max == MAX_LEN
        &&& e.source.got == Impl::spec_len(raw)
    }
}

/// Whether `index` looks a column up by the alias `name`.
pub open spec fn by_alias(index: RowIndex, name: Seq<char>) -> bool {
    index matches RowIndex::Name(n) && n@ == name
}

fn decode_with<const MAX_LEN: usize, Impl: LenImpl + Default>(raw: String, index: RowIndex) -> (r:
    Result<MaxStr<MAX_LEN, Impl, String>, DecodeError>)
    ensures
        decoded::<MAX_LEN, Impl>(r, raw@),
        r matches Err(e) ==> e.index == index,
{
    match MaxStr::<MAX_LEN, Impl, String>::new(raw) {
        Ok(m) => Ok(m),
        Err(source) => Err(DecodeError { index, source }),
    }
}

/// Whether `r` is the result of decoding the nullable `raw` into an optional `MaxStr`.
pub open spec fn decoded_option<const MAX_LEN: usize, Impl: LenImpl>(
    r: Result<Option<MaxStr<MAX_LEN, Impl, String>>, DecodeError>,
    raw: Option<String>,
) -> bool {
    match raw {
        None => r matches Ok(None),
        Some(s) => {
            &&& r is Ok <==> Impl::spec_len(s@) <= MAX_LEN
            &&& r matches Ok(o) ==> o matches Some(m) && m.string()@ == s@
            &&& r matches Err(e) ==> {
                &&& e.source.string@ == s@
                &&& e.source.max == MAX_LEN
                &&& e.source.got == Impl::spec_len(s@)
            }
        },
    }
}

impl<const MAX_LEN: usize, Impl: LenImpl + Default> MaxStrDecoder<MAX_LEN, Impl> {
    /// The alias the column is selected under.
    pub closed spec fn column(&self) -> Seq<char> {
        self.column@
    }

    /// The column's position among the selected ones.
    pub closed spec fn index(&self) -> usize {
        self.index
    }

    /// Selects the column `column_name` of the table under `path` in `ctx`
    /// and returns the decoder for it.
    pub fn new(ctx: &mut QueryContext, path: PathId, column_name: &'static str) -> (d: Self)
        requires
            az_valid(old(ctx).selects().len()),
        ensures
            d.index() == old(ctx).selects().len(),
            d.column() == az_alias(old(ctx).selects().len()),
            final(ctx).selects().drop_last() == old(ctx).selects(),
            final(ctx).selects().len() == old(ctx).selects().len() + 1,
            final(ctx).selects().last().table_name == path,
            final(ctx).selects().last().column_name == column_name,
            final(ctx).selects().last().select_alias@ == d.column(),
            final(ctx).selects().last().aggregation is None,
            final(ctx).conditions() == old(ctx).conditions(),
            final(ctx).values() == old(ctx).values(),
            final(ctx).joins() == old(ctx).joins(),
            final(ctx).join_aliases() == old(ctx).join_aliases(),
            final(ctx).order_bys() == old(ctx).order_bys(),
            final(ctx).base_path() == old(ctx).base_path(),
    {
        let (index, column) = ctx.select_field(path, column_name);
        assert(ctx.selects().drop_last() =~= old(ctx).selects());
        MaxStrDecoder { column, index, generics: PhantomData }
    }

    /// Decodes the column's value, looked up by its alias.
    pub fn by_name(&self, raw: String) -> (r: Result<MaxStr<MAX_LEN, Impl, String>, DecodeError>)
        ensures
            decoded::<MAX_LEN, Impl>(r, raw@),
            r matches Err(e) ==> by_alias(e.index, self.column()),
    {
        decode_with(raw, RowIndex::Name(self.column.clone()))
    }

    /// Decodes the column's value, looked up by its position.
    pub fn by_index(&self, raw: String) -> (r: Result<MaxStr<MAX_LEN, Impl, String>, DecodeError>)
        ensures
            decoded::<MAX_LEN, Impl>(r, raw@),
            r matches Err(e) ==> e.index == RowIndex::Index(self.index()),
    {
        decode_with(raw, RowIndex::Index(self.index))
    }
}

impl<const MAX_LEN: usize, Impl: LenImpl + Default> OptionMaxStrDecoder<MAX_LEN, Impl> {
    /// The alias the column is selected under.
    pub closed spec fn column(&self) -> Seq<char> {
        self.column@
    }

    /// The column's position among the selected ones.
    pub closed spec fn index(&self) -> usize {
        self.index
    }

    /// Selects the column `column_name` of the table under `path` in `ctx`
    /// and returns the decoder for it.
    pub fn new(ctx: &mut QueryContext, path: PathId, column_name: &'static str) -> (d: Self)
        requires
            az_valid(old(ctx).selects().len()),
        ensures
            d.index() == old(ctx).selects().len(),
            d.column() == az_alias(old(ctx).selects().len()),
            final(ctx).selects().drop_last() == old(ctx).selects(),
            final(ctx).selects().len() == old(ctx).selects().len() + 1,
            final(ctx).selects().last().table_name == path,
            final(ctx).selects().last().column_name == column_name,
            final(ctx).selects().last().select_alias@ == d.column(),
            final(ctx).selects().last().aggregation is None,
            final(ctx).conditions() == old(ctx).conditions(),
            final(ctx).values() == old(ctx).values(),
            final(ctx).joins() == old(ctx).joins(),
            final(ctx).join_aliases() == old(ctx).join_aliases(),
            final(ctx).order_bys() == old(ctx).order_bys(),
            final(ctx).base_path() == old(ctx).base_path(),
    {
        let (index, column) = ctx.select_field(path, column_name);
        assert(ctx.selects().drop_last() =~= old(ctx).selects());
        OptionMaxStrDecoder { column, index, generics: PhantomData }
    }

    /// Decodes the column's nullable value, looked up by its alias.
    pub fn by_name(&self, raw: Option<String>) -> (r: Result<
        Option<MaxStr<MAX_LEN, Impl, String>>,
        DecodeError,
    >)
        ensures
            decoded_option::<MAX_LEN, Impl>(r, raw),
            r matches Err(e) ==> by_alias(e.index, self.column()),
    {
        match raw {
            None => Ok(None),
            Some(s) => match decode_with(s, RowIndex::Name(self.column.clone())) {
                Ok(m) => Ok(Some(m)),
                Err(e) => Err(e),
            },
        }
    }

    /// Decodes the column's nullable value, looked up by its position.
    ///
    /// An error reports the column by its alias, as [`OptionMaxStrDecoder::by_name`] does.
    pub fn by_index(&self, raw: Option<String>) -> (r: Result<
        Option<MaxStr<MAX_LEN, Impl, String>>,
        DecodeError,
    >)
        ensures
            decoded_option::<MAX_LEN, Impl>(r, raw),
            r matches Err(e) ==> by_alias(e.index, self.column()),
    {
        match raw {
            None => Ok(None),
            Some(s) => match decode_with(s, RowIndex::Name(self.column.clone())) {
                Ok(m) => Ok(Some(m)),
                Err(e) => Err(e),
            },
        }
    }
}

} // verus!
