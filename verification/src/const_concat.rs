//! Growable string and vector types with a fixed capacity, used to assemble
//! messages and column lists without a heap-based collection of unbounded size.
use vstd::prelude::*;
use vstd::utf8::*;

verus! {

broadcast use {encode_utf8_valid_utf8, encode_utf8_decode_utf8};

/// UTF-8 encoding distributes over concatenation.
pub proof fn lemma_encode_utf8_concat(a: Seq<char>, b: Seq<char>)
    ensures
        encode_utf8(a + b) == encode_utf8(a) + encode_utf8(b),
    decreases a.len(),
{
    if a.len() == 0 {
        assert(a + b =~= b);
        assert(encode_utf8(a) + encode_utf8(b) =~= encode_utf8(b));
    } else {
        lemma_encode_utf8_concat(a.drop_first(), b);
        assert((a + b).drop_first() =~= a.drop_first() + b);
        assert((a + b)[0] == a[0]);
        assert(encode_utf8(a + b) =~= encode_scalar(a[0] as u32) + (encode_utf8(a.drop_first())
            + encode_utf8(b)));
    }
}

/// Every character takes at most four bytes in UTF-8.
pub proof fn lemma_encode_utf8_len_bound(s: Seq<char>)
    ensures
        encode_utf8(s).len() <= 4 * s.len(),
    decreases s.len(),
{
    if s.len() > 0 {
        lemma_encode_utf8_len_bound(s.drop_first());
    }
}

/// The number of bytes `s` takes in UTF-8.
pub open spec fn utf8_len(s: Seq<char>) -> nat {
    encode_utf8(s).len()
}

/// All strings of `strings`, one after another.
pub open spec fn concat_all(strings: Seq<Seq<char>>) -> Seq<char>
    decreases strings.len(),
{
    if strings.len() == 0 {
        Seq::empty()
    } else {
        concat_all(strings.drop_last()) + strings.last()
    }
}

/// All sequences of `slices`, one after another.
pub open spec fn flatten_all<T>(slices: Seq<Seq<T>>) -> Seq<T>
    decreases slices.len(),
{
    if slices.len() == 0 {
        Seq::empty()
    } else {
        flatten_all(slices.drop_last()) + slices.last()
    }
}

/// A longer prefix of strings never takes fewer bytes.
proof fn lemma_concat_all_prefix_len(strings: Seq<Seq<char>>, i: int)
    requires
        0 <= i <= strings.len(),
    ensures
        utf8_len(concat_all(strings.take(i))) <= utf8_len(concat_all(strings)),
    decreases strings.len() - i,
{
    if i < strings.len() {
        lemma_concat_all_prefix_len(strings, i + 1);
        assert(strings.take(i + 1).drop_last() =~= strings.take(i));
        lemma_encode_utf8_concat(concat_all(strings.take(i)), strings[i]);
    } else {
        assert(strings.take(i) =~= strings);
    }
}

/// A longer prefix of slices never has fewer elements.
proof fn lemma_flatten_all_prefix_len<T>(slices: Seq<Seq<T>>, i: int)
    requires
        0 <= i <= slices.len(),
    ensures
        flatten_all(slices.take(i)).len() <= flatten_all(slices).len(),
    decreases slices.len() - i,
{
    if i < slices.len() {
        lemma_flatten_all_prefix_len(slices, i + 1);
        assert(slices.take(i + 1).drop_last() =~= slices.take(i));
    } else {
        assert(slices.take(i) =~= slices);
    }
}

/// A UTF-8–encoded, growable string holding at most `MAX_LEN` bytes.
#[derive(Debug)]
pub struct ConstString<const MAX_LEN: usize> {
    string: String,
}

impl<const MAX_LEN: usize> ConstString<MAX_LEN> {
    /// The string's characters.
    pub closed spec fn chars(&self) -> Seq<char> {
        self.string@
    }

    /// The number of bytes the string takes.
    pub open spec fn byte_len(&self) -> nat {
        utf8_len(self.chars())
    }

    #[verifier::type_invariant]
    closed spec fn fits(&self) -> bool {
        utf8_len(self.string@) <= MAX_LEN
    }

    /// Creates a new empty `ConstString`.
    pub fn new() -> (s: Self)
        ensures
            s.chars() == Seq::<char>::empty(),
    {
        let s = Self { string: String::new() };
        s
    }

    /// Extracts a string slice containing the entire `ConstString`.
    pub fn as_str(&self) -> (s: &str)
        ensures
            s@ == self.chars(),
    {
        self.string.as_str()
    }

    /// Appends a given string slice onto the end of this `ConstString`,
    ///
    /// returning `None` if the resulting string would be larger than `MAX_LEN`.
    pub fn push_str(self, string: &str) -> (r: Option<Self>)
        ensures
            r is Some <==> self.byte_len() + utf8_len(string@) <= MAX_LEN,
            r matches Some(r) ==> r.chars() == self.chars() + string@,
    {
        proof {
            use_type_invariant(&self);
        }
        let used = self.string.as_str().as_bytes().len();
        let extra = string.as_bytes().len();
        if extra > MAX_LEN - used {
            return None;
        }
        let mut inner = self.string;
        let ghost before = inner@;
        inner.append(string);
        proof {
            lemma_encode_utf8_concat(before, string@);
        }
        Some(Self { string: inner })
    }
}

impl<const MAX_LEN: usize> Clone for ConstString<MAX_LEN> {
    fn clone(&self) -> (c: Self)
        ensures
            c.chars() == self.chars(),
    {
        proof {
            use_type_invariant(self);
        }
        Self { string: self.string.clone() }
    }
}

impl ConstString<1024> {
    /// The message used when an error message does not fit.
    pub(crate) fn oom_error() -> (s: Self)
        ensures
            s.chars() == "The error message is longer than 1024 bytes. Try using shorter names or contact the library authors."@,
    {
        let message = "The error message is longer than 1024 bytes. Try using shorter names or contact the library authors.";
        proof {
            reveal_strlit("The error message is longer than 1024 bytes. Try using shorter names or contact the library authors.");
            lemma_encode_utf8_len_bound(message@);
        }
        Self { string: String::from_str(message) }
    }

    /// Concatenates `strings` into an error message,
    /// falling back to a fixed message when they would not fit.
    pub fn error(strings: &[&str]) -> (s: Self)
        ensures
            ({
                let all = concat_all(strings@.map_values(|x: &str| x@));
                if utf8_len(all) <= 1024 {
                    s.chars() == all
                } else {
                    s.chars() == "The error message is longer than 1024 bytes. Try using shorter names or contact the library authors."@
                }
            }),
    {
        let ghost views = strings@.map_values(|x: &str| x@);
        let mut string = Self::new();
        let mut i: usize = 0;
        while i < strings.len()
            invariant
                0 <= i <= strings.len(),
                views == strings@.map_values(|x: &str| x@),
                string.chars() == concat_all(views.take(i as int)),
            decreases strings.len() - i,
        {
            assert(views.take(i + 1).drop_last() =~= views.take(i as int));
            match string.push_str(strings[i]) {
                Some(ok) => {
                    string = ok;
                },
                None => {
                    proof {
                        lemma_encode_utf8_concat(concat_all(views.take(i as int)), views[i as int]);
                        assert(views.take(i + 1).last() == views[i as int]);
                        lemma_concat_all_prefix_len(views, i + 1);
                    }
                    return Self::oom_error();
                },
            }
            i += 1;
        }
        assert(views.take(i as int) =~= views);
        proof {
            use_type_invariant(&string);
        }
        string
    }
}

/// A contiguous growable array type holding at most `MAX_LEN` elements.
#[derive(Debug)]
pub struct ConstVec<T: Copy, const MAX_LEN: usize> {
    elems: Vec<T>,
}

impl<T: Copy, const MAX_LEN: usize> ConstVec<T, MAX_LEN> {
    /// The elements held.
    pub closed spec fn elems(&self) -> Seq<T> {
        self.elems@
    }

    #[verifier::type_invariant]
    closed spec fn fits(&self) -> bool {
        self.elems@.len() <= MAX_LEN
    }

    /// Creates a new empty `ConstVec`.
    pub fn new() -> (v: Self)
        ensures
            v.elems() == Seq::<T>::empty(),
    {
        Self { elems: Vec::new() }
    }

    /// Extracts a slice containing the entire vector.
    pub fn as_slice(&self) -> (s: &[T])
        ensures
            s@ == self.elems(),
    {
        self.elems.as_slice()
    }

    /// Copies and appends all elements in a slice to the `ConstVec`,
    ///
    /// returning `None` if the result would hold more than `MAX_LEN` elements.
    pub fn extend_from_slice(self, slice: &[T]) -> (r: Option<Self>)
        ensures
            r is Some <==> self.elems().len() + slice@.len() <= MAX_LEN,
            r matches Some(r) ==> r.elems() == self.elems() + slice@,
    {
        proof {
            use_type_invariant(&self);
        }
        if slice.len() > MAX_LEN - self.elems.len() {
            return None;
        }
        let mut elems = self.elems;
        let ghost before = elems@;
        let mut i: usize = 0;
        while i < slice.len()
            invariant
                0 <= i <= slice@.len(),
                before.len() + slice@.len() <= MAX_LEN,
                elems@ == before + slice@.take(i as int),
            decreases slice.len() - i,
        {
            elems.push(slice[i]);
            i += 1;
            assert(elems@ =~= before + slice@.take(i as int));
        }
        assert(slice@.take(i as int) =~= slice@);
        Some(Self { elems })
    }
}

impl<T: Copy, const MAX_LEN: usize> Clone for ConstVec<T, MAX_LEN> {
    fn clone(&self) -> (c: Self)
        ensures
            c.elems() == self.elems(),
    {
        proof {
            use_type_invariant(self);
        }
        let mut elems: Vec<T> = Vec::new();
        let mut i: usize = 0;
        while i < self.elems.len()
            invariant
                0 <= i <= self.elems@.len(),
                elems@ == self.elems@.take(i as int),
            decreases self.elems@.len() - i,
        {
            elems.push(self.elems[i]);
            i += 1;
            assert(elems@ =~= self.elems@.take(i as int));
        }
        assert(self.elems@.take(i as int) =~= self.elems@);
        Self { elems }
    }
}

impl ConstVec<&'static str, 1024> {
    /// The message used when there are too many columns.
    pub(crate) fn oom_error() -> (s: ConstString<1024>)
        ensures
            s.chars() == "rorm doesn't support more than 1024 columns"@,
    {
        let message = "rorm doesn't support more than 1024 columns";
        let r = ConstString::<1024>::new().push_str(message);
        proof {
            reveal_strlit("rorm doesn't support more than 1024 columns");
            lemma_encode_utf8_len_bound(message@);
        }
        match r {
            Some(ok) => ok,
            None => {
                proof {
                    assert(false);
                }
                ConstString::<1024>::new()
            },
        }
    }

    /// Concatenates lists of column names,
    /// failing when there would be more than 1024 of them.
    pub fn columns(columns: &[&[&'static str]]) -> (r: Result<Self, ConstString<1024>>)
        ensures
            ({
                let all = flatten_all(columns@.map_values(|x: &[&'static str]| x@));
                match r {
                    Ok(v) => all.len() <= 1024 && v.elems() == all,
                    Err(e) => all.len() > 1024 && e.chars()
                        == "rorm doesn't support more than 1024 columns"@,
                }
            }),
    {
        let ghost views = columns@.map_values(|x: &[&'static str]| x@);
        let mut vec = Self::new();
        let mut i: usize = 0;
        while i < columns.len()
            invariant
                0 <= i <= columns.len(),
                views == columns@.map_values(|x: &[&'static str]| x@),
                vec.elems() == flatten_all(views.take(i as int)),
            decreases columns.len() - i,
        {
            assert(views.take(i + 1).drop_last() =~= views.take(i as int));
            match vec.extend_from_slice(columns[i]) {
                Some(some) => {
                    vec = some;
                },
                None => {
                    proof {
                        assert(views.take(i + 1).last() == views[i as int]);
                        lemma_flatten_all_prefix_len(views, i + 1);
                    }
                    return Err(Self::oom_error());
                },
            }
            i += 1;
        }
        assert(views.take(i as int) =~= views);
        proof {
            use_type_invariant(&vec);
        }
        Ok(vec)
    }
}

} // verus!
