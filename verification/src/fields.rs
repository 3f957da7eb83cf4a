//! How a field type is described: the number of columns it is stored in, and
//! values attached to types.
use vstd::prelude::*;

verus! {

/// A type which stands for a value of type `T`.
pub trait Contains<T> {
    /// The value attached to / represented by `Self`
    spec fn spec_item() -> T;

    /// The value attached to / represented by `Self`
    fn item() -> (r: T)
        ensures
            r == Self::spec_item(),
    ;
}

/// The number of columns a field type is stored in.
pub trait Columns {
    /// The number of columns
    spec fn spec_num() -> nat;

    /// The number of columns
    fn num() -> (n: usize)
        ensures
            n == Self::spec_num(),
    ;
}

/// Implementor of [`Columns`] used to specify the number of a field type's columns
pub struct Array<const N: usize>;

impl<const N: usize> Columns for Array<N> {
    open spec fn spec_num() -> nat {
        N as nat
    }

    fn num() -> (n: usize) {
        N
    }
}

/// A struct whose fields are described by field types.
pub trait Struct: Sized {}

} // verus!
