//! What the derive macros decide besides emitting tokens: the names of the items
//! they generate, and how a `#[derive(DbEnum)]` enum is stored as a choice and read back.
use vstd::prelude::*;

use crate::naming::str_equals;

verus! {

/// `__{ident}{suffix}`: the name of an item generated for the item named `ident`.
pub open spec fn generated_name(ident: Seq<char>, suffix: Seq<char>) -> Seq<char> {
    seq!['_', '_'] + ident + suffix
}

fn make_generated_name(ident: &str, suffix: &str) -> (r: String)
    ensures
        r@ == generated_name(ident@, suffix@),
{
    let mut name = String::from_str("__");
    name.append(ident);
    name.append(suffix);
    proof {
        reveal_strlit("__");
        assert(name@ =~= generated_name(ident@, suffix@));
    }
    name
}

/// The name of the decoder generated for a `#[derive(DbEnum)]` enum or a `#[derive(Patch)]`
/// struct: `__{ident}_Decoder`.
pub fn decoder_ident(ident: &str) -> (r: String)
    ensures
        r@ == generated_name(ident@, "_Decoder"@),
{
    make_generated_name(ident, "_Decoder")
}

/// The name of the enum a patch uses as its value space: `__{patch}_ValueSpaceImpl`.
pub fn value_space_impl_ident(patch: &str) -> (r: String)
    ensures
        r@ == generated_name(patch@, "_ValueSpaceImpl"@),
{
    make_generated_name(patch, "_ValueSpaceImpl")
}

/// The name of the value space's marker variant: `__{patch}_ValueSpaceImplMarker`.
pub fn value_space_marker_ident(patch: &str) -> (r: String)
    ensures
        r@ == generated_name(patch@, "_ValueSpaceImplMarker"@),
{
    make_generated_name(patch, "_ValueSpaceImplMarker")
}

/// The index of the first variant named `value`, if there is one.
pub open spec fn choice_index(variants: Seq<Seq<char>>, value: Seq<char>) -> Option<int> {
    if exists|i: int| 0 <= i < variants.len() && #[trigger] variants[i] == value {
        Some(
            choose|i: int|
                0 <= i < variants.len() && #[trigger] variants[i] == value && forall|k: int|
                    0 <= k < i ==> variants[k] != value,
        )
    } else {
        None
    }
}

/// The contents of a list of string slices.
pub open spec fn texts(v: Seq<&str>) -> Seq<Seq<char>> {
    v.map_values(|s: &str| s@)
}

/// The message of a choice that is no variant of the enum.
pub open spec fn invalid_choice_message(value: Seq<char>, enum_name: Seq<char>) -> Seq<char> {
    "Invalid value '"@ + value + "' for enum '"@ + enum_name + "'"@
}

/// Reads a stored choice back as the index of the `#[derive(DbEnum)]` enum's variant
/// of that name (the variants listed in declaration order), or fails with a message.
pub fn decode_choice(variants: &[&str], enum_name: &str, value: &str) -> (r: Result<usize, String>)
    ensures
        match choice_index(texts(variants@), value@) {
            Some(i) => r matches Ok(k) && k == i,
            None => r matches Err(m) && m@ == invalid_choice_message(value@, enum_name@),
        },
{
    let ghost names = texts(variants@);
    let mut i: usize = 0;
    while i < variants.len()
        invariant
            i <= variants@.len(),
            names == texts(variants@),
            forall|k: int| 0 <= k < i ==> names[k] != value@,
        decreases variants@.len() - i,
    {
        if str_equals(variants[i], value) {
            proof {
                assert(names[i as int] == value@);
                let j = choose|j: int|
                    0 <= j < names.len() && #[trigger] names[j] == value@ && forall|k: int|
                        0 <= k < j ==> names[k] != value@;
                assert(0 <= j < names.len() && names[j] == value@);
                if j < i {
                    assert(names[j] != value@);
                }
                if j > i {
                    assert(names[i as int] != value@);
                }
            }
            return Ok(i);
        }
        i = i + 1;
    }
    assert(!(exists|j: int| 0 <= j < names.len() && #[trigger] names[j] == value@));
    let mut m = String::from_str("Invalid value '");
    m.append(value);
    m.append("' for enum '");
    m.append(enum_name);
    m.append("'");
    Err(m)
}

/// Storing a variant of an enum with distinct variant names as its name, and reading the
/// choice back, gives the same variant.
pub proof fn lemma_choice_round_trip(variants: Seq<Seq<char>>, i: int)
    requires
        0 <= i < variants.len(),
        forall|a: int, b: int| 0 <= a < b < variants.len() ==> variants[a] != variants[b],
    ensures
        choice_index(variants, variants[i]) == Some(i),
{
    let j = choose|j: int|
        0 <= j < variants.len() && #[trigger] variants[j] == variants[i] && forall|k: int|
            0 <= k < j ==> variants[k] != variants[i];
    assert(0 <= j < variants.len() && variants[j] == variants[i]);
    if j < i {
        assert(variants[j] != variants[i]);
    }
    if j > i {
        assert(variants[i] != variants[i]);
    }
}

} // verus!
