//! The annotations a model's author puts on a field, and the checks and
//! adjustments a field's type applies to them.
use vstd::prelude::*;

use crate::const_concat::{concat_all, lemma_encode_utf8_len_bound, ConstString};
use crate::fields::Contains;

verus! {

/// What happens to a row when the row it references is deleted or updated.
#[derive(Copy, Clone, Debug, PartialEq, Eq, Structural)]
pub enum OnAction {
    Restrict,
    Cascade,
    SetNull,
    SetDefault,
}

/// A column's default value.
#[derive(Copy, Clone, Debug)]
pub enum DefaultValue {
    String(&'static str),
    Integer(i64),
    Boolean(bool),
}

/// An index on a column, optionally named and prioritised.
#[derive(Copy, Clone, Debug)]
pub struct Index {
    pub name: Option<&'static str>,
    pub priority: Option<i32>,
}

/// The column a foreign key points to.
#[derive(Copy, Clone, Debug)]
pub struct ForeignKey {
    pub table_name: &'static str,
    pub column_name: &'static str,
}

/// The annotations of a field; `true` or `Some` where the annotation is set.
#[derive(Copy, Clone, Debug)]
pub struct Annotations {
    pub auto_create_time: bool,
    pub auto_update_time: bool,
    pub auto_increment: bool,
    pub choices: Option<&'static [&'static str]>,
    pub default: Option<DefaultValue>,
    pub index: Option<Index>,
    pub max_length: Option<i32>,
    pub on_delete: Option<OnAction>,
    pub on_update: Option<OnAction>,
    pub primary_key: bool,
    pub unique: bool,
    pub nullable: bool,
    pub foreign: Option<ForeignKey>,
}

/// The annotations with nothing set.
pub open spec fn no_annotations() -> Annotations {
    Annotations {
        auto_create_time: false,
        auto_update_time: false,
        auto_increment: false,
        choices: None,
        default: None,
        index: None,
        max_length: None,
        on_delete: None,
        on_update: None,
        primary_key: false,
        unique: false,
        nullable: false,
        foreign: None,
    }
}

impl Annotations {
    /// Whether no annotation is set.
    pub open spec fn is_empty(&self) -> bool {
        &&& !self.auto_create_time
        &&& !self.auto_update_time
        &&& !self.auto_increment
        &&& self.choices is None
        &&& self.default is None
        &&& self.index is None
        &&& self.max_length is None
        &&& self.on_delete is None
        &&& self.on_update is None
        &&& !self.primary_key
        &&& !self.unique
        &&& !self.nullable
        &&& self.foreign is None
    }

    /// Whether `self` and `other` are the same except for `nullable`.
    pub open spec fn same_except_nullable(&self, other: Annotations) -> bool {
        &&& self.auto_create_time == other.auto_create_time
        &&& self.auto_update_time == other.auto_update_time
        &&& self.auto_increment == other.auto_increment
        &&& self.choices == other.choices
        &&& self.default == other.default
        &&& self.index == other.index
        &&& self.max_length == other.max_length
        &&& self.on_delete == other.on_delete
        &&& self.on_update == other.on_update
        &&& self.primary_key == other.primary_key
        &&& self.unique == other.unique
        &&& self.foreign == other.foreign
    }

    /// No annotation at all.
    pub fn empty() -> (r: Self)
        ensures
            r == no_annotations(),
            r.is_empty(),
    {
        Annotations {
            auto_create_time: false,
            auto_update_time: false,
            auto_increment: false,
            choices: None,
            default: None,
            index: None,
            max_length: None,
            on_delete: None,
            on_update: None,
            primary_key: false,
            unique: false,
            nullable: false,
            foreign: None,
        }
    }
}

/// Adds `nullable` to a field's explicit annotations.
pub fn set_null_annotations(field: Annotations) -> (r: [Annotations; 1])
    ensures
        r[0].nullable,
        r[0].same_except_nullable(field),
{
    let mut field = field;
    field.nullable = true;
    [field]
}

/// The message reported for a field whose type takes no annotations.
pub open spec fn no_annotations_message() -> Seq<char> {
    "BackRef doesn't take any annotations"@
}

/// Checks a field's explicit annotations to be empty.
pub fn disallow_annotations_check<const N: usize>(field: Annotations, columns: [Annotations; N]) -> (r:
    Result<(), ConstString<1024>>)
    ensures
        r is Ok <==> field.is_empty(),
        r matches Err(e) ==> e.chars() == no_annotations_message(),
{
    if !field.auto_create_time && !field.auto_update_time && !field.auto_increment
        && field.choices.is_none() && field.default.is_none() && field.index.is_none()
        && field.max_length.is_none() && field.on_delete.is_none() && field.on_update.is_none()
        && !field.primary_key && !field.unique && !field.nullable && field.foreign.is_none() {
        Ok(())
    } else {
        let message = "BackRef doesn't take any annotations";
        let parts: [&str; 1] = [message];
        let e = ConstString::error(&parts);
        proof {
            reveal_strlit("BackRef doesn't take any annotations");
            lemma_encode_utf8_len_bound(message@);
            assert(parts@.map_values(|x: &str| x@) =~= seq![message@]);
            assert(seq![message@].drop_last() =~= Seq::<Seq<char>>::empty());
            assert(concat_all(Seq::<Seq<char>>::empty()) =~= Seq::<char>::empty());
            assert(concat_all(seq![message@]) =~= message@);
        }
        Err(e)
    }
}

/// Annotations which set `max_length` to `MAX_LEN`.
pub struct ImplicitMaxLength<const MAX_LEN: usize>;

impl<const MAX_LEN: usize> Contains<Annotations> for ImplicitMaxLength<MAX_LEN> {
    /// Only `max_length`, set to `MAX_LEN`.
    open spec fn spec_item() -> Annotations {
        Annotations { max_length: Some(MAX_LEN as i32), ..no_annotations() }
    }

    fn item() -> (r: Annotations) {
        let mut annos = Annotations::empty();
        annos.max_length = Some(MAX_LEN as i32);
        annos
    }
}

/// Annotations which set `max_length` to `MAX_LEN` and `nullable`.
pub struct ImplicitMaxLengthAndNullable<const MAX_LEN: usize>;

impl<const MAX_LEN: usize> Contains<Annotations> for ImplicitMaxLengthAndNullable<MAX_LEN> {
    /// Only `max_length`, set to `MAX_LEN`, and `nullable`.
    open spec fn spec_item() -> Annotations {
        Annotations { max_length: Some(MAX_LEN as i32), nullable: true, ..no_annotations() }
    }

    fn item() -> (r: Annotations) {
        let mut annos = Annotations::empty();
        annos.max_length = Some(MAX_LEN as i32);
        annos.nullable = true;
        annos
    }
}

} // verus!
