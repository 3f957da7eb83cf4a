//! The intermediate model representation of a field's columns, and how the
//! columns of a stored model are read back.
use vstd::prelude::*;

use crate::annotations::Annotations;
use crate::conditions::NullType;

verus! {

/// A column's type in the database.
#[derive(Copy, Clone, Debug, PartialEq, Eq, Structural)]
pub enum DbType {
    VarChar,
    Binary,
    Int8,
    Int16,
    Int32,
    Int64,
    Float,
    Double,
    Boolean,
    Date,
    DateTime,
    Timestamp,
    Time,
    Choices,
    Uuid,
    MacAddress,
    IpNetwork,
    BitVec,
}

/// Where a field is defined in the source code.
#[derive(Copy, Clone, Debug)]
pub struct Source {
    pub file: &'static str,
    pub line: usize,
    pub column: usize,
}

/// A column in the intermediate model representation.
#[derive(Clone, Debug)]
pub struct ImrField {
    pub name: String,
    pub db_type: DbType,
    pub annotations: Annotations,
    pub source_defined_at: Option<Source>,
}

/// The column type used for values of a null type.
pub open spec fn db_type_of(null_type: NullType) -> DbType {
    match null_type {
        NullType::String => DbType::VarChar,
        NullType::Choice => DbType::Choices,
        NullType::I64 => DbType::Int64,
        NullType::I32 => DbType::Int32,
        NullType::I16 => DbType::Int16,
        NullType::Bool => DbType::Boolean,
        NullType::F64 => DbType::Double,
        NullType::F32 => DbType::Float,
        NullType::Binary => DbType::Binary,
        NullType::ChronoNaiveTime => DbType::Time,
        NullType::ChronoNaiveDate => DbType::Date,
        NullType::ChronoNaiveDateTime => DbType::DateTime,
        NullType::ChronoDateTime => DbType::DateTime,
        NullType::TimeDate => DbType::Date,
        NullType::TimeTime => DbType::Time,
        NullType::TimeOffsetDateTime => DbType::DateTime,
        NullType::TimePrimitiveDateTime => DbType::DateTime,
        NullType::Uuid => DbType::Uuid,
        NullType::UuidHyphenated => DbType::Uuid,
        NullType::UuidSimple => DbType::Uuid,
        NullType::JsonValue => DbType::Binary,
    }
}

/// The column type used for values of `null_type`.
pub fn null_type_to_db_type(null_type: NullType) -> (r: DbType)
    ensures
        r == db_type_of(null_type),
{
    match null_type {
        NullType::String => DbType::VarChar,
        NullType::Choice => DbType::Choices,
        NullType::I64 => DbType::Int64,
        NullType::I32 => DbType::Int32,
        NullType::I16 => DbType::Int16,
        NullType::Bool => DbType::Boolean,
        NullType::F64 => DbType::Double,
        NullType::F32 => DbType::Float,
        NullType::Binary => DbType::Binary,
        NullType::ChronoNaiveTime => DbType::Time,
        NullType::ChronoNaiveDate => DbType::Date,
        NullType::ChronoNaiveDateTime => DbType::DateTime,
        NullType::ChronoDateTime => DbType::DateTime,
        NullType::TimeDate => DbType::Date,
        NullType::TimeTime => DbType::Time,
        NullType::TimeOffsetDateTime => DbType::DateTime,
        NullType::TimePrimitiveDateTime => DbType::DateTime,
        NullType::Uuid => DbType::Uuid,
        NullType::UuidHyphenated => DbType::Uuid,
        NullType::UuidSimple => DbType::Uuid,
        NullType::JsonValue => DbType::Binary,
    }
}

/// Whether `f` is the column built from `name`, `annotations` and `null_type`
/// of a field defined at `source`, whose type is an `Option` when `is_option`.
pub open spec fn is_imr_column(
    f: ImrField,
    name: Seq<char>,
    annotations: Annotations,
    null_type: NullType,
    is_option: bool,
    source: Source,
) -> bool {
    &&& f.name@ == name
    &&& f.db_type == db_type_of(null_type)
    &&& f.annotations.same_except_nullable(annotations)
    &&& f.annotations.nullable == (annotations.nullable || is_option)
    &&& f.source_defined_at == Some(source)
}

/// Pushes a field's columns onto `imr`: one per position present in all of
/// `names`, `annotations` and `null_types`, in order.
/// A field whose type is an `Option` makes all its columns nullable.
pub fn push_imr(
    names: &[&str],
    annotations: &[Annotations],
    null_types: &[NullType],
    is_option: bool,
    source: Source,
    imr: &mut Vec<ImrField>,
)
    ensures
        ({
            let n = if names@.len() <= annotations@.len() && names@.len() <= null_types@.len() {
                names@.len()
            } else if annotations@.len() <= null_types@.len() {
                annotations@.len()
            } else {
                null_types@.len()
            };
            &&& final(imr)@.len() == old(imr)@.len() + n
            &&& forall|j: int| 0 <= j < old(imr)@.len() ==> final(imr)@[j] == old(imr)@[j]
            &&& forall|k: int|
                0 <= k < n ==> is_imr_column(
                    #[trigger] final(imr)@[old(imr)@.len() + k],
                    names@[k]@,
                    annotations@[k],
                    null_types@[k],
                    is_option,
                    source,
                )
        }),
{
    let ghost start = old(imr)@;
    let mut n = names.len();
    if annotations.len() < n {
        n = annotations.len();
    }
    if null_types.len() < n {
        n = null_types.len();
    }
    let mut k: usize = 0;
    while k < n
        invariant
            k <= n,
            n <= names@.len(),
            n <= annotations@.len(),
            n <= null_types@.len(),
            n == names@.len() || n == annotations@.len() || n == null_types@.len(),
            imr@.len() == start.len() + k,
            forall|j: int| 0 <= j < start.len() ==> imr@[j] == start[j],
            forall|i: int|
                0 <= i < k ==> is_imr_column(
                    #[trigger] imr@[start.len() + i],
                    names@[i]@,
                    annotations@[i],
                    null_types@[i],
                    is_option,
                    source,
                ),
        decreases n - k,
    {
        let mut column = annotations[k];
        column.nullable = column.nullable || is_option;
        imr.push(
            ImrField {
                name: String::from_str(names[k]),
                db_type: null_type_to_db_type(null_types[k]),
                annotations: column,
                source_defined_at: Some(source),
            },
        );
        k = k + 1;
    }
}

/// Why the columns of a stored model can not be read.
#[derive(Copy, Clone, Debug, PartialEq, Eq, Structural)]
pub enum UnsupportedColumn {
    /// Dates and times need the `chrono` or `time` feature.
    RequiresChronoOrTime,
    /// Uuids need the `uuid` feature.
    RequiresUuid,
    /// Mac addresses, ip networks and bit vectors need the `postgres-only` feature.
    RequiresPostgresOnly,
}

/// The null type a column of type `db_type` is read as, or why it can not be read.
pub open spec fn read_as(db_type: DbType) -> Result<NullType, UnsupportedColumn> {
    match db_type {
        DbType::VarChar | DbType::Choices => Ok(NullType::String),
        DbType::Binary => Ok(NullType::Binary),
        DbType::Int8 | DbType::Int16 => Ok(NullType::I16),
        DbType::Int32 => Ok(NullType::I32),
        DbType::Int64 | DbType::Timestamp => Ok(NullType::I64),
        DbType::Float => Ok(NullType::F32),
        DbType::Double => Ok(NullType::F64),
        DbType::Boolean => Ok(NullType::Bool),
        DbType::Date | DbType::DateTime | DbType::Time => Err(
            UnsupportedColumn::RequiresChronoOrTime,
        ),
        DbType::Uuid => Err(UnsupportedColumn::RequiresUuid),
        DbType::MacAddress | DbType::IpNetwork | DbType::BitVec => Err(
            UnsupportedColumn::RequiresPostgresOnly,
        ),
    }
}

/// Decides how a column of type `db_type` of a stored model is read:
/// the null type whose values it holds (and whose null stands for a missing value).
pub fn column_read_as(db_type: DbType) -> (r: Result<NullType, UnsupportedColumn>)
    ensures
        r == read_as(db_type),
{
    match db_type {
        DbType::VarChar | DbType::Choices => Ok(NullType::String),
        DbType::Binary => Ok(NullType::Binary),
        DbType::Int8 | DbType::Int16 => Ok(NullType::I16),
        DbType::Int32 => Ok(NullType::I32),
        DbType::Int64 | DbType::Timestamp => Ok(NullType::I64),
        DbType::Float => Ok(NullType::F32),
        DbType::Double => Ok(NullType::F64),
        DbType::Boolean => Ok(NullType::Bool),
        DbType::Date | DbType::DateTime | DbType::Time => Err(
            UnsupportedColumn::RequiresChronoOrTime,
        ),
        DbType::Uuid => Err(UnsupportedColumn::RequiresUuid),
        DbType::MacAddress | DbType::IpNetwork | DbType::BitVec => Err(
            UnsupportedColumn::RequiresPostgresOnly,
        ),
    }
}

/// A column declared for a string, integer, bool, float or binary value is read back
/// as values of that same null type.
pub proof fn lemma_declared_column_reads_back(null_type: NullType)
    requires
        null_type == NullType::String || null_type == NullType::I64 || null_type == NullType::I32
            || null_type == NullType::I16 || null_type == NullType::Bool || null_type
            == NullType::F64 || null_type == NullType::F32 || null_type == NullType::Binary,
    ensures
        read_as(db_type_of(null_type)) == Ok::<NullType, UnsupportedColumn>(null_type),
{
}

/// Null types of the same kind of value share a column type, and each kind has its own:
/// dates without a time are `Date`, times without a date are `Time`, a date with a time
/// (with or without an offset or zone) is `DateTime`, every uuid form is `Uuid`, text is
/// `VarChar`, integers keep their width, floats their precision, and json is stored as
/// `Binary`.
pub proof fn lemma_column_types_follow_value_kinds()
    ensures
        db_type_of(NullType::ChronoNaiveDate) == DbType::Date,
        db_type_of(NullType::TimeDate) == DbType::Date,
        db_type_of(NullType::ChronoNaiveTime) == DbType::Time,
        db_type_of(NullType::TimeTime) == DbType::Time,
        db_type_of(NullType::ChronoNaiveDateTime) == DbType::DateTime,
        db_type_of(NullType::ChronoDateTime) == DbType::DateTime,
        db_type_of(NullType::TimeOffsetDateTime) == DbType::DateTime,
        db_type_of(NullType::TimePrimitiveDateTime) == DbType::DateTime,
        db_type_of(NullType::Uuid) == DbType::Uuid,
        db_type_of(NullType::UuidHyphenated) == DbType::Uuid,
        db_type_of(NullType::UuidSimple) == DbType::Uuid,
        db_type_of(NullType::String) == DbType::VarChar,
        db_type_of(NullType::Choice) == DbType::Choices,
        db_type_of(NullType::I16) == DbType::Int16,
        db_type_of(NullType::I32) == DbType::Int32,
        db_type_of(NullType::I64) == DbType::Int64,
        db_type_of(NullType::F32) == DbType::Float,
        db_type_of(NullType::F64) == DbType::Double,
        db_type_of(NullType::Bool) == DbType::Boolean,
        db_type_of(NullType::Binary) == DbType::Binary,
        db_type_of(NullType::JsonValue) == DbType::Binary,
{
}

/// A date-only and a time-only or date-and-time value never share a column type.
pub proof fn lemma_temporal_kinds_kept_apart(date: NullType, other: NullType)
    requires
        date == NullType::ChronoNaiveDate || date == NullType::TimeDate,
        other == NullType::ChronoNaiveTime || other == NullType::TimeTime || other
            == NullType::ChronoNaiveDateTime || other == NullType::ChronoDateTime || other
            == NullType::TimeOffsetDateTime || other == NullType::TimePrimitiveDateTime,
    ensures
        db_type_of(date) != db_type_of(other),
{
}

} // verus!
