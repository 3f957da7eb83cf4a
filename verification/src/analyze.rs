//! Analysis of a parsed `#[derive(Model)]` input: table and column names,
//! the `id` shorthand and the unique primary key.
//!
//! The parts of the input the analysis does not inspect (visibility, generics,
//! the field's type and the remaining field annotations) are carried through as
//! opaque payloads `V`, `G`, `T` and `X`.
use vstd::prelude::*;

use crate::naming::{ascii_lowercase, to_db_name};

verus! {

/// The model level annotations inside `#[rorm(...)]`.
pub struct ModelAnnotations {
    /// `rename = "..."`: the table name to use instead of the derived one.
    pub rename: Option<String>,
    /// `experimental_unregistered`
    pub experimental_unregistered: bool,
    /// `experimental_generics`
    pub experimental_generics: bool,
}

/// The field level annotations inside `#[rorm(...)]` which the analysis reads,
/// next to the ones it passes on unchanged (`other`).
pub struct ModelFieldAnnotations<X> {
    /// `id`: shorthand for `primary_key` and `auto_increment`.
    pub id: bool,
    /// `primary_key`
    pub primary_key: bool,
    /// `auto_increment`
    pub auto_increment: bool,
    /// `rename = "..."`: the column name to use instead of the derived one.
    pub rename: Option<String>,
    /// Every other annotation (`auto_create_time`, `unique`, `on_delete`, `default`, ...).
    pub other: X,
}

/// A field of the parsed model.
pub struct ParsedField<V, T, X> {
    pub vis: V,
    pub ident: String,
    pub ty: T,
    pub annos: ModelFieldAnnotations<X>,
}

/// The parsed `#[derive(Model)]` input.
pub struct ParsedModel<V, G, T, X> {
    pub vis: V,
    pub ident: String,
    pub generics: G,
    /// Whether the struct declares generic parameters.
    pub has_generics: bool,
    pub annos: ModelAnnotations,
    pub fields: Vec<ParsedField<V, T, X>>,
}

/// The annotations of an analyzed field, with the `id` shorthand resolved.
pub struct AnalyzedModelFieldAnnotations<X> {
    pub auto_increment: bool,
    pub primary_key: bool,
    pub other: X,
}

/// A field after analysis.
pub struct AnalyzedField<V, T, X> {
    pub vis: V,
    pub ident: String,
    /// The column's name in the database.
    pub column: String,
    /// The name of the unit struct generated for this field.
    pub unit: String,
    pub ty: T,
    pub annos: AnalyzedModelFieldAnnotations<X>,
}

/// A model after analysis.
pub struct AnalyzedModel<V, G, T, X> {
    pub vis: V,
    pub ident: String,
    /// The table's name in the database.
    pub table: String,
    pub fields: Vec<AnalyzedField<V, T, X>>,
    /// The primary key's index
    pub primary_key: usize,
    pub experimental_unregistered: bool,
    pub experimental_generics: G,
}

/// An error found by [`analyze_model`]. The `usize` is the index of the offending field.
#[derive(Clone, Copy, Debug, PartialEq, Eq)]
pub enum AnalyzeError {
    /// `experimental_generics` requires `experimental_unregistered`
    GenericsRequireUnregistered,
    /// Generic models are not supported yet.
    GenericModelsUnsupported,
    /// Table names can't contain a double underscore.
    TableNameDoubleUnderscore,
    /// Column names can't contain a double underscore.
    ColumnNameDoubleUnderscore(usize),
    /// `#[rorm(primary_key)]` is implied by `#[rorm(id)]`.
    PrimaryKeyImpliedById(usize),
    /// `#[rorm(auto_increment)]` is implied by `#[rorm(id)]`.
    AutoIncrementImpliedById(usize),
    /// Model misses a primary key.
    MissingPrimaryKey,
    /// Model has more than one primary key; one error per primary key.
    MultiplePrimaryKeys(usize),
}

/// Whether `s` contains two consecutive underscores.
pub open spec fn has_double_underscore(s: Seq<char>) -> bool {
    exists|i: int| 0 <= i && i + 1 < s.len() && #[trigger] s[i] == '_' && s[i + 1] == '_'
}

/// The database name of an item: its `rename`, or else its lower-cased identifier.
pub open spec fn db_name(rename: Option<String>, ident: Seq<char>) -> Seq<char> {
    match rename {
        Some(r) => r@,
        None => ascii_lowercase(ident),
    }
}

/// The name of a field's unit struct: `__{model}_{field}`.
pub open spec fn unit_name(model: Seq<char>, field: Seq<char>) -> Seq<char> {
    seq!['_', '_'] + model + seq!['_'] + field
}

/// Whether a field is a primary key, either explicitly or through `id`.
pub open spec fn is_primary_key<V, T, X>(f: ParsedField<V, T, X>) -> bool {
    f.annos.id || f.annos.primary_key
}

/// The errors reported for the field at index `i`, in order.
pub open spec fn field_errors<V, T, X>(i: int, f: ParsedField<V, T, X>) -> Seq<AnalyzeError> {
    (if has_double_underscore(db_name(f.annos.rename, f.ident@)) {
        seq![AnalyzeError::ColumnNameDoubleUnderscore(i as usize)]
    } else {
        seq![]
    }) + (if f.annos.id && f.annos.primary_key {
        seq![AnalyzeError::PrimaryKeyImpliedById(i as usize)]
    } else {
        seq![]
    }) + (if f.annos.id && f.annos.auto_increment {
        seq![AnalyzeError::AutoIncrementImpliedById(i as usize)]
    } else {
        seq![]
    })
}

/// The errors reported for the first `n` fields, in order.
pub open spec fn fields_errors<V, T, X>(fields: Seq<ParsedField<V, T, X>>, n: int) -> Seq<AnalyzeError>
    decreases n,
{
    if n <= 0 {
        seq![]
    } else {
        fields_errors(fields, n - 1) + field_errors(n - 1, fields[n - 1])
    }
}

/// The indices, in increasing order, of the primary keys among the first `n` fields.
pub open spec fn primary_key_indices<V, T, X>(fields: Seq<ParsedField<V, T, X>>, n: int) -> Seq<usize>
    decreases n,
{
    if n <= 0 {
        seq![]
    } else if is_primary_key(fields[n - 1]) {
        primary_key_indices(fields, n - 1).push((n - 1) as usize)
    } else {
        primary_key_indices(fields, n - 1)
    }
}

/// The errors about the primary key, given the indices of all primary keys.
pub open spec fn primary_key_errors(pks: Seq<usize>) -> Seq<AnalyzeError> {
    if pks.len() == 0 {
        seq![AnalyzeError::MissingPrimaryKey]
    } else if pks.len() == 1 {
        seq![]
    } else {
        pks.map_values(|i: usize| AnalyzeError::MultiplePrimaryKeys(i))
    }
}

/// The errors reported before the fields are looked at.
pub open spec fn header_errors<V, G, T, X>(m: ParsedModel<V, G, T, X>) -> Seq<AnalyzeError> {
    (if m.annos.experimental_generics && !m.annos.experimental_unregistered {
        seq![AnalyzeError::GenericsRequireUnregistered]
    } else {
        seq![]
    }) + (if m.has_generics && !m.annos.experimental_generics {
        seq![AnalyzeError::GenericModelsUnsupported]
    } else {
        seq![]
    }) + (if has_double_underscore(db_name(m.annos.rename, m.ident@)) {
        seq![AnalyzeError::TableNameDoubleUnderscore]
    } else {
        seq![]
    })
}

/// Every error reported for a model, in the order they are reported.
pub open spec fn model_errors<V, G, T, X>(m: ParsedModel<V, G, T, X>) -> Seq<AnalyzeError> {
    header_errors(m) + fields_errors(m.fields@, m.fields@.len() as int) + primary_key_errors(
        primary_key_indices(m.fields@, m.fields@.len() as int),
    )
}

/// Whether `a` is the analysis of the parsed field `f` of the model named `model`.
pub open spec fn analyzes_field<V, T, X>(
    model: Seq<char>,
    f: ParsedField<V, T, X>,
    a: AnalyzedField<V, T, X>,
) -> bool {
    &&& a.vis == f.vis
    &&& a.ident@ == f.ident@
    &&& a.column@ == db_name(f.annos.rename, f.ident@)
    &&& a.unit@ == unit_name(model, f.ident@)
    &&& a.ty == f.ty
    &&& a.annos.primary_key == is_primary_key(f)
    &&& a.annos.auto_increment == (f.annos.id || f.annos.auto_increment)
    &&& a.annos.other == f.annos.other
}

/// Checks whether `s` contains two consecutive underscores.
fn contains_double_underscore(s: &str) -> (r: bool)
    ensures
        r == has_double_underscore(s@),
{
    let mut prev_underscore = false;
    broadcast use vstd::string::axiom_spec_iter;
    for c in it: s.chars()
        invariant
            it.seq() == s@,
            prev_underscore == (it.index() > 0 && s@[it.index() - 1] == '_'),
            forall|j: int|
                0 <= j && j + 1 < it.index() ==> !(#[trigger] s@[j] == '_' && s@[j + 1] == '_'),
    {
        let ghost i = it.index();
        assert(c == s@[i]);
        if prev_underscore && c == '_' {
            assert(s@[i - 1] == '_' && s@[(i - 1) + 1] == '_');
            return true;
        }
        prev_underscore = c == '_';
    }
    assert forall|j: int| 0 <= j && j + 1 < s@.len() implies !(#[trigger] s@[j] == '_' && s@[j
        + 1] == '_') by {}
    false
}

/// The database name from an optional rename and an identifier.
fn resolve_name(rename: Option<String>, ident: &String) -> (r: String)
    ensures
        r@ == db_name(rename, ident@),
{
    match rename {
        Some(r) => r,
        None => to_db_name(ident.clone()),
    }
}

/// Builds `__{model}_{field}`.
fn make_unit_name(model: &String, field: &String) -> (r: String)
    ensures
        r@ == unit_name(model@, field@),
{
    let mut unit = String::from_str("__");
    unit.append(model.as_str());
    unit.append("_");
    unit.append(field.as_str());
    proof {
        reveal_strlit("__");
        reveal_strlit("_");
        assert(unit@ =~= unit_name(model@, field@));
    }
    unit
}

/// Analyzes the field at index `i` of the model named `model`, reporting its errors.
fn analyze_field<V, T, X>(
    i: usize,
    model: &String,
    field: ParsedField<V, T, X>,
    errors: &mut Vec<AnalyzeError>,
) -> (a: AnalyzedField<V, T, X>)
    ensures
        analyzes_field(model@, field, a),
        final(errors)@ == old(errors)@ + field_errors(i as int, field),
{
    let ghost f = field;
    let ParsedField { vis, ident, ty, annos } = field;
    let ModelFieldAnnotations { id, mut primary_key, mut auto_increment, rename, other } = annos;
    let column = resolve_name(rename, &ident);
    if contains_double_underscore(column.as_str()) {
        errors.push(AnalyzeError::ColumnNameDoubleUnderscore(i));
    }
    if id {
        if primary_key {
            errors.push(AnalyzeError::PrimaryKeyImpliedById(i));
        }
        if auto_increment {
            errors.push(AnalyzeError::AutoIncrementImpliedById(i));
        }
        primary_key = true;
        auto_increment = true;
    }
    assert(errors@ =~= old(errors)@ + field_errors(i as int, f));
    let unit = make_unit_name(model, &ident);
    AnalyzedField {
        vis,
        ident,
        column,
        unit,
        ty,
        annos: AnalyzedModelFieldAnnotations { auto_increment, primary_key, other },
    }
}

/// Analyzes a parsed model.
///
/// On success the table and column names are resolved, `id` is expanded into
/// `primary_key` and `auto_increment`, and the index of the unique primary key is known.
/// Otherwise every error is reported, in the order of [`model_errors`].
pub fn analyze_model<V, G, T, X>(parsed: ParsedModel<V, G, T, X>) -> (r: Result<
    AnalyzedModel<V, G, T, X>,
    Vec<AnalyzeError>,
>)
    ensures
        r is Ok <==> model_errors(parsed).len() == 0,
        r matches Err(e) ==> e@ == model_errors(parsed),
        r matches Ok(a) ==> {
            &&& a.vis == parsed.vis
            &&& a.ident@ == parsed.ident@
            &&& a.table@ == db_name(parsed.annos.rename, parsed.ident@)
            &&& a.experimental_unregistered == parsed.annos.experimental_unregistered
            &&& a.experimental_generics == parsed.generics
            &&& a.fields@.len() == parsed.fields@.len()
            &&& forall|i: int|
                0 <= i < a.fields@.len() ==> analyzes_field(
                    parsed.ident@,
                    #[trigger] parsed.fields@[i],
                    a.fields@[i],
                )
            &&& primary_key_indices(parsed.fields@, parsed.fields@.len() as int) == seq![
                a.primary_key,
            ]
        },
{
    let ghost m = parsed;
    let ParsedModel { vis, ident, generics, has_generics, annos, fields } = parsed;
    let ModelAnnotations { rename, experimental_unregistered, experimental_generics } = annos;
    let mut errors: Vec<AnalyzeError> = Vec::new();

    if experimental_generics && !experimental_unregistered {
        errors.push(AnalyzeError::GenericsRequireUnregistered);
    }
    if has_generics && !experimental_generics {
        errors.push(AnalyzeError::GenericModelsUnsupported);
    }
    let table = resolve_name(rename, &ident);
    if contains_double_underscore(table.as_str()) {
        errors.push(AnalyzeError::TableNameDoubleUnderscore);
    }
    assert(errors@ =~= header_errors(m));

    let n = fields.len();
    let mut analyzed: Vec<AnalyzedField<V, T, X>> = Vec::new();
    let mut primary_keys: Vec<usize> = Vec::new();
    let mut i: usize = 0;
    broadcast use vstd::std_specs::vec::axiom_spec_into_iter;
    for field in it: fields
        invariant
            it.seq() == m.fields@,
            n == m.fields@.len(),
            i == it.index(),
            analyzed@.len() == i,
            forall|j: int|
                0 <= j < i ==> analyzes_field(m.ident@, #[trigger] m.fields@[j], analyzed@[j]),
            ident@ == m.ident@,
            errors@ == header_errors(m) + fields_errors(m.fields@, i as int),
            primary_keys@ == primary_key_indices(m.fields@, i as int),
    {
        assert(field == m.fields@[i as int]);
        let a = analyze_field(i, &ident, field, &mut errors);
        if a.annos.primary_key {
            primary_keys.push(i);
        }
        analyzed.push(a);
        i = i + 1;
    }
    let ghost pks = primary_key_indices(m.fields@, n as int);
    let mut primary_key: usize = usize::MAX;
    if primary_keys.len() == 1 {
        primary_key = primary_keys[0];
    } else if primary_keys.len() == 0 {
        errors.push(AnalyzeError::MissingPrimaryKey);
    } else {
        let mut k: usize = 0;
        let ghost start = errors@;
        while k < primary_keys.len()
            invariant
                k <= primary_keys@.len(),
                primary_keys@ == pks,
                errors@ == start + pks.take(k as int).map_values(
                    |p: usize| AnalyzeError::MultiplePrimaryKeys(p),
                ),
            decreases primary_keys@.len() - k,
        {
            errors.push(AnalyzeError::MultiplePrimaryKeys(primary_keys[k]));
            assert(pks.take(k + 1) =~= pks.take(k as int).push(pks[k as int]));
            k = k + 1;
        }
        assert(pks.take(k as int) =~= pks);
    }
    assert(errors@ =~= model_errors(m));
    if errors.len() == 0 {
        Ok(
            AnalyzedModel {
                vis,
                ident,
                table,
                fields: analyzed,
                primary_key,
                experimental_unregistered,
                experimental_generics: generics,
            },
        )
    } else {
        Err(errors)
    }
}

proof fn lemma_no_field_errors<V, T, X>(fields: Seq<ParsedField<V, T, X>>, n: int)
    requires
        0 <= n <= fields.len(),
        fields_errors(fields, n).len() == 0,
    ensures
        forall|i: int| 0 <= i < n ==> (#[trigger] field_errors(i, fields[i])).len() == 0,
    decreases n,
{
    if n > 0 {
        lemma_no_field_errors(fields, n - 1);
    }
}

/// A model that analyzes without errors has a table name and column names free of
/// double underscores, no field repeating what `id` implies, and exactly one primary key.
pub proof fn lemma_analyzed_model_is_clean<V, G, T, X>(m: ParsedModel<V, G, T, X>)
    requires
        model_errors(m).len() == 0,
    ensures
        !has_double_underscore(db_name(m.annos.rename, m.ident@)),
        forall|i: int|
            0 <= i < m.fields@.len() ==> !has_double_underscore(
                db_name((#[trigger] m.fields@[i]).annos.rename, m.fields@[i].ident@),
            ) && !(m.fields@[i].annos.id && (m.fields@[i].annos.primary_key
                || m.fields@[i].annos.auto_increment)),
        primary_key_indices(m.fields@, m.fields@.len() as int).len() == 1,
{
    let n = m.fields@.len() as int;
    assert(header_errors(m).len() == 0);
    assert(fields_errors(m.fields@, n).len() == 0);
    lemma_no_field_errors(m.fields@, n);
    assert forall|i: int| 0 <= i < n implies !has_double_underscore(
        db_name((#[trigger] m.fields@[i]).annos.rename, m.fields@[i].ident@),
    ) && !(m.fields@[i].annos.id && (m.fields@[i].annos.primary_key
        || m.fields@[i].annos.auto_increment)) by {
        assert(field_errors(i, m.fields@[i]).len() == 0);
    }
    let pks = primary_key_indices(m.fields@, n);
    assert(primary_key_errors(pks).len() == 0);
    if pks.len() > 1 {
        assert(primary_key_errors(pks).len() == pks.len());
    }
}

} // verus!
