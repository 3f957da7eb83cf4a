use rorm_lib::analyze::{
    analyze_model, AnalyzeError, ModelAnnotations, ModelFieldAnnotations, ParsedField, ParsedModel,
};

fn field(ident: &str, id: bool, primary_key: bool, auto_increment: bool) -> ParsedField<(), &'static str, u8> {
    ParsedField {
        vis: (),
        ident: ident.to_string(),
        ty: "i64",
        annos: ModelFieldAnnotations { id, primary_key, auto_increment, rename: None, other: 7 },
    }
}

fn model(ident: &str, fields: Vec<ParsedField<(), &'static str, u8>>) -> ParsedModel<(), (), &'static str, u8> {
    ParsedModel {
        vis: (),
        ident: ident.to_string(),
        generics: (),
        has_generics: false,
        annos: ModelAnnotations { rename: None, experimental_unregistered: false, experimental_generics: false },
        fields,
    }
}

#[test]
fn analyzes_a_valid_model() {
    let parsed = model("BlogPost", vec![field("id", true, false, false), field("Title", false, false, false)]);
    let analyzed = analyze_model(parsed).ok().unwrap();
    assert_eq!(analyzed.table, "blogpost");
    assert_eq!(analyzed.primary_key, 0);
    assert_eq!(analyzed.fields.len(), 2);
    assert_eq!(analyzed.fields[0].column, "id");
    assert_eq!(analyzed.fields[0].unit, "__BlogPost_id");
    assert!(analyzed.fields[0].annos.primary_key);
    assert!(analyzed.fields[0].annos.auto_increment);
    assert_eq!(analyzed.fields[1].column, "title");
    assert_eq!(analyzed.fields[1].unit, "__BlogPost_Title");
    assert!(!analyzed.fields[1].annos.primary_key);
    assert_eq!(analyzed.fields[1].annos.other, 7);
}

#[test]
fn rename_overrides_names() {
    let mut parsed = model("User", vec![field("id", true, false, false)]);
    parsed.annos.rename = Some("Accounts".to_string());
    parsed.fields[0].annos.rename = Some("UID".to_string());
    let analyzed = analyze_model(parsed).ok().unwrap();
    assert_eq!(analyzed.table, "Accounts");
    assert_eq!(analyzed.fields[0].column, "UID");
}

#[test]
fn missing_primary_key() {
    let parsed = model("User", vec![field("name", false, false, false)]);
    assert_eq!(analyze_model(parsed).err().unwrap(), vec![AnalyzeError::MissingPrimaryKey]);
}

#[test]
fn multiple_primary_keys() {
    let parsed = model(
        "User",
        vec![field("a", true, false, false), field("b", false, false, false), field("c", false, true, false)],
    );
    assert_eq!(
        analyze_model(parsed).err().unwrap(),
        vec![AnalyzeError::MultiplePrimaryKeys(0), AnalyzeError::MultiplePrimaryKeys(2)]
    );
}

#[test]
fn id_with_redundant_annotations() {
    let parsed = model("User", vec![field("id", true, true, true)]);
    assert_eq!(
        analyze_model(parsed).err().unwrap(),
        vec![AnalyzeError::PrimaryKeyImpliedById(0), AnalyzeError::AutoIncrementImpliedById(0)]
    );
}

#[test]
fn double_underscores_and_generics() {
    let mut parsed = model("My__Model", vec![field("id", true, false, false), field("a__b", false, false, false)]);
    parsed.has_generics = true;
    parsed.annos.experimental_generics = false;
    assert_eq!(
        analyze_model(parsed).err().unwrap(),
        vec![
            AnalyzeError::GenericModelsUnsupported,
            AnalyzeError::TableNameDoubleUnderscore,
            AnalyzeError::ColumnNameDoubleUnderscore(1),
        ]
    );
}

#[test]
fn generics_require_unregistered() {
    let mut parsed = model("User", vec![field("id", true, false, false)]);
    parsed.has_generics = true;
    parsed.annos.experimental_generics = true;
    assert_eq!(analyze_model(parsed).err().unwrap(), vec![AnalyzeError::GenericsRequireUnregistered]);
    let mut parsed = model("User", vec![field("id", true, false, false)]);
    parsed.has_generics = true;
    parsed.annos.experimental_generics = true;
    parsed.annos.experimental_unregistered = true;
    let analyzed = analyze_model(parsed).ok().unwrap();
    assert!(analyzed.experimental_unregistered);
}
