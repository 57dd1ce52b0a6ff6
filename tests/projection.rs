use optionalize_macro::classify::names_wrapper;
use optionalize_macro::derive::optionalize;
use optionalize_macro::schema::{parse_schema, DeclBody, Field, RecordSchema, SchemaError, TypeDecl, TypeExpr};

fn field(vis: &str, name: &str, ty: &str) -> Field {
    Field { vis: vis.to_string(), name: name.to_string(), ty: TypeExpr { text: ty.to_string() } }
}

fn ty(text: &str) -> TypeExpr {
    TypeExpr { text: text.to_string() }
}

fn item() -> RecordSchema {
    RecordSchema {
        name: "Item".to_string(),
        fields: vec![field("", "id", "i64"), field("", "label", "String"), field("", "note", "Option<String>")],
    }
}

#[test]
fn end_to_end_item() {
    let decl = TypeDecl { name: "Item".to_string(), body: DeclBody::Named(item().fields) };
    assert_eq!(
        optionalize(decl),
        Ok("pub struct ItemOptional { id: Option<i64>, label: Option<String>, note: Option<String>, }".to_string())
    );
}

#[test]
fn project_item_fields() {
    let d = item().project();
    assert_eq!(d.name, "ItemOptional");
    assert_eq!(
        d.fields,
        vec![field("", "id", "Option<i64>"), field("", "label", "Option<String>"), field("", "note", "Option<String>")]
    );
}

#[test]
fn project_keeps_names_order_and_visibility() {
    let s = RecordSchema {
        name: "Row".to_string(),
        fields: vec![field("pub", "z", "u8"), field("pub(crate)", "a", "bool"), field("", "m", "char")],
    };
    let d = s.project();
    assert_eq!(d.fields.len(), 3);
    let names: Vec<&str> = d.fields.iter().map(|f| f.name.as_str()).collect();
    assert_eq!(names, vec!["z", "a", "m"]);
    let vis: Vec<&str> = d.fields.iter().map(|f| f.vis.as_str()).collect();
    assert_eq!(vis, vec!["pub", "pub(crate)", ""]);
    assert_eq!(d.render(), "pub struct RowOptional { pub z: Option<u8>, pub(crate) a: Option<bool>, m: Option<char>, }");
}

#[test]
fn project_name_suffix() {
    let s = RecordSchema { name: "Config".to_string(), fields: vec![] };
    assert_eq!(s.project().name, "ConfigOptional");
}

#[test]
fn empty_record_projects_to_empty_record() {
    let decl = TypeDecl { name: "Empty".to_string(), body: DeclBody::Named(vec![]) };
    let schema = parse_schema(decl.clone()).unwrap();
    let d = schema.project();
    assert_eq!(d.name, "EmptyOptional");
    assert!(d.fields.is_empty());
    assert_eq!(optionalize(decl), Ok("pub struct EmptyOptional { }".to_string()));
}

#[test]
fn optional_field_not_wrapped_twice() {
    let s = RecordSchema {
        name: "P".to_string(),
        fields: vec![field("", "a", "Option<u8>"), field("", "b", "Option < Vec < u8 > >")],
    };
    let d = s.project();
    assert_eq!(d.fields, s.fields);
}

#[test]
fn qualified_option_path_is_optional() {
    assert!(ty("std::option::Option<u8>").is_optional());
    assert!(ty("core :: option :: Option < String >").is_optional());
    assert!(ty("Option<Option<u8>>").is_optional());
}

#[test]
fn non_option_types_are_not_optional() {
    assert!(!ty("u8").is_optional());
    assert!(!ty("Vec<Option<u8>>").is_optional());
    assert!(!ty("Option<u8>::Assoc").is_optional());
    assert!(!ty("(u8, u16)").is_optional());
    assert!(!ty("&'static str").is_optional());
    assert!(!ty("[Option<u8>; 4]").is_optional());
    assert!(!ty("not a type at all <").is_optional());
}

#[test]
fn alias_of_option_is_wrapped() {
    let s = RecordSchema { name: "A".to_string(), fields: vec![field("", "x", "Maybe<u8>")] };
    assert_eq!(s.project().fields, vec![field("", "x", "Option<Maybe<u8>>")]);
}

#[test]
fn non_path_types_are_wrapped() {
    let s = RecordSchema {
        name: "T".to_string(),
        fields: vec![field("", "pair", "(u8, u16)"), field("", "s", "&'static str")],
    };
    assert_eq!(
        s.project().render(),
        "pub struct TOptional { pair: Option<(u8, u16)>, s: Option<&'static str>, }"
    );
}

#[test]
fn wrap_optional_wraps_once() {
    assert_eq!(ty("i32").wrap_optional(), ty("Option<i32>"));
    assert_eq!(ty("Option<i32>").wrap_optional(), ty("Option<Option<i32>>"));
}

#[test]
fn names_wrapper_matches_one_name() {
    assert!(names_wrapper(&Some("Option".to_string())));
    assert!(!names_wrapper(&Some("Optional".to_string())));
    assert!(!names_wrapper(&Some("option".to_string())));
    assert!(!names_wrapper(&None));
}

#[test]
fn reprojection_changes_only_the_name() {
    let once = item().project();
    let twice = once.project();
    assert_eq!(twice.name, "ItemOptionalOptional");
    assert_eq!(twice.fields, once.fields);
    assert!(twice.fields.iter().all(|f| f.ty.is_optional()));
}

#[test]
fn enum_is_not_a_record() {
    let decl = TypeDecl { name: "Color".to_string(), body: DeclBody::Enum };
    assert_eq!(optionalize(decl), Err(SchemaError::NotARecord { name: "Color".to_string() }));
}

#[test]
fn tuple_unit_and_union_are_not_records() {
    for body in [DeclBody::Unnamed, DeclBody::Unit, DeclBody::Union] {
        let decl = TypeDecl { name: "X".to_string(), body };
        assert_eq!(parse_schema(decl.clone()), Err(SchemaError::NotARecord { name: "X".to_string() }));
        assert_eq!(optionalize(decl), Err(SchemaError::NotARecord { name: "X".to_string() }));
    }
}

#[test]
fn parse_keeps_fields_as_written() {
    let fields = vec![field("pub", "k", "HashMap < String , u8 >"), field("", "v", "Option<u8>")];
    let decl = TypeDecl { name: "Kv".to_string(), body: DeclBody::Named(fields.clone()) };
    assert_eq!(parse_schema(decl), Ok(RecordSchema { name: "Kv".to_string(), fields }));
}

#[test]
fn field_render_with_and_without_visibility() {
    assert_eq!(field("pub", "a", "u8").render(), " pub a: u8,");
    assert_eq!(field("", "a", "u8").render(), " a: u8,");
    assert_eq!(field("", "a", "u8").project(), field("", "a", "Option<u8>"));
}
