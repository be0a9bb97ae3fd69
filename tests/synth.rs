use builder_derive::{
    builder_name, check_fields, classify, extract_first_generic_argument, extract_last_path_segment,
    extract_named_fields, generate, implement, is_option, render, unwrap_type_argument, Classification,
    Data, DeclInput, DeriveError, FieldDecl, Fields, GenericArg, PathSegmentDecl, ShapeError, TypeDecl,
};

fn plain(text: &str) -> TypeDecl {
    TypeDecl {
        text: text.to_string(),
        last_segment: Some(PathSegmentDecl { ident: text.to_string(), first_arg: None }),
    }
}

fn generic(text: &str, ident: &str, arg: &str) -> TypeDecl {
    TypeDecl {
        text: text.to_string(),
        last_segment: Some(PathSegmentDecl {
            ident: ident.to_string(),
            first_arg: Some(GenericArg::Type(arg.to_string())),
        }),
    }
}

fn fd(name: &str, ty: TypeDecl) -> FieldDecl {
    FieldDecl { name: name.to_string(), ty }
}

fn record(vis: &str, ident: &str, fields: Vec<FieldDecl>) -> DeclInput {
    DeclInput { ident: ident.to_string(), vis: vis.to_string(), data: Data::Struct(Fields::Named(fields)) }
}

#[test]
fn option_spelling_decides_classification() {
    assert!(is_option(&generic("Option<u32>", "Option", "u32")));
    assert!(is_option(&generic("std::option::Option<u32>", "Option", "u32")));
    assert!(is_option(&generic("other::Option<u32>", "Option", "u32")));
    assert!(!is_option(&generic("Vec<u32>", "Vec", "u32")));
    assert!(!is_option(&plain("option")));
    assert!(!is_option(&plain("Options")));
    assert!(!is_option(&TypeDecl { text: "(u8, u8)".into(), last_segment: None }));
    assert_eq!(classify(&plain("String")), Classification::Required);
    assert_eq!(classify(&generic("Option<String>", "Option", "String")), Classification::Optional);
}

#[test]
fn type_argument_extraction() {
    let ty = generic("Option<u32>", "Option", "u32");
    assert_eq!(unwrap_type_argument(&ty), Ok(&"u32".to_string()));
    let seg = extract_last_path_segment(&ty).unwrap();
    assert!(matches!(extract_first_generic_argument(seg), Some(GenericArg::Type(t)) if t == "u32"));
    let bare = plain("Option");
    assert_eq!(unwrap_type_argument(&bare), Err(ShapeError::NoTypeArgument));
    let lifetime = TypeDecl {
        text: "Option<'a>".into(),
        last_segment: Some(PathSegmentDecl { ident: "Option".into(), first_arg: Some(GenericArg::Other) }),
    };
    assert_eq!(unwrap_type_argument(&lifetime), Err(ShapeError::NoTypeArgument));
    let tuple = TypeDecl { text: "()".into(), last_segment: None };
    assert!(extract_last_path_segment(&tuple).is_none());
    assert_eq!(unwrap_type_argument(&tuple), Err(ShapeError::NoSegment));
}

#[test]
fn named_fields_only() {
    assert_eq!(extract_named_fields(&Data::Enum).err(), Some(ShapeError::NotStruct));
    assert_eq!(extract_named_fields(&Data::Union).err(), Some(ShapeError::NotStruct));
    assert_eq!(extract_named_fields(&Data::Struct(Fields::Unnamed)).err(), Some(ShapeError::UnnamedFields));
    assert_eq!(extract_named_fields(&Data::Struct(Fields::Unit)).err(), Some(ShapeError::UnnamedFields));
    let data = Data::Struct(Fields::Named(vec![fd("id", plain("u64"))]));
    assert_eq!(extract_named_fields(&data).unwrap().len(), 1);
}

#[test]
fn builder_type_name() {
    assert_eq!(builder_name("Person"), "PersonBuilder");
}

#[test]
fn generated_text_for_single_required_field() {
    let input = record("pub", "Rec", vec![fd("id", plain("u64"))]);
    let text = generate(&input).unwrap();
    assert_eq!(
        text,
        "pub struct RecBuilder { id: Option<u64>, } impl RecBuilder { \
pub fn id(&mut self, id: u64) -> &mut Self { self.id = Some(id); self } \
pub fn build(&mut self) -> Result<Rec, Box<dyn std::error::Error>> { \
if self.id.is_none() { return Err(\"required field 'id' is missing\".into()); } \
Ok(Rec { id: self.id.clone().unwrap(), }) } } \
impl Rec { pub fn builder() -> RecBuilder { RecBuilder { id: None, } } }"
    );
}

#[test]
fn generated_text_for_optional_field() {
    let fields = vec![fd("name", plain("String")), fd("age", generic("Option<u32>", "Option", "u32"))];
    let text = render("", "Person", &fields);
    let expected = [
        " struct PersonBuilder { name: Option<String>, age: Option<u32>, } impl PersonBuilder { ",
        " fn name(&mut self, name: String) -> &mut Self { self.name = Some(name); self } ",
        " fn age(&mut self, age: u32) -> &mut Self { self.age = Some(age); self } ",
        " fn build(&mut self) -> Result<Person, Box<dyn std::error::Error>> { ",
        "if self.name.is_none() { return Err(\"required field 'name' is missing\".into()); } ",
        "Ok(Person { name: self.name.clone().unwrap(), age: self.age.clone(), }) } } ",
        "impl Person {  fn builder() -> PersonBuilder { PersonBuilder { name: None, age: None, } } }",
    ]
    .concat();
    assert_eq!(text, expected);
}

#[test]
fn shape_errors_abort_generation() {
    let enum_decl = DeclInput { ident: "E".into(), vis: "".into(), data: Data::Enum };
    assert_eq!(generate(&enum_decl), Err(DeriveError::Shape(ShapeError::NotStruct)));
    let tuple_decl = DeclInput { ident: "T".into(), vis: "".into(), data: Data::Struct(Fields::Unnamed) };
    assert_eq!(generate(&tuple_decl), Err(DeriveError::Shape(ShapeError::UnnamedFields)));
    assert!(implement(&enum_decl).is_err());
}

#[test]
fn first_bad_optional_field_is_reported() {
    let fields = vec![
        fd("a", plain("u8")),
        fd("b", plain("Option")),
        fd("c", plain("Option")),
    ];
    let expected = DeriveError::Field { index: 1, error: ShapeError::NoTypeArgument };
    assert_eq!(check_fields(&fields), Err(expected));
    assert_eq!(generate(&record("", "R", fields)), Err(expected));
}

#[test]
fn tokens_for_generated_text() {
    let input = record("pub", "Rec", vec![fd("id", plain("u64"))]);
    let tokens = implement(&input).unwrap().to_string();
    assert!(tokens.contains("struct RecBuilder"));
    assert!(tokens.contains("fn builder"));
    assert!(tokens.contains("\"required field 'id' is missing\""));
}

#[test]
fn unlexable_text_is_reported() {
    let input = record("", "Rec", vec![fd("id", TypeDecl { text: "\"".into(), last_segment: None })]);
    assert!(generate(&input).is_ok());
    assert_eq!(implement(&input).err(), Some(DeriveError::Lex));
}

#[test]
fn empty_record() {
    let input = record("", "Empty", vec![]);
    let text = generate(&input).unwrap();
    assert!(text.starts_with(" struct EmptyBuilder { } impl EmptyBuilder { "));
    assert!(implement(&input).is_ok());
}
