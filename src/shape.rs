//! The declaration inspector and the field classification.
use vstd::prelude::*;

verus! {

/// The first generic argument of a path segment.
#[derive(Clone, Debug, PartialEq, Eq)]
pub enum GenericArg {
    /// A type argument, held as the text of the type.
    Type(String),
    /// A lifetime, a constant or a binding.
    Other,
}

/// One segment of a type path: its identifier and its first generic argument.
#[derive(Clone, Debug, PartialEq, Eq)]
pub struct PathSegmentDecl {
    pub ident: String,
    pub first_arg: Option<GenericArg>,
}

/// A declared type: its text as written, and the last segment of its path
/// when the type is a path at all.
#[derive(Clone, Debug, PartialEq, Eq)]
pub struct TypeDecl {
    pub text: String,
    pub last_segment: Option<PathSegmentDecl>,
}

/// One named field of a record.
#[derive(Clone, Debug, PartialEq, Eq)]
pub struct FieldDecl {
    pub name: String,
    pub ty: TypeDecl,
}

/// The fields of a struct declaration.
#[derive(Clone, Debug, PartialEq, Eq)]
pub enum Fields {
    Named(Vec<FieldDecl>),
    Unnamed,
    Unit,
}

/// What a declaration declares.
#[derive(Clone, Debug, PartialEq, Eq)]
pub enum Data {
    Struct(Fields),
    Enum,
    Union,
}

/// A declaration handed to the generator: its name, its visibility as
/// written (empty for private) and its body.
#[derive(Clone, Debug, PartialEq, Eq)]
pub struct DeclInput {
    pub ident: String,
    pub vis: String,
    pub data: Data,
}

/// Whether a field must be set before a record can be built.
#[derive(PartialEq, Eq, Structural, Clone, Copy, Debug)]
pub enum Classification {
    Required,
    Optional,
}

/// A declaration or a field type of a shape the generator cannot handle.
#[derive(PartialEq, Eq, Structural, Clone, Copy, Debug)]
pub enum ShapeError {
    /// The declaration is an enum or a union.
    NotStruct,
    /// The struct has tuple or unit fields.
    UnnamedFields,
    /// The type is not a path.
    NoSegment,
    /// The type's last segment has no type as its first generic argument.
    NoTypeArgument,
}

/// The spelling that marks a field as optional.
pub open spec fn option_spelling() -> Seq<char> {
    seq!['O', 'p', 't', 'i', 'o', 'n']
}

/// A type is optional exactly when the last segment of its path is spelled
/// `Option`; nothing is resolved.
pub open spec fn is_option_spec(ty: TypeDecl) -> bool {
    match ty.last_segment {
        Some(seg) => seg.ident@ == option_spelling(),
        None => false,
    }
}

pub open spec fn classify_spec(ty: TypeDecl) -> Classification {
    if is_option_spec(ty) {
        Classification::Optional
    } else {
        Classification::Required
    }
}

/// The text of the type argument of an optional type, if it has one.
pub open spec fn type_argument_spec(ty: TypeDecl) -> Result<Seq<char>, ShapeError> {
    match ty.last_segment {
        Some(seg) => match seg.first_arg {
            Some(GenericArg::Type(t)) => Ok(t@),
            _ => Err(ShapeError::NoTypeArgument),
        },
        None => Err(ShapeError::NoSegment),
    }
}

/// The named fields of a struct, or why there are none.
pub fn extract_named_fields(data: &Data) -> (r: Result<&Vec<FieldDecl>, ShapeError>)
    ensures
        match *data {
            Data::Struct(Fields::Named(fs)) => r == Ok::<&Vec<FieldDecl>, ShapeError>(&fs),
            Data::Struct(_) => r == Err::<&Vec<FieldDecl>, ShapeError>(ShapeError::UnnamedFields),
            _ => r == Err::<&Vec<FieldDecl>, ShapeError>(ShapeError::NotStruct),
        },
{
    match data {
        Data::Struct(fields) => match fields {
            Fields::Named(fs) => Ok(fs),
            _ => Err(ShapeError::UnnamedFields),
        },
        _ => Err(ShapeError::NotStruct),
    }
}

/// The last segment of a path type.
pub fn extract_last_path_segment(ty: &TypeDecl) -> (r: Option<&PathSegmentDecl>)
    ensures
        r == match ty.last_segment {
            Some(s) => Some(&s),
            None => None::<&PathSegmentDecl>,
        },
{
    match &ty.last_segment {
        Some(s) => Some(s),
        None => None,
    }
}

/// The first generic argument of a path segment.
pub fn extract_first_generic_argument(segment: &PathSegmentDecl) -> (r: Option<&GenericArg>)
    ensures
        r == match segment.first_arg {
            Some(a) => Some(&a),
            None => None::<&GenericArg>,
        },
{
    match &segment.first_arg {
        Some(a) => Some(a),
        None => None,
    }
}

/// Whether the outermost type constructor is spelled `Option`.
pub fn is_option(ty: &TypeDecl) -> (r: bool)
    ensures
        r == is_option_spec(*ty),
{
    match extract_last_path_segment(ty) {
        Some(segment) => {
            let spelling = String::from_str("Option");
            proof {
                reveal_strlit("Option");
            }
            assert(spelling@ =~= option_spelling());
            segment.ident == spelling
        },
        None => false,
    }
}

/// Required or optional, from the spelling of the type alone.
pub fn classify(ty: &TypeDecl) -> (r: Classification)
    ensures
        r == classify_spec(*ty),
{
    if is_option(ty) {
        Classification::Optional
    } else {
        Classification::Required
    }
}

/// The text of the type argument of `Option<T>`: `T`.
pub fn unwrap_type_argument(ty: &TypeDecl) -> (r: Result<&String, ShapeError>)
    ensures
        match r {
            Ok(t) => type_argument_spec(*ty) == Ok::<Seq<char>, ShapeError>(t@),
            Err(e) => type_argument_spec(*ty) == Err::<Seq<char>, ShapeError>(e),
        },
{
    match extract_last_path_segment(ty) {
        Some(segment) => match extract_first_generic_argument(segment) {
            Some(GenericArg::Type(t)) => Ok(t),
            _ => Err(ShapeError::NoTypeArgument),
        },
        None => Err(ShapeError::NoSegment),
    }
}

} // verus!
