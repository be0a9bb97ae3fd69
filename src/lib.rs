//! Builder synthesis for records with named fields.
//!
//! A record declaration is described by plain values (`shape`). From it the
//! library classifies each field as required or optional and renders the
//! companion builder type, its mutators, its finalizer and the factory on the
//! record (`synth`), and lexes that text into tokens (`tokens`). The same
//! behaviour is available at run time over a field schema (`record`), which
//! is where the builder's laws are stated.
pub mod record;
pub mod shape;
pub mod synth;
pub mod tokens;

pub use record::{missing_field_message, FieldSpec, MissingField, Record, RecordBuilder, Schema, Value};
pub use shape::{
    classify, extract_first_generic_argument, extract_last_path_segment, extract_named_fields, is_option,
    unwrap_type_argument, Classification, Data, DeclInput, FieldDecl, Fields, GenericArg, PathSegmentDecl,
    ShapeError, TypeDecl,
};
pub use synth::{builder_name, check_fields, generate, render, DeriveError, Part};
pub use tokens::implement;
