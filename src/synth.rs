//! The builder synthesizer: from a record declaration to the source text of
//! its builder type, the builder's mutators and finalizer, and the factory
//! on the record.
use vstd::prelude::*;
use crate::record::{missing_field_message, missing_message};
use crate::shape::{
    classify, extract_named_fields, is_option, is_option_spec, type_argument_spec, unwrap_type_argument,
    Classification, Data, DeclInput, FieldDecl, Fields, ShapeError,
};

verus! {

/// Why no builder can be generated for a declaration.
#[derive(PartialEq, Eq, Structural, Clone, Copy, Debug)]
pub enum DeriveError {
    /// The declaration is not a struct with named fields.
    Shape(ShapeError),
    /// The field at `index`, the first such in declaration order, is spelled
    /// `Option` but has no type argument.
    Field { index: usize, error: ShapeError },
    /// The generated text did not lex.
    Lex,
}

/// One of the per-field parts of the generated code.
#[derive(PartialEq, Eq, Structural, Clone, Copy, Debug)]
pub enum Part {
    /// The field's slot in the builder type.
    SlotDecl,
    /// The field's mutator.
    Setter,
    /// The finalizer's presence check, for a required field.
    Check,
    /// The field's initializer in the finalizer's record.
    BuildValue,
    /// The field's absent slot in the factory.
    Initial,
}

/// A field can be generated for: it is required, or it is optional and its
/// type argument can be read.
pub open spec fn field_type_ok(f: FieldDecl) -> bool {
    !is_option_spec(f.ty) || type_argument_spec(f.ty) is Ok
}

/// The type a mutator takes: the declared type, or for an optional field
/// its type argument.
pub open spec fn arg_type_text(f: FieldDecl) -> Seq<char> {
    if is_option_spec(f.ty) {
        type_argument_spec(f.ty)->Ok_0
    } else {
        f.ty.text@
    }
}

/// The type of a slot: the declared type wrapped in `Option`, unless it is
/// already optional.
pub open spec fn slot_type_text(f: FieldDecl) -> Seq<char> {
    if is_option_spec(f.ty) {
        f.ty.text@
    } else {
        "Option<"@ + f.ty.text@ + ">"@
    }
}

pub open spec fn builder_name_spec(product: Seq<char>) -> Seq<char> {
    product + "Builder"@
}

/// The text of one part for one field.
pub open spec fn piece(part: Part, vis: Seq<char>, f: FieldDecl) -> Seq<char> {
    let n = f.name@;
    match part {
        Part::SlotDecl => n + ": "@ + slot_type_text(f) + ", "@,
        Part::Setter => vis + " fn "@ + n + "(&mut self, "@ + n + ": "@ + arg_type_text(f)
            + ") -> &mut Self { self."@ + n + " = Some("@ + n + "); self } "@,
        Part::Check => if is_option_spec(f.ty) {
            Seq::empty()
        } else {
            "if self."@ + n + ".is_none() { return Err(\""@ + missing_message(n) + "\".into()); } "@
        },
        Part::BuildValue => if is_option_spec(f.ty) {
            n + ": self."@ + n + ".clone(), "@
        } else {
            n + ": self."@ + n + ".clone().unwrap(), "@
        },
        Part::Initial => n + ": None, "@,
    }
}

/// One part for each field, in declaration order.
pub open spec fn join(part: Part, vis: Seq<char>, fs: Seq<FieldDecl>) -> Seq<char>
    decreases fs.len(),
{
    if fs.len() == 0 {
        Seq::empty()
    } else {
        join(part, vis, fs.drop_last()) + piece(part, vis, fs.last())
    }
}

/// The whole generated unit: the builder type, its mutators and finalizer,
/// and the factory on the record.
pub open spec fn generated_text(vis: Seq<char>, product: Seq<char>, fs: Seq<FieldDecl>) -> Seq<char> {
    let b = builder_name_spec(product);
    vis + " struct "@ + b + " { "@ + join(Part::SlotDecl, vis, fs) + "} impl "@ + b + " { "@
        + join(Part::Setter, vis, fs) + vis + " fn build(&mut self) -> Result<"@ + product
        + ", Box<dyn std::error::Error>> { "@ + join(Part::Check, vis, fs) + "Ok("@ + product + " { "@
        + join(Part::BuildValue, vis, fs) + "}) } } impl "@ + product + " { "@ + vis
        + " fn builder() -> "@ + b + " { "@ + b + " { "@ + join(Part::Initial, vis, fs) + "} } }"@
}

/// A builder can be generated for the declaration.
pub open spec fn generation_succeeds(input: DeclInput) -> bool {
    match input.data {
        Data::Struct(Fields::Named(fs)) => forall|i: int| 0 <= i < fs@.len() ==> field_type_ok(#[trigger] fs@[i]),
        _ => false,
    }
}

/// What generating for `input` gives: the text, or the first reason that
/// none can be generated.
pub open spec fn generates(input: DeclInput, r: Result<Seq<char>, DeriveError>) -> bool {
    match input.data {
        Data::Struct(Fields::Named(fs)) => match r {
            Ok(t) => generation_succeeds(input) && t == generated_text(input.vis@, input.ident@, fs@),
            Err(DeriveError::Field { index, error }) => {
                &&& index < fs@.len()
                &&& is_option_spec(fs@[index as int].ty)
                &&& type_argument_spec(fs@[index as int].ty) == Err::<Seq<char>, ShapeError>(error)
                &&& forall|j: int| 0 <= j < index ==> field_type_ok(#[trigger] fs@[j])
            },
            Err(_) => false,
        },
        Data::Struct(_) => r == Err::<Seq<char>, DeriveError>(DeriveError::Shape(ShapeError::UnnamedFields)),
        _ => r == Err::<Seq<char>, DeriveError>(DeriveError::Shape(ShapeError::NotStruct)),
    }
}

/// `<product>Builder`.
pub fn builder_name(product: &str) -> (r: String)
    ensures
        r@ == builder_name_spec(product@),
{
    let mut b = String::from_str(product);
    b.append("Builder");
    b
}

/// The first field, in declaration order, that is spelled `Option` and has
/// no type argument.
pub fn check_fields(fs: &Vec<FieldDecl>) -> (r: Result<(), DeriveError>)
    ensures
        match r {
            Ok(_) => forall|i: int| 0 <= i < fs@.len() ==> field_type_ok(#[trigger] fs@[i]),
            Err(DeriveError::Field { index, error }) => {
                &&& index < fs@.len()
                &&& is_option_spec(fs@[index as int].ty)
                &&& type_argument_spec(fs@[index as int].ty) == Err::<Seq<char>, ShapeError>(error)
                &&& forall|j: int| 0 <= j < index ==> field_type_ok(#[trigger] fs@[j])
            },
            Err(_) => false,
        },
{
    let mut i: usize = 0;
    while i < fs.len()
        invariant
            i <= fs@.len(),
            forall|j: int| 0 <= j < i ==> field_type_ok(#[trigger] fs@[j]),
        decreases fs@.len() - i,
    {
        if is_option(&fs[i].ty) {
            match unwrap_type_argument(&fs[i].ty) {
                Ok(_) => {},
                Err(e) => {
                    return Err(DeriveError::Field { index: i, error: e });
                },
            }
        }
        i = i + 1;
    }
    Ok(())
}

/// Appends one part for one field.
fn push_piece(out: &mut String, part: Part, vis: &str, f: &FieldDecl)
    requires
        field_type_ok(*f),
    ensures
        final(out)@ == old(out)@ + piece(part, vis@, *f),
{
    let n = f.name.as_str();
    let optional = classify(&f.ty) == Classification::Optional;
    match part {
        Part::SlotDecl => {
            out.append(n);
            out.append(": ");
            if optional {
                out.append(f.ty.text.as_str());
            } else {
                out.append("Option<");
                out.append(f.ty.text.as_str());
                out.append(">");
            }
            out.append(", ");
        },
        Part::Setter => {
            out.append(vis);
            out.append(" fn ");
            out.append(n);
            out.append("(&mut self, ");
            out.append(n);
            out.append(": ");
            if optional {
                match unwrap_type_argument(&f.ty) {
                    Ok(t) => out.append(t.as_str()),
                    Err(_) => {},
                }
            } else {
                out.append(f.ty.text.as_str());
            }
            out.append(") -> &mut Self { self.");
            out.append(n);
            out.append(" = Some(");
            out.append(n);
            out.append("); self } ");
        },
        Part::Check => {
            if !optional {
                let message = missing_field_message(n);
                out.append("if self.");
                out.append(n);
                out.append(".is_none() { return Err(\"");
                out.append(message.as_str());
                out.append("\".into()); } ");
            }
        },
        Part::BuildValue => {
            out.append(n);
            out.append(": self.");
            out.append(n);
            if optional {
                out.append(".clone(), ");
            } else {
                out.append(".clone().unwrap(), ");
            }
        },
        Part::Initial => {
            out.append(n);
            out.append(": None, ");
        },
    }
    assert(out@ =~= old(out)@ + piece(part, vis@, *f));
}

/// Appends one part for each field, in declaration order.
fn push_all(out: &mut String, part: Part, vis: &str, fs: &Vec<FieldDecl>)
    requires
        forall|i: int| 0 <= i < fs@.len() ==> field_type_ok(#[trigger] fs@[i]),
    ensures
        final(out)@ == old(out)@ + join(part, vis@, fs@),
{
    let mut i: usize = 0;
    while i < fs.len()
        invariant
            i <= fs@.len(),
            forall|i: int| 0 <= i < fs@.len() ==> field_type_ok(#[trigger] fs@[i]),
            out@ == old(out)@ + join(part, vis@, fs@.subrange(0, i as int)),
        decreases fs@.len() - i,
    {
        assert(fs@.subrange(0, i + 1).drop_last() =~= fs@.subrange(0, i as int));
        push_piece(out, part, vis, &fs[i]);
        i = i + 1;
        assert(out@ =~= old(out)@ + join(part, vis@, fs@.subrange(0, i as int)));
    }
    assert(fs@.subrange(0, fs@.len() as int) =~= fs@);
}

/// The source text of the builder for a record with the given visibility,
/// name and fields.
pub fn render(vis: &str, product: &str, fs: &Vec<FieldDecl>) -> (r: String)
    requires
        forall|i: int| 0 <= i < fs@.len() ==> field_type_ok(#[trigger] fs@[i]),
    ensures
        r@ == generated_text(vis@, product@, fs@),
{
    let b = builder_name(product);
    let mut out = String::from_str(vis);
    out.append(" struct ");
    out.append(b.as_str());
    out.append(" { ");
    push_all(&mut out, Part::SlotDecl, vis, fs);
    out.append("} impl ");
    out.append(b.as_str());
    out.append(" { ");
    push_all(&mut out, Part::Setter, vis, fs);
    out.append(vis);
    out.append(" fn build(&mut self) -> Result<");
    out.append(product);
    out.append(", Box<dyn std::error::Error>> { ");
    push_all(&mut out, Part::Check, vis, fs);
    out.append("Ok(");
    out.append(product);
    out.append(" { ");
    push_all(&mut out, Part::BuildValue, vis, fs);
    out.append("}) } } impl ");
    out.append(product);
    out.append(" { ");
    out.append(vis);
    out.append(" fn builder() -> ");
    out.append(b.as_str());
    out.append(" { ");
    out.append(b.as_str());
    out.append(" { ");
    push_all(&mut out, Part::Initial, vis, fs);
    out.append("} } }");
    assert(out@ =~= generated_text(vis@, product@, fs@));
    out
}

/// The source text of the builder for a declaration, or why there is none.
pub fn generate(input: &DeclInput) -> (r: Result<String, DeriveError>)
    ensures
        generates(
            *input,
            match r {
                Ok(t) => Ok::<Seq<char>, DeriveError>(t@),
                Err(e) => Err::<Seq<char>, DeriveError>(e),
            },
        ),
{
    let fs = match extract_named_fields(&input.data) {
        Ok(fs) => fs,
        Err(e) => {
            return Err(DeriveError::Shape(e));
        },
    };
    match check_fields(fs) {
        Ok(_) => {},
        Err(e) => {
            return Err(e);
        },
    }
    Ok(render(input.vis.as_str(), input.ident.as_str(), fs))
}

} // verus!
