//! The generated source text as tokens.
use vstd::prelude::*;
use crate::shape::DeclInput;
use crate::synth::{generate, generates, generation_succeeds, DeriveError};

verus! {

#[verifier::external_type_specification]
#[verifier::external_body]
pub struct ExTokenStream(proc_macro2::TokenStream);

#[verifier::external_type_specification]
#[verifier::external_body]
pub struct ExLexError(proc_macro2::LexError);

/// Relies on proc_macro2's `FromStr` impl for `TokenStream`, which lexes Rust
/// source text into a token stream or reports a lexing error.
#[verifier::external_body]
fn lex(text: &str) -> (r: Result<proc_macro2::TokenStream, proc_macro2::LexError>) {
    text.parse::<proc_macro2::TokenStream>()
}

/// The builder for a declaration, as tokens: the generated text, lexed.
pub fn implement(input: &DeclInput) -> (r: Result<proc_macro2::TokenStream, DeriveError>)
    ensures
        match r {
            Ok(_) => generation_succeeds(*input),
            Err(DeriveError::Lex) => generation_succeeds(*input),
            Err(e) => generates(*input, Err::<Seq<char>, DeriveError>(e)),
        },
{
    match generate(input) {
        Ok(text) => match lex(text.as_str()) {
            Ok(tokens) => Ok(tokens),
            Err(_) => Err(DeriveError::Lex),
        },
        Err(e) => Err(e),
    }
}

} // verus!
