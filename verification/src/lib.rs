//! Companion declarations that expose the member names of a type as text.
//!
//! For a struct with named fields, [`derive_field_names`] writes a struct
//! `<Name>FieldStaticStr` with one `&'static str` field for each field, and
//! an associated constant `FIELD_NAMES` of that struct in which each field
//! holds the spelling of its own name. [`derive_variant_names`] does the same
//! for the variants of an enum, with `<Name>VariantsStaticStr` and
//! `VARIANT_NAMES`. A member that carries `#[struct_field_names(skip)]`, or
//! `#[enum_variant_names(skip)]` on a variant, is left out.
//!
//! The declaration is read by [`syntax::read_source`] into a
//! [`model::SourceType`]. From there on everything is verified against the
//! specification functions [`companion::companion_of`] and
//! [`render::companion_text`].

use vstd::prelude::*;
use crate::companion::{companion_of, synthesize};
use crate::error::DeriveError;
use crate::kind::MemberKind;
use crate::model::{SourceType, SourceTypeView};
use crate::render::companion_text;
use crate::syntax::{read_source, source_of};

pub mod companion;
pub mod error;
pub mod filter;
pub mod kind;
pub mod laws;
pub mod model;
pub mod render;
pub mod syntax;

verus! {

/// The text that is generated for `source`, or the failure.
pub open spec fn expansion(source: SourceTypeView, kind: MemberKind) -> Result<
    Seq<char>,
    DeriveError,
> {
    match companion_of(source, kind) {
        Ok(companion) => Ok(companion_text(companion)),
        Err(e) => Err(e),
    }
}

/// The view of a generated text or failure.
pub open spec fn text_outcome(r: Result<String, DeriveError>) -> Result<Seq<char>, DeriveError> {
    match r {
        Ok(code) => Ok(code@),
        Err(e) => Err(e),
    }
}

/// Generates the companion of `source` for its members of kind `kind` and
/// writes it.
///
/// Either both declarations are written or, where `source` has not the shape
/// that `kind` asks for, none.
pub fn expand(source: &SourceType, kind: MemberKind) -> (r: Result<String, DeriveError>)
    ensures
        text_outcome(r) == expansion(source@, kind),
{
    match synthesize(source, kind) {
        Ok(companion) => Ok(companion.render()),
        Err(e) => Err(e),
    }
}

/// Reads the declaration in `input` and writes the companion for its members
/// of kind `kind`.
///
/// Whether `input` parses, and as what, is for `syn` to say. Where it does
/// not, the failure is `DeriveError::Syntax`. Where it does, the result is
/// the expansion of what is read out of the parsed declaration: both
/// declarations, or a shape mismatch and nothing.
pub fn derive_names(input: &str, kind: MemberKind) -> (r: Result<String, DeriveError>)
    ensures
        text_outcome(r) == Err::<Seq<char>, DeriveError>(DeriveError::Syntax) || exists|
            ast: syn::DeriveInput,
        | text_outcome(r) == expansion(#[trigger] source_of(ast), kind),
{
    match read_source(input) {
        Err(e) => Err(e),
        Ok(source) => {
            let r = expand(&source, kind);
            proof {
                let ast = choose|ast: syn::DeriveInput| source@ == #[trigger] source_of(ast);
                assert(text_outcome(r) == expansion(source_of(ast), kind));
            }
            r
        },
    }
}

/// Writes the companion that names the fields of the struct declared in
/// `input`.
pub fn derive_field_names(input: &str) -> (r: Result<String, DeriveError>)
    ensures
        text_outcome(r) == Err::<Seq<char>, DeriveError>(DeriveError::Syntax) || exists|
            ast: syn::DeriveInput,
        | text_outcome(r) == expansion(#[trigger] source_of(ast), MemberKind::Field),
{
    derive_names(input, MemberKind::Field)
}

/// Writes the companion that names the variants of the enum declared in
/// `input`.
pub fn derive_variant_names(input: &str) -> (r: Result<String, DeriveError>)
    ensures
        text_outcome(r) == Err::<Seq<char>, DeriveError>(DeriveError::Syntax) || exists|
            ast: syn::DeriveInput,
        | text_outcome(r) == expansion(#[trigger] source_of(ast), MemberKind::Variant),
{
    derive_names(input, MemberKind::Variant)
}

} // verus!
