//! Why a companion could not be generated.

use vstd::prelude::*;
use vstd::string::StringExecFns;
use crate::kind::MemberKind;

verus! {

/// The ways in which generation fails. A failure is final: nothing is emitted
/// for the declaration.
#[derive(Clone, Copy, Debug, PartialEq, Eq, Structural)]
pub enum DeriveError {
    /// The text is not a struct, enum or union declaration.
    Syntax,
    /// The declaration has not the shape that members of this kind need: a
    /// struct with named fields for `Field`, an enum for `Variant`.
    ShapeMismatch(MemberKind),
}

impl DeriveError {
    /// The diagnostic that belongs to this failure.
    pub open spec fn message_text(self) -> Seq<char> {
        match self {
            DeriveError::Syntax => "expected a struct, enum or union declaration"@,
            DeriveError::ShapeMismatch(MemberKind::Field) =>
                "StructFieldNames can only be derived for structs with named fields"@,
            DeriveError::ShapeMismatch(MemberKind::Variant) =>
                "EnumVariantNames can only be derived for enums"@,
        }
    }

    pub fn message(&self) -> (r: String)
        ensures
            r@ == self.message_text(),
    {
        match self {
            DeriveError::Syntax => String::from_str("expected a struct, enum or union declaration"),
            DeriveError::ShapeMismatch(MemberKind::Field) => String::from_str(
                "StructFieldNames can only be derived for structs with named fields",
            ),
            DeriveError::ShapeMismatch(MemberKind::Variant) => String::from_str(
                "EnumVariantNames can only be derived for enums",
            ),
        }
    }
}

} // verus!
