//! The two kinds of members and the fixed names that belong to each.
//!
//! Fields of a struct and variants of an enum go through one and the same
//! algorithm. Everything in which the two differ is collected here.

use vstd::prelude::*;

verus! {

/// Which members of a declaration are named: the fields of a struct or the
/// variants of an enum.
#[derive(Clone, Copy, Debug, PartialEq, Eq, Structural)]
pub enum MemberKind {
    Field,
    Variant,
}

/// The word that, inside a marker annotation, excludes a member.
pub open spec fn skip_word() -> Seq<char> {
    "skip"@
}

/// The visibility that every member of a variant companion has.
pub open spec fn unrestricted() -> Seq<char> {
    "pub"@
}

impl MemberKind {
    /// The path of the annotation that may exclude a member of this kind.
    pub open spec fn marker(self) -> Seq<char> {
        match self {
            MemberKind::Field => "struct_field_names"@,
            MemberKind::Variant => "enum_variant_names"@,
        }
    }

    /// What is appended to the name of the declared type to name its companion.
    pub open spec fn suffix(self) -> Seq<char> {
        match self {
            MemberKind::Field => "FieldStaticStr"@,
            MemberKind::Variant => "VariantsStaticStr"@,
        }
    }

    /// The name of the associated constant.
    pub open spec fn constant_name(self) -> Seq<char> {
        match self {
            MemberKind::Field => "FIELD_NAMES"@,
            MemberKind::Variant => "VARIANT_NAMES"@,
        }
    }

    /// Whether each member has a visibility of its own. Fields do; variants
    /// are all as visible as their enum.
    pub open spec fn has_member_visibility(self) -> bool {
        self == MemberKind::Field
    }

    /// Whether the companion struct is declared with
    /// `#[allow(non_snake_case)]`: its fields are named after the members,
    /// and variants are not named in snake case.
    pub open spec fn allows_non_snake_case(self) -> bool {
        self == MemberKind::Variant
    }

    pub fn marker_text(self) -> (r: &'static str)
        ensures
            r@ == self.marker(),
    {
        match self {
            MemberKind::Field => "struct_field_names",
            MemberKind::Variant => "enum_variant_names",
        }
    }

    pub fn suffix_text(self) -> (r: &'static str)
        ensures
            r@ == self.suffix(),
    {
        match self {
            MemberKind::Field => "FieldStaticStr",
            MemberKind::Variant => "VariantsStaticStr",
        }
    }

    pub fn constant_name_text(self) -> (r: &'static str)
        ensures
            r@ == self.constant_name(),
    {
        match self {
            MemberKind::Field => "FIELD_NAMES",
            MemberKind::Variant => "VARIANT_NAMES",
        }
    }
}

} // verus!
