//! The companion of a declaration: a struct with one `&'static str` field for
//! each member that stays, and a constant of that struct in which each field
//! holds the spelling of its own name.

use vstd::prelude::*;
use vstd::string::StringExecFns;
use crate::error::DeriveError;
use crate::filter::{filter_fields, pairs_view, retained, signatures};
use crate::kind::{unrestricted, MemberKind};
use crate::model::{
    members_view, Generics, GenericsView, Member, MemberView, Members, MembersView, SourceType,
    SourceTypeView,
};

verus! {

/// A field of the companion struct. Its type is always `&'static str`.
#[derive(Debug, PartialEq, Eq)]
pub struct CompanionField {
    /// The tokens of the visibility, empty where the field is private.
    pub vis: String,
    pub ident: String,
}

pub struct CompanionFieldView {
    pub vis: Seq<char>,
    pub ident: Seq<char>,
}

impl View for CompanionField {
    type V = CompanionFieldView;

    open spec fn view(&self) -> CompanionFieldView {
        CompanionFieldView { vis: self.vis@, ident: self.ident@ }
    }
}

/// The companion struct. It has no generic parameters.
#[derive(Debug, PartialEq, Eq)]
pub struct CompanionType {
    pub vis: String,
    pub ident: String,
    /// Whether the struct is declared with `#[allow(non_snake_case)]`, as it
    /// is when its fields are named after variants.
    pub allow_non_snake_case: bool,
    pub fields: Vec<CompanionField>,
}

pub struct CompanionTypeView {
    pub vis: Seq<char>,
    pub ident: Seq<char>,
    pub allow_non_snake_case: bool,
    pub fields: Seq<CompanionFieldView>,
}

impl View for CompanionType {
    type V = CompanionTypeView;

    open spec fn view(&self) -> CompanionTypeView {
        CompanionTypeView {
            vis: self.vis@,
            ident: self.ident@,
            allow_non_snake_case: self.allow_non_snake_case,
            fields: self.fields@.map_values(|f: CompanionField| f@),
        }
    }
}

/// One field of the constant's initializer: `ident: "value"`.
#[derive(Debug, PartialEq, Eq)]
pub struct ConstantEntry {
    pub ident: String,
    /// The text that the field holds, without quotes.
    pub value: String,
}

pub struct ConstantEntryView {
    pub ident: Seq<char>,
    pub value: Seq<char>,
}

impl View for ConstantEntry {
    type V = ConstantEntryView;

    open spec fn view(&self) -> ConstantEntryView {
        ConstantEntryView { ident: self.ident@, value: self.value@ }
    }
}

/// The associated constant, declared in an `impl` block of the declared type.
#[derive(Debug, PartialEq, Eq)]
pub struct CompanionConstant {
    pub vis: String,
    pub ident: String,
    /// The name of the type whose `impl` block holds the constant.
    pub owner: String,
    /// The generic parameters of that `impl` block.
    pub generics: Generics,
    /// The name of the constant's type.
    pub ty: String,
    pub entries: Vec<ConstantEntry>,
}

pub struct CompanionConstantView {
    pub vis: Seq<char>,
    pub ident: Seq<char>,
    pub owner: Seq<char>,
    pub generics: GenericsView,
    pub ty: Seq<char>,
    pub entries: Seq<ConstantEntryView>,
}

impl View for CompanionConstant {
    type V = CompanionConstantView;

    open spec fn view(&self) -> CompanionConstantView {
        CompanionConstantView {
            vis: self.vis@,
            ident: self.ident@,
            owner: self.owner@,
            generics: self.generics@,
            ty: self.ty@,
            entries: self.entries@.map_values(|e: ConstantEntry| e@),
        }
    }
}

/// Both declarations that are generated for one type.
#[derive(Debug, PartialEq, Eq)]
pub struct Companion {
    pub ty: CompanionType,
    pub constant: CompanionConstant,
}

pub struct CompanionView {
    pub ty: CompanionTypeView,
    pub constant: CompanionConstantView,
}

impl View for Companion {
    type V = CompanionView;

    open spec fn view(&self) -> CompanionView {
        CompanionView { ty: self.ty@, constant: self.constant@ }
    }
}

/// What the first entry called `name` holds.
pub open spec fn first_value(entries: Seq<ConstantEntryView>, name: Seq<char>) -> Option<
    Seq<char>,
>
    decreases entries.len(),
{
    if entries.len() == 0 {
        None
    } else if entries.first().ident == name {
        Some(entries.first().value)
    } else {
        first_value(entries.drop_first(), name)
    }
}

/// The visibility of the first field called `name`.
pub open spec fn first_visibility(fields: Seq<CompanionFieldView>, name: Seq<char>) -> Option<
    Seq<char>,
>
    decreases fields.len(),
{
    if fields.len() == 0 {
        None
    } else if fields.first().ident == name {
        Some(fields.first().vis)
    } else {
        first_visibility(fields.drop_first(), name)
    }
}

/// The view of a text that may be missing.
pub open spec fn text_view(text: Option<String>) -> Option<Seq<char>> {
    match text {
        Some(t) => Some(t@),
        None => None,
    }
}

impl CompanionConstant {
    /// What the field `name` of the constant holds; `None` where the constant
    /// has no such field.
    pub fn value_of(&self, name: &str) -> (r: Option<String>)
        ensures
            text_view(r) == first_value(self@.entries, name@),
    {
        let wanted = String::from_str(name);
        let ghost all = self@.entries;
        let mut i: usize = 0;
        proof {
            assert(all.skip(0) =~= all);
        }
        while i < self.entries.len()
            invariant
                i <= self.entries@.len(),
                all == self@.entries,
                wanted@ == name@,
                first_value(all, name@) == first_value(all.skip(i as int), name@),
            decreases self.entries@.len() - i,
        {
            let entry = &self.entries[i];
            proof {
                assert(all.skip(i as int).first() == entry@);
                assert(all.skip(i as int).drop_first() =~= all.skip(i + 1));
            }
            if entry.ident == wanted {
                return Some(entry.value.clone());
            }
            i += 1;
        }
        None
    }
}

impl CompanionType {
    /// The visibility of the field `name` of the struct, as its tokens;
    /// `None` where the struct has no such field.
    pub fn visibility_of(&self, name: &str) -> (r: Option<String>)
        ensures
            text_view(r) == first_visibility(self@.fields, name@),
    {
        let wanted = String::from_str(name);
        let ghost all = self@.fields;
        let mut i: usize = 0;
        proof {
            assert(all.skip(0) =~= all);
        }
        while i < self.fields.len()
            invariant
                i <= self.fields@.len(),
                all == self@.fields,
                wanted@ == name@,
                first_visibility(all, name@) == first_visibility(all.skip(i as int), name@),
            decreases self.fields@.len() - i,
        {
            let field = &self.fields[i];
            proof {
                assert(all.skip(i as int).first() == field@);
                assert(all.skip(i as int).drop_first() =~= all.skip(i + 1));
            }
            if field.ident == wanted {
                return Some(field.vis.clone());
            }
            i += 1;
        }
        None
    }
}

/// The members of `source` that are of kind `kind`, where it has the shape
/// for them.
pub open spec fn members_of(source: SourceTypeView, kind: MemberKind) -> Option<Seq<MemberView>> {
    match (kind, source.members) {
        (MemberKind::Field, MembersView::StructMembers(fields)) => Some(fields),
        (MemberKind::Variant, MembersView::EnumMembers(variants)) => Some(variants),
        _ => None,
    }
}

/// The visibility of the companion field of a member: that of the member
/// where members have one, `pub` where they have not.
pub open spec fn companion_visibility(kind: MemberKind, vis: Seq<char>) -> Seq<char> {
    if kind.has_member_visibility() {
        vis
    } else {
        unrestricted()
    }
}

/// The companion fields of the members whose visibilities and names are
/// `kept`.
pub open spec fn companion_fields(kind: MemberKind, kept: Seq<(Seq<char>, Seq<char>)>) -> Seq<
    CompanionFieldView,
> {
    kept.map_values(
        |m: (Seq<char>, Seq<char>)|
            CompanionFieldView { vis: companion_visibility(kind, m.0), ident: m.1 },
    )
}

/// The initializer of the members whose visibilities and names are `kept`:
/// each name with its own spelling.
pub open spec fn constant_entries(kept: Seq<(Seq<char>, Seq<char>)>) -> Seq<ConstantEntryView> {
    kept.map_values(|m: (Seq<char>, Seq<char>)| ConstantEntryView { ident: m.1, value: m.1 })
}

/// The companion of `source` for members of kind `kind`, or the failure.
pub open spec fn companion_of(source: SourceTypeView, kind: MemberKind) -> Result<
    CompanionView,
    DeriveError,
> {
    match members_of(source, kind) {
        None => Err(DeriveError::ShapeMismatch(kind)),
        Some(members) => {
            let kept = signatures(retained(members, kind.marker()));
            Ok(
                CompanionView {
                    ty: CompanionTypeView {
                        vis: source.vis,
                        ident: source.ident + kind.suffix(),
                        allow_non_snake_case: kind.allows_non_snake_case(),
                        fields: companion_fields(kind, kept),
                    },
                    constant: CompanionConstantView {
                        vis: source.vis,
                        ident: kind.constant_name(),
                        owner: source.ident,
                        generics: source.generics,
                        ty: source.ident + kind.suffix(),
                        entries: constant_entries(kept),
                    },
                },
            )
        },
    }
}

/// The view of a generation result.
pub open spec fn outcome_view(r: Result<Companion, DeriveError>) -> Result<
    CompanionView,
    DeriveError,
> {
    match r {
        Ok(companion) => Ok(companion@),
        Err(e) => Err(e),
    }
}

/// Picks the members of `source` that are of kind `kind`.
fn select_members(source: &SourceType, kind: MemberKind) -> (r: Option<&Vec<Member>>)
    ensures
        match r {
            Some(members) => members_of(source@, kind) == Some(members_view(members@)),
            None => members_of(source@, kind).is_none(),
        },
{
    match kind {
        MemberKind::Field => match &source.members {
            Members::StructMembers(fields) => Some(fields),
            _ => None,
        },
        MemberKind::Variant => match &source.members {
            Members::EnumMembers(variants) => Some(variants),
            _ => None,
        },
    }
}

/// Builds the fields of the companion struct.
fn build_fields(kept: &Vec<(String, String)>, kind: MemberKind) -> (r: Vec<CompanionField>)
    ensures
        r@.map_values(|f: CompanionField| f@) == companion_fields(kind, pairs_view(kept@)),
{
    let mut fields: Vec<CompanionField> = Vec::new();
    let mut i: usize = 0;
    while i < kept.len()
        invariant
            i <= kept@.len(),
            fields@.len() == i,
            forall|j: int|
                0 <= j < i ==> (#[trigger] fields@[j])@ == companion_fields(
                    kind,
                    pairs_view(kept@),
                )[j],
        decreases kept@.len() - i,
    {
        let vis = match kind {
            MemberKind::Field => kept[i].0.clone(),
            MemberKind::Variant => String::from_str("pub"),
        };
        fields.push(CompanionField { vis, ident: kept[i].1.clone() });
        i += 1;
    }
    assert(fields@.map_values(|f: CompanionField| f@) =~= companion_fields(
        kind,
        pairs_view(kept@),
    ));
    fields
}

/// Builds the initializer of the constant.
fn build_entries(kept: &Vec<(String, String)>) -> (r: Vec<ConstantEntry>)
    ensures
        r@.map_values(|e: ConstantEntry| e@) == constant_entries(pairs_view(kept@)),
{
    let mut entries: Vec<ConstantEntry> = Vec::new();
    let mut i: usize = 0;
    while i < kept.len()
        invariant
            i <= kept@.len(),
            entries@.len() == i,
            forall|j: int|
                0 <= j < i ==> (#[trigger] entries@[j])@ == constant_entries(pairs_view(kept@))[j],
        decreases kept@.len() - i,
    {
        entries.push(ConstantEntry { ident: kept[i].1.clone(), value: kept[i].1.clone() });
        i += 1;
    }
    assert(entries@.map_values(|e: ConstantEntry| e@) =~= constant_entries(pairs_view(kept@)));
    entries
}

/// Generates the companion of `source` for its members of kind `kind`.
///
/// Fails, with nothing generated, exactly when `source` has not the shape
/// for members of that kind. A declaration all of whose members are left
/// out, or which has none, gets a companion without fields.
pub fn synthesize(source: &SourceType, kind: MemberKind) -> (r: Result<Companion, DeriveError>)
    ensures
        outcome_view(r) == companion_of(source@, kind),
{
    match select_members(source, kind) {
        None => Err(DeriveError::ShapeMismatch(kind)),
        Some(members) => {
            let kept = filter_fields(members, kind);
            let fields = build_fields(&kept, kind);
            let entries = build_entries(&kept);
            let name = source.ident.clone().concat(kind.suffix_text());
            let ty = CompanionType {
                vis: source.vis.clone(),
                ident: name.clone(),
                allow_non_snake_case: match kind {
                    MemberKind::Field => false,
                    MemberKind::Variant => true,
                },
                fields,
            };
            let constant = CompanionConstant {
                vis: source.vis.clone(),
                ident: String::from_str(kind.constant_name_text()),
                owner: source.ident.clone(),
                generics: source.generics.duplicate(),
                ty: name,
                entries,
            };
            Ok(Companion { ty, constant })
        },
    }
}

} // verus!
