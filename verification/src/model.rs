//! A declaration as the generator reads it.
//!
//! Only what the generator looks at is kept: names, visibilities, generic
//! parameters, and of each annotation whether it is a list and which words
//! its items are. Every type has a view over `Seq<char>` and `Seq`, and the
//! contracts of the crate are stated over the views.

use vstd::prelude::*;

verus! {

/// One item between the parentheses of a list annotation.
#[derive(Debug, PartialEq, Eq)]
pub enum NestedItem {
    /// A bare path that is a single identifier, such as `skip`.
    Word(String),
    /// Anything else: a longer path, a nested list, a name with a value, a
    /// literal.
    Other,
}

pub enum NestedItemView {
    Word(Seq<char>),
    Other,
}

impl View for NestedItem {
    type V = NestedItemView;

    open spec fn view(&self) -> NestedItemView {
        match self {
            NestedItem::Word(word) => NestedItemView::Word(word@),
            NestedItem::Other => NestedItemView::Other,
        }
    }
}

/// An annotation on a member.
#[derive(Debug, PartialEq, Eq)]
pub enum Annotation {
    /// A list annotation `name(item, item, ..)`. `name` is `None` where the
    /// path before the parentheses is more than a single identifier.
    List { name: Option<String>, items: Vec<NestedItem> },
    /// An annotation of any other form, well-formed or not.
    Other,
}

pub enum AnnotationView {
    List { name: Option<Seq<char>>, items: Seq<NestedItemView> },
    Other,
}

impl View for Annotation {
    type V = AnnotationView;

    open spec fn view(&self) -> AnnotationView {
        match self {
            Annotation::List { name, items } => AnnotationView::List {
                name: match name {
                    Some(n) => Some(n@),
                    None => None,
                },
                items: items@.map_values(|item: NestedItem| item@),
            },
            Annotation::Other => AnnotationView::Other,
        }
    }
}

/// A field of a struct or a variant of an enum.
#[derive(Debug, PartialEq, Eq)]
pub struct Member {
    /// The name, spelled as in the declaration.
    pub ident: String,
    /// The tokens of the visibility, empty where none is written. A variant
    /// has none of its own.
    pub vis: String,
    /// The annotations, in the order in which they are written.
    pub attrs: Vec<Annotation>,
}

pub struct MemberView {
    pub ident: Seq<char>,
    pub vis: Seq<char>,
    pub attrs: Seq<AnnotationView>,
}

impl View for Member {
    type V = MemberView;

    open spec fn view(&self) -> MemberView {
        MemberView {
            ident: self.ident@,
            vis: self.vis@,
            attrs: self.attrs@.map_values(|attr: Annotation| attr@),
        }
    }
}

/// The generic parameters of a declaration, as the three runs of tokens in
/// which an `impl` block for the type repeats them.
#[derive(Debug, PartialEq, Eq)]
pub struct Generics {
    /// The parameters with their bounds, angle brackets included.
    pub impl_generics: String,
    /// The parameters as arguments of the type, angle brackets included.
    pub ty_generics: String,
    /// The `where` clause, the keyword included.
    pub where_clause: String,
}

pub struct GenericsView {
    pub impl_generics: Seq<char>,
    pub ty_generics: Seq<char>,
    pub where_clause: Seq<char>,
}

impl View for Generics {
    type V = GenericsView;

    open spec fn view(&self) -> GenericsView {
        GenericsView {
            impl_generics: self.impl_generics@,
            ty_generics: self.ty_generics@,
            where_clause: self.where_clause@,
        }
    }
}

/// The members of a declaration, by its shape.
#[derive(Debug, PartialEq, Eq)]
pub enum Members {
    /// The fields of a struct with named fields, in declaration order.
    StructMembers(Vec<Member>),
    /// The variants of an enum, in declaration order.
    EnumMembers(Vec<Member>),
    /// A tuple struct, a unit struct or a union: nothing can be generated.
    Unsupported,
}

pub enum MembersView {
    StructMembers(Seq<MemberView>),
    EnumMembers(Seq<MemberView>),
    Unsupported,
}

impl View for Members {
    type V = MembersView;

    open spec fn view(&self) -> MembersView {
        match self {
            Members::StructMembers(fields) => MembersView::StructMembers(
                fields@.map_values(|m: Member| m@),
            ),
            Members::EnumMembers(variants) => MembersView::EnumMembers(
                variants@.map_values(|m: Member| m@),
            ),
            Members::Unsupported => MembersView::Unsupported,
        }
    }
}

/// A struct or enum declaration.
#[derive(Debug, PartialEq, Eq)]
pub struct SourceType {
    pub ident: String,
    /// The tokens of the visibility, empty where none is written.
    pub vis: String,
    pub generics: Generics,
    pub members: Members,
}

pub struct SourceTypeView {
    pub ident: Seq<char>,
    pub vis: Seq<char>,
    pub generics: GenericsView,
    pub members: MembersView,
}

impl View for SourceType {
    type V = SourceTypeView;

    open spec fn view(&self) -> SourceTypeView {
        SourceTypeView {
            ident: self.ident@,
            vis: self.vis@,
            generics: self.generics@,
            members: self.members@,
        }
    }
}

/// The views of a list of members.
pub open spec fn members_view(members: Seq<Member>) -> Seq<MemberView> {
    members.map_values(|m: Member| m@)
}

impl Generics {
    /// A copy with the same tokens.
    pub fn duplicate(&self) -> (r: Generics)
        ensures
            r@ == self@,
    {
        Generics {
            impl_generics: self.impl_generics.clone(),
            ty_generics: self.ty_generics.clone(),
            where_clause: self.where_clause.clone(),
        }
    }
}

} // verus!
