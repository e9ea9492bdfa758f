//! Reading a declaration out of its source text.
//!
//! The text is parsed by `syn`. A value of `syn` is opaque here. The functions
//! marked `external_body` take such a value apart, one step each. Of each
//! step one thing is taken on trust: that what it returns depends on the
//! value alone. That result has a name, a specification function without a
//! body whose argument is the value. Over these names, [`source_of`] and the
//! functions before it say what is read out of a parsed declaration, and the
//! functions that do the reading are verified against them.
//!
//! The parser itself has no name for its result: which value it returns for a
//! text depends on whether the process is expanding a macro.
//!
//! What stands between the parentheses of a list annotation is not parsed by
//! `syn`. It is read here, token tree by token tree: the items of a list are
//! the runs of token trees between its commas, and an item is a word where
//! its run is a single identifier. Whatever else stands in a list, a
//! literal of any kind too, is an item of another form and asks for nothing.

use vstd::prelude::*;
use quote::ToTokens;
use crate::companion::text_view;
use crate::error::DeriveError;
use crate::model::{
    members_view, Annotation, AnnotationView, Generics, GenericsView, Member, MemberView, Members,
    MembersView, NestedItem, NestedItemView, SourceType, SourceTypeView,
};

verus! {

/// `syn::DeriveInput`: a parsed declaration. Opaque here.
#[verifier::external_type_specification]
#[verifier::external_body]
pub struct ExDeriveInput(syn::DeriveInput);

/// `syn::Error`: why a text did not parse. Opaque here.
#[verifier::external_type_specification]
#[verifier::external_body]
pub struct ExSyntaxError(syn::Error);

/// `syn::Field`: a field of a struct. Opaque here.
#[verifier::external_type_specification]
#[verifier::external_body]
pub struct ExField(syn::Field);

/// `syn::Variant`: a variant of an enum. Opaque here.
#[verifier::external_type_specification]
#[verifier::external_body]
pub struct ExVariant(syn::Variant);

/// `syn::Visibility`: the visibility of a declaration or of a field. Opaque
/// here.
#[verifier::external_type_specification]
#[verifier::external_body]
pub struct ExVisibility(syn::Visibility);

/// `syn::Attribute`: an attribute. Opaque here.
#[verifier::external_type_specification]
#[verifier::external_body]
pub struct ExAttribute(syn::Attribute);

/// `syn::MetaList`: an attribute that is a path and a group of tokens.
/// Opaque here.
#[verifier::external_type_specification]
#[verifier::external_body]
pub struct ExMetaList(syn::MetaList);

/// `proc_macro2::TokenTree`: a token, or a group of tokens between
/// delimiters. Opaque here.
#[verifier::external_type_specification]
#[verifier::external_body]
pub struct ExTokenTree(proc_macro2::TokenTree);

/// `syn::Path`: a path. Opaque here.
#[verifier::external_type_specification]
#[verifier::external_body]
pub struct ExPath(syn::Path);

/// `proc_macro2::Ident`: an identifier. Opaque here.
#[verifier::external_type_specification]
#[verifier::external_body]
pub struct ExIdent(proc_macro2::Ident);

/// The delimiters of a group of tokens.
#[derive(Clone, Copy, Debug, PartialEq, Eq, Structural)]
pub enum Delimiter {
    Parenthesis,
    Brace,
    Bracket,
}

/// How `to_string` spells an identifier.
pub uninterp spec fn spelling_of(ident: proc_macro2::Ident) -> Seq<char>;

/// How `to_string` spells the tokens of a visibility.
pub uninterp spec fn tokens_of(vis: syn::Visibility) -> Seq<char>;

/// The three parts of `syn::Generics::split_for_impl` for the generic
/// parameters of a declaration, each spelled as its tokens.
pub uninterp spec fn generics_of(ast: syn::DeriveInput) -> GenericsView;

/// The list that an attribute is, where `syn` has read it as one.
pub uninterp spec fn list_of(attr: syn::Attribute) -> Option<syn::MetaList>;

/// The delimiters of the group of a list.
pub uninterp spec fn delimiter_of(list: syn::MetaList) -> Delimiter;

/// The token trees between the delimiters of a list, in order.
pub uninterp spec fn tokens_in(list: syn::MetaList) -> Seq<proc_macro2::TokenTree>;

/// The identifier that a token tree is, where it is one.
pub uninterp spec fn tree_ident_of(tree: proc_macro2::TokenTree) -> Option<proc_macro2::Ident>;

/// The character of the punctuation that a token tree is, where it is one.
pub uninterp spec fn tree_punct_of(tree: proc_macro2::TokenTree) -> Option<char>;

/// What `syn::Path::get_ident` returns for a path.
pub uninterp spec fn single_ident_of(path: syn::Path) -> Option<proc_macro2::Ident>;

/// The name of a declared type.
pub uninterp spec fn declared_ident_of(ast: syn::DeriveInput) -> proc_macro2::Ident;

/// The visibility of a declared type.
pub uninterp spec fn declared_visibility_of(ast: syn::DeriveInput) -> syn::Visibility;

/// The fields of a declaration that is a struct with named fields, in order.
pub uninterp spec fn named_fields_of(ast: syn::DeriveInput) -> Option<Seq<syn::Field>>;

/// The variants of a declaration that is an enum, in order.
pub uninterp spec fn variants_of(ast: syn::DeriveInput) -> Option<Seq<syn::Variant>>;

/// The name of a field, where it has one.
pub uninterp spec fn field_ident_of(field: syn::Field) -> Option<proc_macro2::Ident>;

/// The visibility of a field.
pub uninterp spec fn field_visibility_of(field: syn::Field) -> syn::Visibility;

/// The attributes of a field, in order.
pub uninterp spec fn field_attributes_of(field: syn::Field) -> Seq<syn::Attribute>;

/// The name of a variant.
pub uninterp spec fn variant_ident_of(variant: syn::Variant) -> proc_macro2::Ident;

/// The attributes of a variant, in order.
pub uninterp spec fn variant_attributes_of(variant: syn::Variant) -> Seq<syn::Attribute>;

/// The path before the parentheses of a list.
pub uninterp spec fn path_of(list: syn::MetaList) -> syn::Path;


/// `syn::parse_str` for a `syn::DeriveInput`: parses the declaration of a
/// struct, an enum or a union. Nothing is claimed of the result, and it has
/// no name: the value that comes back for a text is another one while a
/// macro is expanded than outside of that.
#[verifier::external_body]
fn parse_declaration(text: &str) -> Result<syn::DeriveInput, syn::Error> {
    syn::parse_str::<syn::DeriveInput>(text)
}

/// `to_string` of a `proc_macro2::Ident`: the identifier as it is spelled,
/// with `r#` before a raw one. The contract claims that the text depends on
/// the identifier alone, and calls it `spelling_of`.
#[verifier::external_body]
fn ident_text(ident: &proc_macro2::Ident) -> (r: String)
    ensures
        r@ == spelling_of(*ident),
{
    ident.to_string()
}

/// `quote::ToTokens::to_token_stream` of a `syn::Visibility`, spelled by
/// `to_string` of the `proc_macro2::TokenStream`. The contract claims that
/// the text depends on the visibility alone, and calls it `tokens_of`.
#[verifier::external_body]
fn visibility_tokens(vis: &syn::Visibility) -> (r: String)
    ensures
        r@ == tokens_of(*vis),
{
    vis.to_token_stream().to_string()
}

/// `syn::Generics::split_for_impl` on the generic parameters of the declared
/// type, each of the three parts spelled as its tokens. The contract claims
/// that the three texts depend on the declaration alone, and calls them
/// `generics_of`.
#[verifier::external_body]
fn declared_generics(ast: &syn::DeriveInput) -> (r: Generics)
    ensures
        r@ == generics_of(*ast),
{
    let (impl_generics, ty_generics, where_clause) = ast.generics.split_for_impl();
    Generics {
        impl_generics: impl_generics.to_token_stream().to_string(),
        ty_generics: ty_generics.to_token_stream().to_string(),
        where_clause: where_clause.to_token_stream().to_string(),
    }
}

/// The list that an attribute is, where its `syn::Meta` is a
/// `syn::Meta::List`. The contract calls it `list_of`.
#[verifier::external_body]
fn attribute_list(attr: &syn::Attribute) -> (r: Option<&syn::MetaList>)
    ensures
        match r {
            Some(list) => list_of(*attr) == Some(*list),
            None => list_of(*attr) is None,
        },
{
    match &attr.meta {
        syn::Meta::List(list) => Some(list),
        syn::Meta::Path(_) => None,
        syn::Meta::NameValue(_) => None,
    }
}

/// The delimiters of a list, one for each variant of
/// `syn::MacroDelimiter`. The contract calls them `delimiter_of`.
#[verifier::external_body]
fn list_delimiter(list: &syn::MetaList) -> (r: Delimiter)
    ensures
        r == delimiter_of(*list),
{
    match &list.delimiter {
        syn::MacroDelimiter::Paren(_) => Delimiter::Parenthesis,
        syn::MacroDelimiter::Brace(_) => Delimiter::Brace,
        syn::MacroDelimiter::Bracket(_) => Delimiter::Bracket,
    }
}

/// The token trees of a list, in the order in which `into_iter` of their
/// `proc_macro2::TokenStream` hands them out. The contract claims that they
/// depend on the list alone, and calls them `tokens_in`.
#[verifier::external_body]
fn list_tokens(list: &syn::MetaList) -> (r: Vec<proc_macro2::TokenTree>)
    ensures
        r@ == tokens_in(*list),
{
    list.tokens.clone().into_iter().collect()
}

/// The identifier that a token tree is, where it is a
/// `proc_macro2::TokenTree::Ident`. The contract calls it `tree_ident_of`.
#[verifier::external_body]
fn tree_ident(tree: &proc_macro2::TokenTree) -> (r: Option<&proc_macro2::Ident>)
    ensures
        match r {
            Some(ident) => tree_ident_of(*tree) == Some(*ident),
            None => tree_ident_of(*tree) is None,
        },
{
    match tree {
        proc_macro2::TokenTree::Ident(ident) => Some(ident),
        proc_macro2::TokenTree::Group(_) => None,
        proc_macro2::TokenTree::Punct(_) => None,
        proc_macro2::TokenTree::Literal(_) => None,
    }
}

/// `proc_macro2::Punct::as_char` of a token tree that is a
/// `proc_macro2::TokenTree::Punct`. The contract claims that the character
/// depends on the token tree alone, and calls it `tree_punct_of`.
#[verifier::external_body]
fn tree_punct(tree: &proc_macro2::TokenTree) -> (r: Option<char>)
    ensures
        r == tree_punct_of(*tree),
{
    match tree {
        proc_macro2::TokenTree::Punct(punct) => Some(punct.as_char()),
        proc_macro2::TokenTree::Group(_) => None,
        proc_macro2::TokenTree::Ident(_) => None,
        proc_macro2::TokenTree::Literal(_) => None,
    }
}

/// `syn::Path::get_ident`: the identifier that a path consists of, where it
/// is a single one without a leading colon and without arguments. The
/// contract claims that the result depends on the path alone, and calls it
/// `single_ident_of`.
#[verifier::external_body]
fn single_ident(path: &syn::Path) -> (r: Option<&proc_macro2::Ident>)
    ensures
        match r {
            Some(ident) => single_ident_of(*path) == Some(*ident),
            None => single_ident_of(*path) is None,
        },
{
    path.get_ident()
}

/// The name of the declared type. The contract calls it `declared_ident_of`.
#[verifier::external_body]
fn declared_ident(ast: &syn::DeriveInput) -> (r: &proc_macro2::Ident)
    ensures
        *r == declared_ident_of(*ast),
{
    &ast.ident
}

/// The visibility of the declared type. The contract calls it
/// `declared_visibility_of`.
#[verifier::external_body]
fn declared_visibility(ast: &syn::DeriveInput) -> (r: &syn::Visibility)
    ensures
        *r == declared_visibility_of(*ast),
{
    &ast.vis
}

/// The fields of the declaration where it is `syn::Data::Struct` with
/// `syn::Fields::Named`, in the order of `syn::punctuated::Punctuated::iter`.
/// The contract claims that they depend on the declaration alone, and calls
/// them `named_fields_of`.
#[verifier::external_body]
fn named_fields(ast: &syn::DeriveInput) -> (r: Option<Vec<&syn::Field>>)
    ensures
        match r {
            Some(fields) => named_fields_of(*ast) == Some(fields@.unref()),
            None => named_fields_of(*ast) is None,
        },
{
    match &ast.data {
        syn::Data::Struct(data) => match &data.fields {
            syn::Fields::Named(fields) => Some(fields.named.iter().collect()),
            syn::Fields::Unnamed(_) => None,
            syn::Fields::Unit => None,
        },
        syn::Data::Enum(_) => None,
        syn::Data::Union(_) => None,
    }
}

/// The variants of the declaration where it is `syn::Data::Enum`, in the
/// order of `syn::punctuated::Punctuated::iter`. The contract claims that
/// they depend on the declaration alone, and calls them `variants_of`.
#[verifier::external_body]
fn enum_variants(ast: &syn::DeriveInput) -> (r: Option<Vec<&syn::Variant>>)
    ensures
        match r {
            Some(variants) => variants_of(*ast) == Some(variants@.unref()),
            None => variants_of(*ast) is None,
        },
{
    match &ast.data {
        syn::Data::Struct(_) => None,
        syn::Data::Enum(data) => Some(data.variants.iter().collect()),
        syn::Data::Union(_) => None,
    }
}

/// The name of a field, where it has one. The contract calls it
/// `field_ident_of`.
#[verifier::external_body]
fn field_ident(field: &syn::Field) -> (r: Option<&proc_macro2::Ident>)
    ensures
        match r {
            Some(ident) => field_ident_of(*field) == Some(*ident),
            None => field_ident_of(*field) is None,
        },
{
    field.ident.as_ref()
}

/// The visibility of a field. The contract calls it `field_visibility_of`.
#[verifier::external_body]
fn field_visibility(field: &syn::Field) -> (r: &syn::Visibility)
    ensures
        *r == field_visibility_of(*field),
{
    &field.vis
}

/// The attributes of a field. The contract calls them
/// `field_attributes_of`.
#[verifier::external_body]
fn field_attributes(field: &syn::Field) -> (r: &Vec<syn::Attribute>)
    ensures
        r@ == field_attributes_of(*field),
{
    &field.attrs
}

/// The name of a variant. The contract calls it `variant_ident_of`.
#[verifier::external_body]
fn variant_ident(variant: &syn::Variant) -> (r: &proc_macro2::Ident)
    ensures
        *r == variant_ident_of(*variant),
{
    &variant.ident
}

/// The attributes of a variant. The contract calls them
/// `variant_attributes_of`.
#[verifier::external_body]
fn variant_attributes(variant: &syn::Variant) -> (r: &Vec<syn::Attribute>)
    ensures
        r@ == variant_attributes_of(*variant),
{
    &variant.attrs
}

/// The path before the parentheses of a list. The contract calls it
/// `path_of`.
#[verifier::external_body]
fn list_path(list: &syn::MetaList) -> (r: &syn::Path)
    ensures
        *r == path_of(*list),
{
    &list.path
}

/// The spelling of the single identifier that a path consists of; nothing
/// for a path of another form.
pub open spec fn word_of(path: syn::Path) -> Option<Seq<char>> {
    match single_ident_of(path) {
        Some(ident) => Some(spelling_of(ident)),
        None => None,
    }
}

/// Whether a token tree is a comma.
pub open spec fn is_comma(tree: proc_macro2::TokenTree) -> bool {
    tree_punct_of(tree) == Some(',')
}

/// An item of a list as the filter reads it: a word where the run of token
/// trees that makes the item is a single identifier, and `Other` for
/// everything else.
pub open spec fn item_of(run: Seq<proc_macro2::TokenTree>) -> NestedItemView {
    if run.len() == 1 && tree_ident_of(run[0]) is Some {
        NestedItemView::Word(spelling_of(tree_ident_of(run[0])->Some_0))
    } else {
        NestedItemView::Other
    }
}

/// The item that the token trees from `start` up to `end` make, where there
/// are any.
pub open spec fn run_items(trees: Seq<proc_macro2::TokenTree>, start: int, end: int) -> Seq<
    NestedItemView,
> {
    if start < end {
        seq![item_of(trees.subrange(start, end))]
    } else {
        Seq::empty()
    }
}

/// The items of `trees` from `start` on, where no token tree from `start` up
/// to `at` is a comma.
pub open spec fn items_from(trees: Seq<proc_macro2::TokenTree>, start: int, at: int) -> Seq<
    NestedItemView,
>
    decreases trees.len() - at,
{
    if at >= trees.len() {
        run_items(trees, start, at)
    } else if is_comma(trees[at]) {
        run_items(trees, start, at) + items_from(trees, at + 1, at + 1)
    } else {
        items_from(trees, start, at + 1)
    }
}

/// The items of a list: the runs of token trees between its commas, in
/// order. A run without a token tree is no item.
pub open spec fn items_of(trees: Seq<proc_macro2::TokenTree>) -> Seq<NestedItemView> {
    items_from(trees, 0, 0)
}

/// An attribute as the filter reads it: a list with the word of its path and
/// its items where the attribute is a path and a group in parentheses, and
/// `Other` where it is of another form.
pub open spec fn annotation_of(attr: syn::Attribute) -> AnnotationView {
    match list_of(attr) {
        Some(list) => if delimiter_of(list) == Delimiter::Parenthesis {
            AnnotationView::List {
                name: word_of(path_of(list)),
                items: items_of(tokens_in(list)),
            }
        } else {
            AnnotationView::Other
        },
        None => AnnotationView::Other,
    }
}

/// The attributes of a member as the filter reads them, in order.
pub open spec fn annotations_of(attrs: Seq<syn::Attribute>) -> Seq<AnnotationView> {
    attrs.map_values(|attr: syn::Attribute| annotation_of(attr))
}

/// A field as a member: its name, the tokens of its visibility and its
/// annotations. The name of a field without one is arbitrary.
pub open spec fn field_member(field: syn::Field) -> MemberView {
    MemberView {
        ident: spelling_of(field_ident_of(field)->Some_0),
        vis: tokens_of(field_visibility_of(field)),
        attrs: annotations_of(field_attributes_of(field)),
    }
}

/// The fields of a struct as members, in order, where every one of them has
/// a name.
pub open spec fn field_members(fields: Seq<syn::Field>) -> Option<Seq<MemberView>> {
    if forall|i: int| 0 <= i < fields.len() ==> field_ident_of(#[trigger] fields[i]) is Some {
        Some(fields.map_values(|field: syn::Field| field_member(field)))
    } else {
        None
    }
}

/// A variant as a member: its name and its annotations. It has no visibility
/// of its own.
pub open spec fn variant_member(variant: syn::Variant) -> MemberView {
    MemberView {
        ident: spelling_of(variant_ident_of(variant)),
        vis: Seq::empty(),
        attrs: annotations_of(variant_attributes_of(variant)),
    }
}

/// The variants of an enum as members, in order.
pub open spec fn variant_members(variants: Seq<syn::Variant>) -> Seq<MemberView> {
    variants.map_values(|variant: syn::Variant| variant_member(variant))
}

/// The members of a declaration by its shape: the fields of a struct all of
/// whose fields are named, the variants of an enum, and `Unsupported` for a
/// tuple struct, a unit struct and a union.
pub open spec fn members_in(ast: syn::DeriveInput) -> MembersView {
    match named_fields_of(ast) {
        Some(fields) => match field_members(fields) {
            Some(members) => MembersView::StructMembers(members),
            None => MembersView::Unsupported,
        },
        None => match variants_of(ast) {
            Some(variants) => MembersView::EnumMembers(variant_members(variants)),
            None => MembersView::Unsupported,
        },
    }
}

/// What is read out of a parsed declaration.
pub open spec fn source_of(ast: syn::DeriveInput) -> SourceTypeView {
    SourceTypeView {
        ident: spelling_of(declared_ident_of(ast)),
        vis: tokens_of(declared_visibility_of(ast)),
        generics: generics_of(ast),
        members: members_in(ast),
    }
}

/// The views of a list of annotations.
pub open spec fn annotations_view(attrs: Seq<Annotation>) -> Seq<AnnotationView> {
    attrs.map_values(|attr: Annotation| attr@)
}

/// The single identifier that a path is, as text.
fn path_word(path: &syn::Path) -> (r: Option<String>)
    ensures
        text_view(r) == word_of(*path),
{
    match single_ident(path) {
        Some(ident) => Some(ident_text(ident)),
        None => None,
    }
}

/// Reads one item of a list out of the token trees from `start` up to
/// `end`: a word where they are a single identifier.
fn read_item(trees: &Vec<proc_macro2::TokenTree>, start: usize, end: usize) -> (r: NestedItem)
    requires
        start < end <= trees@.len(),
    ensures
        r@ == item_of(trees@.subrange(start as int, end as int)),
{
    if end - start == 1 {
        match tree_ident(&trees[start]) {
            Some(ident) => NestedItem::Word(ident_text(ident)),
            None => NestedItem::Other,
        }
    } else {
        NestedItem::Other
    }
}

/// Tells whether a token tree is a comma.
fn is_comma_tree(tree: &proc_macro2::TokenTree) -> (r: bool)
    ensures
        r == is_comma(*tree),
{
    match tree_punct(tree) {
        Some(c) => c == ',',
        None => false,
    }
}

/// Reads the items of a list out of its token trees.
fn read_items(trees: &Vec<proc_macro2::TokenTree>) -> (r: Vec<NestedItem>)
    ensures
        r@.map_values(|item: NestedItem| item@) == items_of(trees@),
{
    let mut items: Vec<NestedItem> = Vec::new();
    let mut start: usize = 0;
    let mut at: usize = 0;
    let ghost all = trees@;
    proof {
        assert(items@.map_values(|item: NestedItem| item@) + items_from(all, 0, 0) =~= items_of(
            all,
        ));
    }
    while at < trees.len()
        invariant
            start <= at <= trees@.len(),
            all == trees@,
            items@.map_values(|item: NestedItem| item@) + items_from(all, start as int, at as int)
                == items_of(all),
        decreases trees@.len() - at,
    {
        let ghost before = items@.map_values(|item: NestedItem| item@);
        if is_comma_tree(&trees[at]) {
            if start < at {
                items.push(read_item(trees, start, at));
            }
            proof {
                let now = items@.map_values(|item: NestedItem| item@);
                assert(now =~= before + run_items(all, start as int, at as int));
                assert(now + items_from(all, at + 1, at + 1) =~= before + items_from(
                    all,
                    start as int,
                    at as int,
                ));
            }
            start = at + 1;
        }
        at += 1;
    }
    let ghost before = items@.map_values(|item: NestedItem| item@);
    if start < at {
        items.push(read_item(trees, start, at));
    }
    proof {
        let now = items@.map_values(|item: NestedItem| item@);
        assert(now =~= before + run_items(all, start as int, at as int));
    }
    items
}

/// Reads one annotation. One that is no path with a group in parentheses is
/// kept as `Annotation::Other`: it is no error.
fn read_annotation(attr: &syn::Attribute) -> (r: Annotation)
    ensures
        r@ == annotation_of(*attr),
{
    match attribute_list(attr) {
        None => Annotation::Other,
        Some(list) => match list_delimiter(list) {
            Delimiter::Parenthesis => {
                let name = path_word(list_path(list));
                let items = read_items(&list_tokens(list));
                Annotation::List { name, items }
            },
            Delimiter::Brace => Annotation::Other,
            Delimiter::Bracket => Annotation::Other,
        },
    }
}

/// Reads the annotations of a member, in order.
fn read_annotations(attrs: &Vec<syn::Attribute>) -> (r: Vec<Annotation>)
    ensures
        annotations_view(r@) == annotations_of(attrs@),
{
    let mut out: Vec<Annotation> = Vec::new();
    let mut i: usize = 0;
    while i < attrs.len()
        invariant
            i <= attrs@.len(),
            out@.len() == i,
            forall|j: int| 0 <= j < i ==> (#[trigger] out@[j])@ == annotation_of(attrs@[j]),
        decreases attrs@.len() - i,
    {
        out.push(read_annotation(&attrs[i]));
        i += 1;
    }
    assert(annotations_view(out@) =~= annotations_of(attrs@));
    out
}

/// Reads the fields of a struct, in order. `None` where a field has no name.
fn read_fields(fields: &Vec<&syn::Field>) -> (r: Option<Vec<Member>>)
    ensures
        match r {
            Some(members) => field_members(fields@.unref()) == Some(members_view(members@)),
            None => field_members(fields@.unref()) is None,
        },
{
    let mut out: Vec<Member> = Vec::new();
    let mut i: usize = 0;
    while i < fields.len()
        invariant
            i <= fields@.len(),
            out@.len() == i,
            forall|j: int| 0 <= j < i ==> field_ident_of(*#[trigger] fields@[j]) is Some,
            forall|j: int| 0 <= j < i ==> (#[trigger] out@[j])@ == field_member(*fields@[j]),
        decreases fields@.len() - i,
    {
        let field = fields[i];
        match field_ident(field) {
            None => {
                assert(fields@.unref()[i as int] == *fields@[i as int]);
                return None;
            },
            Some(ident) => {
                let attrs = read_annotations(field_attributes(field));
                assert(attrs@.map_values(|attr: Annotation| attr@) == annotations_view(attrs@));
                out.push(
                    Member {
                        ident: ident_text(ident),
                        vis: visibility_tokens(field_visibility(field)),
                        attrs,
                    },
                );
            },
        }
        i += 1;
    }
    proof {
        let all = fields@.unref();
        assert forall|j: int| 0 <= j < all.len() implies field_ident_of(
            #[trigger] all[j],
        ) is Some by {
            assert(all[j] == *fields@[j]);
        }
        assert(members_view(out@) =~= all.map_values(|field: syn::Field| field_member(field)));
    }
    Some(out)
}

/// Reads the variants of an enum, in order. A variant has no visibility of
/// its own.
fn read_variants(variants: &Vec<&syn::Variant>) -> (r: Vec<Member>)
    ensures
        members_view(r@) == variant_members(variants@.unref()),
{
    let mut out: Vec<Member> = Vec::new();
    let mut i: usize = 0;
    while i < variants.len()
        invariant
            i <= variants@.len(),
            out@.len() == i,
            forall|j: int| 0 <= j < i ==> (#[trigger] out@[j])@ == variant_member(*variants@[j]),
        decreases variants@.len() - i,
    {
        let variant = variants[i];
        let attrs = read_annotations(variant_attributes(variant));
        assert(attrs@.map_values(|attr: Annotation| attr@) == annotations_view(attrs@));
        out.push(Member { ident: ident_text(variant_ident(variant)), vis: String::new(), attrs });
        i += 1;
    }
    assert(members_view(out@) =~= variant_members(variants@.unref()));
    out
}

/// Reads the members of a declaration by its shape.
fn read_members(ast: &syn::DeriveInput) -> (r: Members)
    ensures
        r@ == members_in(*ast),
{
    match named_fields(ast) {
        Some(fields) => match read_fields(&fields) {
            Some(members) => Members::StructMembers(members),
            None => Members::Unsupported,
        },
        None => match enum_variants(ast) {
            Some(variants) => Members::EnumMembers(read_variants(&variants)),
            None => Members::Unsupported,
        },
    }
}

/// Reads what the generator needs of a parsed declaration: name, visibility,
/// generic parameters, and the members by shape.
pub fn read_declaration(ast: &syn::DeriveInput) -> (r: SourceType)
    ensures
        r@ == source_of(*ast),
{
    SourceType {
        ident: ident_text(declared_ident(ast)),
        vis: visibility_tokens(declared_visibility(ast)),
        generics: declared_generics(ast),
        members: read_members(ast),
    }
}

/// Parses `input` as the declaration of a type and reads what the generator
/// needs of it.
///
/// Whether `input` parses, and as what, is for `syn` to say. Where it does,
/// the result is what [`read_declaration`] reads out of the parsed
/// declaration: a tuple struct, a unit struct and a union are read, with
/// `Members::Unsupported`, and the variants of an enum are read without a
/// visibility. Where it does not, the failure is `DeriveError::Syntax`.
pub fn read_source(input: &str) -> (r: Result<SourceType, DeriveError>)
    ensures
        match r {
            Ok(source) => exists|ast: syn::DeriveInput| source@ == #[trigger] source_of(ast),
            Err(e) => e == DeriveError::Syntax,
        },
{
    match parse_declaration(input) {
        Err(_) => Err(DeriveError::Syntax),
        Ok(ast) => {
            let source = read_declaration(&ast);
            assert(source@ == source_of(ast));
            Ok(source)
        },
    }
}

} // verus!
