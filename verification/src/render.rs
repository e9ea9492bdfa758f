//! The companion as source text.
//!
//! The text is one line: the struct declaration, a space, and the `impl`
//! block with the constant. Every field and every entry of the initializer
//! ends with a comma. The tokens of visibilities and generic parameters are
//! copied as they are.

use vstd::prelude::*;
use vstd::string::StringExecFns;
use crate::companion::{
    Companion, CompanionConstant, CompanionConstantView, CompanionField, CompanionFieldView,
    CompanionType, CompanionTypeView, CompanionView, ConstantEntry, ConstantEntryView,
};

verus! {

/// The tokens of a visibility and the space that parts them from what
/// follows; nothing where no visibility is written.
pub open spec fn visibility_prefix(vis: Seq<char>) -> Seq<char> {
    if vis.len() == 0 {
        Seq::empty()
    } else {
        vis + " "@
    }
}

/// The attribute that goes before a struct whose fields are named after
/// variants.
pub open spec fn lint_prefix(allow_non_snake_case: bool) -> Seq<char> {
    if allow_non_snake_case {
        "#[allow(non_snake_case)] "@
    } else {
        Seq::empty()
    }
}

/// One field of the struct: `vis ident: &'static str, `.
pub open spec fn field_text(field: CompanionFieldView) -> Seq<char> {
    visibility_prefix(field.vis) + field.ident + ": &'static str, "@
}

/// One entry of the initializer: `ident: "value", `.
pub open spec fn entry_text(entry: ConstantEntryView) -> Seq<char> {
    entry.ident + ": \""@ + entry.value + "\", "@
}

/// The fields of the struct, one after the other.
pub open spec fn fields_text(fields: Seq<CompanionFieldView>) -> Seq<char> {
    fields.map_values(|f: CompanionFieldView| field_text(f)).flatten()
}

/// The entries of the initializer, one after the other.
pub open spec fn entries_text(entries: Seq<ConstantEntryView>) -> Seq<char> {
    entries.map_values(|e: ConstantEntryView| entry_text(e)).flatten()
}

/// The declaration of the companion struct.
pub open spec fn type_text(ty: CompanionTypeView) -> Seq<char> {
    lint_prefix(ty.allow_non_snake_case) + visibility_prefix(ty.vis) + "struct "@ + ty.ident
        + " { "@ + fields_text(ty.fields) + "}"@
}

/// The `impl` block that holds the constant. The generic parameters stand
/// where an `impl` block of the declared type has them.
pub open spec fn constant_text(constant: CompanionConstantView) -> Seq<char> {
    "impl"@ + constant.generics.impl_generics + " "@ + constant.owner
        + constant.generics.ty_generics + " "@ + constant.generics.where_clause + " { "@
        + visibility_prefix(constant.vis) + "const "@ + constant.ident + ": "@ + constant.ty
        + " = "@ + constant.ty + " { "@ + entries_text(constant.entries) + "}; }"@
}

/// Both declarations.
pub open spec fn companion_text(companion: CompanionView) -> Seq<char> {
    type_text(companion.ty) + " "@ + constant_text(companion.constant)
}

/// Appends a visibility and the space after it.
fn push_visibility(out: &mut String, vis: &String)
    ensures
        final(out)@ == old(out)@ + visibility_prefix(vis@),
{
    if !vis.as_str().is_empty() {
        out.append(vis.as_str());
        out.append(" ");
        assert(out@ =~= old(out)@ + (vis@ + " "@));
    } else {
        assert(out@ =~= old(out)@ + Seq::<char>::empty());
    }
}

/// Appends the fields of the struct.
fn push_fields(out: &mut String, fields: &Vec<CompanionField>)
    ensures
        final(out)@ == old(out)@ + fields_text(fields@.map_values(|f: CompanionField| f@)),
{
    let ghost views = fields@.map_values(|f: CompanionField| f@);
    let ghost texts = views.map_values(|f: CompanionFieldView| field_text(f));
    let mut i: usize = 0;
    proof {
        assert(texts.take(0) =~= Seq::<Seq<char>>::empty());
        assert(out@ =~= old(out)@ + texts.take(0).flatten());
    }
    while i < fields.len()
        invariant
            i <= fields@.len(),
            views == fields@.map_values(|f: CompanionField| f@),
            texts == views.map_values(|f: CompanionFieldView| field_text(f)),
            out@ == old(out)@ + texts.take(i as int).flatten(),
        decreases fields@.len() - i,
    {
        let ghost before = out@;
        let field = &fields[i];
        push_visibility(out, &field.vis);
        out.append(field.ident.as_str());
        out.append(": &'static str, ");
        proof {
            assert(out@ =~= before + field_text(field@));
            assert(texts.take(i + 1) =~= texts.take(i as int).push(field_text(field@)));
            texts.take(i as int).lemma_flatten_push(field_text(field@));
            assert(out@ =~= old(out)@ + texts.take(i + 1).flatten());
        }
        i += 1;
    }
    proof {
        assert(texts.take(i as int) =~= texts);
    }
}

/// Appends the entries of the initializer.
fn push_entries(out: &mut String, entries: &Vec<ConstantEntry>)
    ensures
        final(out)@ == old(out)@ + entries_text(entries@.map_values(|e: ConstantEntry| e@)),
{
    let ghost views = entries@.map_values(|e: ConstantEntry| e@);
    let ghost texts = views.map_values(|e: ConstantEntryView| entry_text(e));
    let mut i: usize = 0;
    proof {
        assert(texts.take(0) =~= Seq::<Seq<char>>::empty());
        assert(out@ =~= old(out)@ + texts.take(0).flatten());
    }
    while i < entries.len()
        invariant
            i <= entries@.len(),
            views == entries@.map_values(|e: ConstantEntry| e@),
            texts == views.map_values(|e: ConstantEntryView| entry_text(e)),
            out@ == old(out)@ + texts.take(i as int).flatten(),
        decreases entries@.len() - i,
    {
        let ghost before = out@;
        let entry = &entries[i];
        out.append(entry.ident.as_str());
        out.append(": \"");
        out.append(entry.value.as_str());
        out.append("\", ");
        proof {
            assert(out@ =~= before + entry_text(entry@));
            assert(texts.take(i + 1) =~= texts.take(i as int).push(entry_text(entry@)));
            texts.take(i as int).lemma_flatten_push(entry_text(entry@));
            assert(out@ =~= old(out)@ + texts.take(i + 1).flatten());
        }
        i += 1;
    }
    proof {
        assert(texts.take(i as int) =~= texts);
    }
}

impl CompanionType {
    /// Writes the declaration of the struct.
    pub fn render(&self) -> (r: String)
        ensures
            r@ == type_text(self@),
    {
        let mut out = String::new();
        if self.allow_non_snake_case {
            out.append("#[allow(non_snake_case)] ");
        }
        assert(out@ =~= lint_prefix(self.allow_non_snake_case));
        push_visibility(&mut out, &self.vis);
        out.append("struct ");
        out.append(self.ident.as_str());
        out.append(" { ");
        push_fields(&mut out, &self.fields);
        out.append("}");
        out
    }
}

impl CompanionConstant {
    /// Writes the `impl` block with the constant.
    pub fn render(&self) -> (r: String)
        ensures
            r@ == constant_text(self@),
    {
        let mut out = String::from_str("impl");
        out.append(self.generics.impl_generics.as_str());
        out.append(" ");
        out.append(self.owner.as_str());
        out.append(self.generics.ty_generics.as_str());
        out.append(" ");
        out.append(self.generics.where_clause.as_str());
        out.append(" { ");
        push_visibility(&mut out, &self.vis);
        out.append("const ");
        out.append(self.ident.as_str());
        out.append(": ");
        out.append(self.ty.as_str());
        out.append(" = ");
        out.append(self.ty.as_str());
        out.append(" { ");
        push_entries(&mut out, &self.entries);
        out.append("}; }");
        out
    }
}

impl Companion {
    /// Writes both declarations.
    pub fn render(&self) -> (r: String)
        ensures
            r@ == companion_text(self@),
    {
        let mut out = self.ty.render();
        out.append(" ");
        out.append(self.constant.render().as_str());
        out
    }
}

} // verus!
