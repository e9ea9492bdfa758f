//! What holds of every companion.
//!
//! Each law is stated over [`companion_of`], the specification that
//! [`synthesize`](crate::companion::synthesize) is verified against, and so
//! holds of every companion that is generated. The last three say the same
//! of what is read out of a parsed declaration, over the names that
//! [`source_of`] is made of.

use vstd::prelude::*;
use crate::companion::{
    companion_of, first_value, members_of, CompanionFieldView, CompanionView, ConstantEntryView,
};
use crate::error::DeriveError;
use crate::filter::retained;
use crate::kind::{unrestricted, MemberKind};
use crate::model::{MemberView, SourceTypeView};
use crate::syntax::{
    field_ident_of, field_member, generics_of, named_fields_of, source_of, spelling_of,
    variant_ident_of, variant_member, variants_of,
};

verus! {

/// Whether the companion struct has a field called `name`.
pub open spec fn has_member(companion: CompanionView, name: Seq<char>) -> bool {
    exists|j: int|
        0 <= j < companion.ty.fields.len() && (#[trigger] companion.ty.fields[j]).ident == name
}

/// Whether the constant has a field called `name`.
pub open spec fn has_entry(companion: CompanionView, name: Seq<char>) -> bool {
    exists|j: int|
        0 <= j < companion.constant.entries.len()
            && (#[trigger] companion.constant.entries[j]).ident == name
}

/// Whether no two members have the same name.
pub open spec fn distinct_names(members: Seq<MemberView>) -> bool {
    forall|i: int, j: int|
        0 <= i < members.len() && 0 <= j < members.len() && i != j ==> (#[trigger] members[i]).ident
            != (#[trigger] members[j]).ident
}

/// The names of a list of members.
pub open spec fn names(members: Seq<MemberView>) -> Seq<Seq<char>> {
    members.map_values(|m: MemberView| m.ident)
}

/// The names of the fields of the companion struct.
pub open spec fn member_names(companion: CompanionView) -> Seq<Seq<char>> {
    companion.ty.fields.map_values(|f: CompanionFieldView| f.ident)
}

proof fn lemma_filter_keeps_all<A>(s: Seq<A>, pred: spec_fn(A) -> bool)
    requires
        forall|i: int| 0 <= i < s.len() ==> pred(#[trigger] s[i]),
    ensures
        s.filter(pred) == s,
    decreases s.len(),
{
    reveal(Seq::filter);
    if s.len() > 0 {
        lemma_filter_keeps_all(s.drop_last(), pred);
        assert(s.drop_last().push(s.last()) =~= s);
    }
}

proof fn lemma_filter_drops_all<A>(s: Seq<A>, pred: spec_fn(A) -> bool)
    requires
        forall|i: int| 0 <= i < s.len() ==> !pred(#[trigger] s[i]),
    ensures
        s.filter(pred).len() == 0,
    decreases s.len(),
{
    reveal(Seq::filter);
    if s.len() > 0 {
        lemma_filter_drops_all(s.drop_last(), pred);
    }
}

proof fn lemma_same_marks_same_names(a: Seq<MemberView>, b: Seq<MemberView>, marker: Seq<char>)
    requires
        a.len() == b.len(),
        forall|i: int| 0 <= i < a.len() ==> (#[trigger] a[i]).ident == b[i].ident,
        forall|i: int|
            0 <= i < a.len() ==> (#[trigger] a[i]).is_skipped(marker) == b[i].is_skipped(marker),
    ensures
        names(retained(a, marker)) == names(retained(b, marker)),
    decreases a.len(),
{
    reveal(Seq::filter);
    if a.len() > 0 {
        lemma_same_marks_same_names(a.drop_last(), b.drop_last(), marker);
        let stays = |m: MemberView| !m.is_skipped(marker);
        let ka = a.drop_last().filter(stays);
        let kb = b.drop_last().filter(stays);
        assert(names(ka) == names(kb));
        assert(a.last().ident == b.last().ident);
        assert(a.last().is_skipped(marker) == b.last().is_skipped(marker));
        if stays(a.last()) {
            assert(a.filter(stays) == ka.push(a.last()));
            assert(b.filter(stays) == kb.push(b.last()));
            assert(names(ka.push(a.last())) =~= names(ka).push(a.last().ident));
            assert(names(kb.push(b.last())) =~= names(kb).push(b.last().ident));
        } else {
            assert(a.filter(stays) == ka);
            assert(b.filter(stays) == kb);
        }
    } else {
        assert(names(retained(a, marker)) =~= names(retained(b, marker)));
    }
}

proof fn lemma_first_value(entries: Seq<ConstantEntryView>, name: Seq<char>)
    ensures
        first_value(entries, name) is None <==> forall|j: int|
            0 <= j < entries.len() ==> (#[trigger] entries[j]).ident != name,
        first_value(entries, name) matches Some(v) ==> exists|j: int|
            0 <= j < entries.len() && (#[trigger] entries[j]).ident == name && entries[j].value
                == v,
    decreases entries.len(),
{
    if entries.len() > 0 {
        let rest = entries.drop_first();
        lemma_first_value(rest, name);
        assert(forall|j: int| 0 <= j < rest.len() ==> #[trigger] rest[j] == entries[j + 1]);
        if entries.first().ident == name {
            assert(entries[0].ident == name);
        } else {
            if first_value(rest, name) is None {
                assert forall|j: int| 0 <= j < entries.len() implies (#[trigger] entries[j]).ident
                    != name by {
                    if j > 0 {
                        assert(rest[j - 1] == entries[j]);
                    }
                }
            } else {
                let v = first_value(rest, name)->Some_0;
                let j = choose|j: int|
                    0 <= j < rest.len() && (#[trigger] rest[j]).ident == name && rest[j].value == v;
                assert(entries[j + 1].ident == name && entries[j + 1].value == v);
            }
        }
    }
}

/// A companion is generated exactly for a declaration of the shape that the
/// kind asks for: a struct with named fields for fields, an enum for
/// variants. Every other declaration fails with a shape mismatch, and nothing
/// is generated for it.
pub proof fn law_shape_decides(source: SourceTypeView, kind: MemberKind)
    ensures
        companion_of(source, kind) is Ok <==> members_of(source, kind) is Some,
        companion_of(source, kind) is Err ==> companion_of(source, kind)
            == Err::<CompanionView, DeriveError>(DeriveError::ShapeMismatch(kind)),
        members_of(source, MemberKind::Field) is Some <==> source.members is StructMembers,
        members_of(source, MemberKind::Variant) is Some <==> source.members is EnumMembers,
{
}

/// Every field of the constant holds the spelling of its own name, and the
/// constant has the fields of the companion struct, in the same order.
pub proof fn law_constant_spells_names(source: SourceTypeView, kind: MemberKind)
    requires
        companion_of(source, kind) is Ok,
    ensures
        ({
            let c = companion_of(source, kind)->Ok_0;
            &&& c.constant.ty == c.ty.ident
            &&& c.constant.entries.len() == c.ty.fields.len()
            &&& forall|j: int|
                0 <= j < c.constant.entries.len() ==> {
                    &&& (#[trigger] c.constant.entries[j]).value == c.constant.entries[j].ident
                    &&& c.constant.entries[j].ident == c.ty.fields[j].ident
                }
        }),
{
}

/// The companion struct is called as the declared type with the suffix of
/// the kind, and the constant has the name of the kind and belongs to the
/// declared type. The two suffixes differ, so that the two companions of one
/// name never have the same name.
pub proof fn law_fixed_names(source: SourceTypeView, kind: MemberKind)
    requires
        companion_of(source, kind) is Ok,
    ensures
        companion_of(source, kind)->Ok_0.ty.ident == source.ident + kind.suffix(),
        companion_of(source, kind)->Ok_0.constant.ident == kind.constant_name(),
        companion_of(source, kind)->Ok_0.constant.owner == source.ident,
        source.ident + MemberKind::Field.suffix() != source.ident + MemberKind::Variant.suffix(),
{
    reveal_strlit("FieldStaticStr");
    reveal_strlit("VariantsStaticStr");
    assert((source.ident + MemberKind::Field.suffix()).len() != (source.ident
        + MemberKind::Variant.suffix()).len());
}

/// Where no member is marked, the constant has one field for each member, in
/// declaration order, called as the member and holding the exact spelling of
/// the member's name.
pub proof fn law_unmarked_members_named_in_order(source: SourceTypeView, kind: MemberKind)
    requires
        members_of(source, kind) is Some,
        forall|i: int|
            0 <= i < members_of(source, kind)->Some_0.len() ==> !(#[trigger] members_of(
                source,
                kind,
            )->Some_0[i]).is_skipped(kind.marker()),
    ensures
        companion_of(source, kind) is Ok,
        ({
            let members = members_of(source, kind)->Some_0;
            let c = companion_of(source, kind)->Ok_0;
            &&& c.constant.entries.len() == members.len()
            &&& c.ty.fields.len() == members.len()
            &&& forall|i: int|
                0 <= i < members.len() ==> {
                    &&& (#[trigger] c.constant.entries[i]) == ConstantEntryView {
                        ident: members[i].ident,
                        value: members[i].ident,
                    }
                    &&& c.ty.fields[i].ident == members[i].ident
                }
        }),
{
    let members = members_of(source, kind)->Some_0;
    lemma_filter_keeps_all(members, |m: MemberView| !m.is_skipped(kind.marker()));
}

/// The companion struct has a field of a given name exactly when a member of
/// that name is not marked, and so has the constant.
pub proof fn law_membership(source: SourceTypeView, kind: MemberKind, name: Seq<char>)
    requires
        members_of(source, kind) is Some,
    ensures
        companion_of(source, kind) is Ok,
        has_entry(companion_of(source, kind)->Ok_0, name) <==> has_member(
            companion_of(source, kind)->Ok_0,
            name,
        ),
        has_member(companion_of(source, kind)->Ok_0, name) <==> exists|i: int|
            0 <= i < members_of(source, kind)->Some_0.len() && (#[trigger] members_of(
                source,
                kind,
            )->Some_0[i]).ident == name && !members_of(source, kind)->Some_0[i].is_skipped(
                kind.marker(),
            ),
{
    let members = members_of(source, kind)->Some_0;
    let stays = |m: MemberView| !m.is_skipped(kind.marker());
    let kept = members.filter(stays);
    let c = companion_of(source, kind)->Ok_0;
    assert(c.ty.fields.len() == kept.len());
    if has_entry(c, name) {
        let j = choose|j: int|
            0 <= j < c.constant.entries.len() && (#[trigger] c.constant.entries[j]).ident == name;
        assert(c.ty.fields[j].ident == name);
    }
    if has_member(c, name) {
        let j = choose|j: int|
            0 <= j < c.ty.fields.len() && (#[trigger] c.ty.fields[j]).ident == name;
        assert(c.constant.entries[j].ident == name);
    }
    if has_member(c, name) {
        let j = choose|j: int|
            0 <= j < c.ty.fields.len() && (#[trigger] c.ty.fields[j]).ident == name;
        members.lemma_filter_pred(stays, j);
        assert(kept.contains(kept[j]));
        members.lemma_filter_contains_rev(stays, kept[j]);
        let i = choose|i: int| 0 <= i < members.len() && members[i] == kept[j];
        assert(members[i].ident == name && !members[i].is_skipped(kind.marker()));
    }
    if exists|i: int|
        0 <= i < members.len() && (#[trigger] members[i]).ident == name && !members[i].is_skipped(
            kind.marker(),
        ) {
        let i = choose|i: int|
            0 <= i < members.len() && (#[trigger] members[i]).ident == name
                && !members[i].is_skipped(kind.marker());
        members.lemma_filter_contains(stays, i);
        let j = choose|j: int| 0 <= j < kept.len() && kept[j] == members[i];
        assert(c.ty.fields[j].ident == name);
    }
}

/// Looking up, in the constant, the name of a member that is not marked
/// gives the spelling of that name.
pub proof fn law_lookup_gives_name(source: SourceTypeView, kind: MemberKind, i: int)
    requires
        members_of(source, kind) is Some,
        0 <= i < members_of(source, kind)->Some_0.len(),
        !members_of(source, kind)->Some_0[i].is_skipped(kind.marker()),
    ensures
        companion_of(source, kind) is Ok,
        first_value(
            companion_of(source, kind)->Ok_0.constant.entries,
            members_of(source, kind)->Some_0[i].ident,
        ) == Some(members_of(source, kind)->Some_0[i].ident),
{
    let name = members_of(source, kind)->Some_0[i].ident;
    let c = companion_of(source, kind)->Ok_0;
    law_membership(source, kind, name);
    assert(has_entry(c, name));
    lemma_first_value(c.constant.entries, name);
    let v = first_value(c.constant.entries, name)->Some_0;
    let j = choose|j: int|
        0 <= j < c.constant.entries.len() && (#[trigger] c.constant.entries[j]).ident == name
            && c.constant.entries[j].value == v;
    assert(c.constant.entries[j].value == c.constant.entries[j].ident);
}

/// Where no two members have the same name, a member that is marked gives
/// its name to no field of the companion struct and to none of the constant:
/// looking its name up gives nothing.
pub proof fn law_marked_member_absent(source: SourceTypeView, kind: MemberKind, i: int)
    requires
        members_of(source, kind) is Some,
        distinct_names(members_of(source, kind)->Some_0),
        0 <= i < members_of(source, kind)->Some_0.len(),
        members_of(source, kind)->Some_0[i].is_skipped(kind.marker()),
    ensures
        companion_of(source, kind) is Ok,
        !has_member(companion_of(source, kind)->Ok_0, members_of(source, kind)->Some_0[i].ident),
        !has_entry(companion_of(source, kind)->Ok_0, members_of(source, kind)->Some_0[i].ident),
        first_value(
            companion_of(source, kind)->Ok_0.constant.entries,
            members_of(source, kind)->Some_0[i].ident,
        ) is None,
{
    let members = members_of(source, kind)->Some_0;
    let c = companion_of(source, kind)->Ok_0;
    law_membership(source, kind, members[i].ident);
    if has_member(c, members[i].ident) {
        let k = choose|k: int|
            0 <= k < members.len() && (#[trigger] members[k]).ident == members[i].ident
                && !members[k].is_skipped(kind.marker());
        assert(k != i);
    }
    lemma_first_value(c.constant.entries, members[i].ident);
}

/// Two declarations whose members have, one by one, the same names and the
/// same marks get companions with the same fields under the same names:
/// whatever else differs, only a mark changes which members are named.
pub proof fn law_marks_decide_membership(a: SourceTypeView, b: SourceTypeView, kind: MemberKind)
    requires
        members_of(a, kind) is Some,
        members_of(b, kind) is Some,
        members_of(a, kind)->Some_0.len() == members_of(b, kind)->Some_0.len(),
        forall|i: int|
            0 <= i < members_of(a, kind)->Some_0.len() ==> (#[trigger] members_of(
                a,
                kind,
            )->Some_0[i]).ident == members_of(b, kind)->Some_0[i].ident,
        forall|i: int|
            0 <= i < members_of(a, kind)->Some_0.len() ==> (#[trigger] members_of(
                a,
                kind,
            )->Some_0[i]).is_skipped(kind.marker()) == members_of(b, kind)->Some_0[i].is_skipped(
                kind.marker(),
            ),
    ensures
        companion_of(a, kind) is Ok,
        companion_of(b, kind) is Ok,
        member_names(companion_of(a, kind)->Ok_0) == member_names(companion_of(b, kind)->Ok_0),
        companion_of(a, kind)->Ok_0.constant.entries == companion_of(
            b,
            kind,
        )->Ok_0.constant.entries,
{
    let ma = members_of(a, kind)->Some_0;
    let mb = members_of(b, kind)->Some_0;
    lemma_same_marks_same_names(ma, mb, kind.marker());
    let ka = retained(ma, kind.marker());
    let kb = retained(mb, kind.marker());
    let ca = companion_of(a, kind)->Ok_0;
    let cb = companion_of(b, kind)->Ok_0;
    assert(ka.len() == names(ka).len());
    assert(kb.len() == names(kb).len());
    assert forall|j: int| 0 <= j < ka.len() implies (#[trigger] ka[j]).ident == kb[j].ident by {
        assert(names(ka)[j] == ka[j].ident);
        assert(names(kb)[j] == kb[j].ident);
    }
    assert(member_names(ca) =~= member_names(cb));
    assert(ca.constant.entries =~= cb.constant.entries);
}

/// The companion struct and the constant are as visible as the declared
/// type. A field of the companion of a struct is as visible as the field it
/// is named after; the fields of the companion of an enum are all `pub`.
pub proof fn law_visibility_propagates(source: SourceTypeView, kind: MemberKind)
    requires
        members_of(source, kind) is Some,
    ensures
        companion_of(source, kind) is Ok,
        ({
            let kept = retained(members_of(source, kind)->Some_0, kind.marker());
            let c = companion_of(source, kind)->Ok_0;
            &&& c.ty.vis == source.vis
            &&& c.constant.vis == source.vis
            &&& c.ty.fields.len() == kept.len()
            &&& forall|j: int|
                0 <= j < kept.len() ==> {
                    &&& (#[trigger] c.ty.fields[j]).ident == kept[j].ident
                    &&& kind == MemberKind::Field ==> c.ty.fields[j].vis == kept[j].vis
                    &&& kind == MemberKind::Variant ==> c.ty.fields[j].vis == unrestricted()
                }
        }),
{
}

/// Every field of a struct that is not marked has a field of its name and
/// of its visibility in the companion.
pub proof fn law_field_keeps_visibility(source: SourceTypeView, i: int)
    requires
        members_of(source, MemberKind::Field) is Some,
        0 <= i < members_of(source, MemberKind::Field)->Some_0.len(),
        !members_of(source, MemberKind::Field)->Some_0[i].is_skipped(MemberKind::Field.marker()),
    ensures
        companion_of(source, MemberKind::Field) is Ok,
        ({
            let field = members_of(source, MemberKind::Field)->Some_0[i];
            let c = companion_of(source, MemberKind::Field)->Ok_0;
            exists|j: int|
                0 <= j < c.ty.fields.len() && (#[trigger] c.ty.fields[j]).ident == field.ident
                    && c.ty.fields[j].vis == field.vis
        }),
{
    let members = members_of(source, MemberKind::Field)->Some_0;
    let stays = |m: MemberView| !m.is_skipped(MemberKind::Field.marker());
    let kept = members.filter(stays);
    let c = companion_of(source, MemberKind::Field)->Ok_0;
    members.lemma_filter_contains(stays, i);
    let j = choose|j: int| 0 <= j < kept.len() && kept[j] == members[i];
    assert(c.ty.fields[j].ident == members[i].ident && c.ty.fields[j].vis == members[i].vis);
}

/// The generic parameters of the declared type are those of the `impl`
/// block that holds the constant, unchanged. Nothing else depends on them:
/// two declarations that differ in their generic parameters alone get the
/// same companion struct and the same fields in the constant.
pub proof fn law_generics_pass_through(a: SourceTypeView, b: SourceTypeView, kind: MemberKind)
    requires
        companion_of(a, kind) is Ok,
        a.ident == b.ident,
        a.vis == b.vis,
        a.members == b.members,
    ensures
        companion_of(b, kind) is Ok,
        companion_of(a, kind)->Ok_0.constant.generics == a.generics,
        companion_of(b, kind)->Ok_0.constant.generics == b.generics,
        companion_of(a, kind)->Ok_0.ty == companion_of(b, kind)->Ok_0.ty,
        companion_of(a, kind)->Ok_0.constant.entries == companion_of(
            b,
            kind,
        )->Ok_0.constant.entries,
{
}

/// A declaration of the right shape all of whose members are marked, or
/// which has none, gets a companion without fields: that is no failure.
pub proof fn law_all_marked_gives_empty(source: SourceTypeView, kind: MemberKind)
    requires
        members_of(source, kind) is Some,
        forall|i: int|
            0 <= i < members_of(source, kind)->Some_0.len() ==> (#[trigger] members_of(
                source,
                kind,
            )->Some_0[i]).is_skipped(kind.marker()),
    ensures
        companion_of(source, kind) is Ok,
        companion_of(source, kind)->Ok_0.ty.fields.len() == 0,
        companion_of(source, kind)->Ok_0.constant.entries.len() == 0,
{
    let members = members_of(source, kind)->Some_0;
    lemma_filter_drops_all(members, |m: MemberView| !m.is_skipped(kind.marker()));
}

/// For a parsed struct all of whose fields have a name and none of whose
/// fields is marked, the constant has one field for each field of the
/// struct, in declaration order, called as that field and holding the
/// spelling of its name.
pub proof fn law_parsed_fields_named_in_order(ast: syn::DeriveInput)
    requires
        named_fields_of(ast) is Some,
        forall|i: int|
            0 <= i < named_fields_of(ast)->Some_0.len() ==> field_ident_of(
                #[trigger] named_fields_of(ast)->Some_0[i],
            ) is Some,
        forall|i: int|
            0 <= i < named_fields_of(ast)->Some_0.len() ==> !field_member(
                #[trigger] named_fields_of(ast)->Some_0[i],
            ).is_skipped(MemberKind::Field.marker()),
    ensures
        companion_of(source_of(ast), MemberKind::Field) is Ok,
        ({
            let fields = named_fields_of(ast)->Some_0;
            let c = companion_of(source_of(ast), MemberKind::Field)->Ok_0;
            &&& c.constant.entries.len() == fields.len()
            &&& c.ty.fields.len() == fields.len()
            &&& forall|i: int|
                0 <= i < fields.len() ==> {
                    let name = spelling_of(field_ident_of(fields[i])->Some_0);
                    &&& (#[trigger] c.constant.entries[i]) == ConstantEntryView {
                        ident: name,
                        value: name,
                    }
                    &&& c.ty.fields[i].ident == name
                }
        }),
{
    let fields = named_fields_of(ast)->Some_0;
    let members = members_of(source_of(ast), MemberKind::Field)->Some_0;
    assert(members == fields.map_values(|field: syn::Field| field_member(field)));
    assert forall|i: int| 0 <= i < members.len() implies !(#[trigger] members[i]).is_skipped(
        MemberKind::Field.marker(),
    ) by {
        assert(members[i] == field_member(fields[i]));
    }
    law_unmarked_members_named_in_order(source_of(ast), MemberKind::Field);
    let c = companion_of(source_of(ast), MemberKind::Field)->Ok_0;
    assert forall|i: int| 0 <= i < fields.len() implies {
        let name = spelling_of(field_ident_of(fields[i])->Some_0);
        &&& (#[trigger] c.constant.entries[i]) == ConstantEntryView { ident: name, value: name }
        &&& c.ty.fields[i].ident == name
    } by {
        assert(members[i] == field_member(fields[i]));
    }
}

/// For a parsed enum none of whose variants is marked, the constant has one
/// field for each variant, in declaration order, called as that variant and
/// holding the spelling of its name. What a variant holds plays no part: it
/// is not even read.
pub proof fn law_parsed_variants_named_in_order(ast: syn::DeriveInput)
    requires
        named_fields_of(ast) is None,
        variants_of(ast) is Some,
        forall|i: int|
            0 <= i < variants_of(ast)->Some_0.len() ==> !variant_member(
                #[trigger] variants_of(ast)->Some_0[i],
            ).is_skipped(MemberKind::Variant.marker()),
    ensures
        companion_of(source_of(ast), MemberKind::Variant) is Ok,
        ({
            let variants = variants_of(ast)->Some_0;
            let c = companion_of(source_of(ast), MemberKind::Variant)->Ok_0;
            &&& c.constant.entries.len() == variants.len()
            &&& c.ty.fields.len() == variants.len()
            &&& forall|i: int|
                0 <= i < variants.len() ==> {
                    let name = spelling_of(variant_ident_of(variants[i]));
                    &&& (#[trigger] c.constant.entries[i]) == ConstantEntryView {
                        ident: name,
                        value: name,
                    }
                    &&& c.ty.fields[i].ident == name
                }
        }),
{
    let variants = variants_of(ast)->Some_0;
    let members = members_of(source_of(ast), MemberKind::Variant)->Some_0;
    assert(members == variants.map_values(|variant: syn::Variant| variant_member(variant)));
    assert forall|i: int| 0 <= i < members.len() implies !(#[trigger] members[i]).is_skipped(
        MemberKind::Variant.marker(),
    ) by {
        assert(members[i] == variant_member(variants[i]));
    }
    law_unmarked_members_named_in_order(source_of(ast), MemberKind::Variant);
    let c = companion_of(source_of(ast), MemberKind::Variant)->Ok_0;
    assert forall|i: int| 0 <= i < variants.len() implies {
        let name = spelling_of(variant_ident_of(variants[i]));
        &&& (#[trigger] c.constant.entries[i]) == ConstantEntryView { ident: name, value: name }
        &&& c.ty.fields[i].ident == name
    } by {
        assert(members[i] == variant_member(variants[i]));
    }
}

/// The `impl` block that holds the constant of a parsed declaration has the
/// generic parameters of that declaration, as `syn` splits and spells them.
/// Two parsed declarations that differ in their generic parameters alone get
/// the same companion struct and the same fields in the constant.
pub proof fn law_parsed_generics_pass_through(
    a: syn::DeriveInput,
    b: syn::DeriveInput,
    kind: MemberKind,
)
    requires
        companion_of(source_of(a), kind) is Ok,
        source_of(a).ident == source_of(b).ident,
        source_of(a).vis == source_of(b).vis,
        source_of(a).members == source_of(b).members,
    ensures
        companion_of(source_of(b), kind) is Ok,
        companion_of(source_of(a), kind)->Ok_0.constant.generics == generics_of(a),
        companion_of(source_of(b), kind)->Ok_0.constant.generics == generics_of(b),
        companion_of(source_of(a), kind)->Ok_0.ty == companion_of(source_of(b), kind)->Ok_0.ty,
        companion_of(source_of(a), kind)->Ok_0.constant.entries == companion_of(
            source_of(b),
            kind,
        )->Ok_0.constant.entries,
{
    law_generics_pass_through(source_of(a), source_of(b), kind);
}

} // verus!
