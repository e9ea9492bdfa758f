//! Which members a marker annotation excludes.
//!
//! A member is left out when one of its annotations is a list whose path is
//! the marker of the member's kind and one of whose items is the bare word
//! `skip`. An annotation of any other form asks for nothing: it is passed
//! over, whether it is malformed, belongs to someone else, or names the
//! marker without the word.

use vstd::prelude::*;
use vstd::string::StringExecFns;
use crate::kind::{skip_word, MemberKind};
use crate::model::{
    members_view, Annotation, AnnotationView, Member, MemberView, NestedItem, NestedItemView,
};

verus! {

impl AnnotationView {
    /// Whether this annotation is `marker(.., skip, ..)`.
    pub open spec fn requests_skip(self, marker: Seq<char>) -> bool {
        match self {
            AnnotationView::List { name, items } => {
                &&& name == Some(marker)
                &&& exists|i: int|
                    0 <= i < items.len() && #[trigger] items[i] == NestedItemView::Word(
                        skip_word(),
                    )
            },
            AnnotationView::Other => false,
        }
    }
}

impl MemberView {
    /// Whether one of the annotations of this member asks to leave it out.
    pub open spec fn is_skipped(self, marker: Seq<char>) -> bool {
        exists|i: int| 0 <= i < self.attrs.len() && #[trigger] self.attrs[i].requests_skip(marker)
    }
}

/// The members that stay, in declaration order.
pub open spec fn retained(members: Seq<MemberView>, marker: Seq<char>) -> Seq<MemberView> {
    members.filter(|m: MemberView| !m.is_skipped(marker))
}

/// Visibility and name of each member of a list.
pub open spec fn signatures(members: Seq<MemberView>) -> Seq<(Seq<char>, Seq<char>)> {
    members.map_values(|m: MemberView| (m.vis, m.ident))
}

/// The views of a list of pairs of visibility and name.
pub open spec fn pairs_view(pairs: Seq<(String, String)>) -> Seq<(Seq<char>, Seq<char>)> {
    pairs.map_values(|p: (String, String)| (p.0@, p.1@))
}

/// Whether `items` holds the bare word `skip`.
fn has_skip_word(items: &Vec<NestedItem>) -> (r: bool)
    ensures
        r == exists|i: int|
            0 <= i < items@.len() && #[trigger] items@[i]@ == NestedItemView::Word(skip_word()),
{
    let skip = String::from_str("skip");
    let mut i: usize = 0;
    while i < items.len()
        invariant
            i <= items@.len(),
            skip@ == skip_word(),
            forall|j: int|
                0 <= j < i ==> #[trigger] items@[j]@ != NestedItemView::Word(skip_word()),
        decreases items@.len() - i,
    {
        match &items[i] {
            NestedItem::Word(word) => {
                if *word == skip {
                    assert(items@[i as int]@ == NestedItemView::Word(skip_word()));
                    return true;
                }
            },
            NestedItem::Other => {},
        }
        i += 1;
    }
    false
}

/// Tells whether `attr` excludes the member of kind `kind` that carries it.
pub fn has_skip_attr(attr: &Annotation, kind: MemberKind) -> (r: bool)
    ensures
        r == attr@.requests_skip(kind.marker()),
{
    match attr {
        Annotation::List { name, items } => {
            match name {
                Some(name) => {
                    let marker = String::from_str(kind.marker_text());
                    if *name == marker {
                        let found = has_skip_word(items);
                        proof {
                            let views = items@.map_values(|item: NestedItem| item@);
                            let skip = NestedItemView::Word(skip_word());
                            if found {
                                let i = choose|i: int|
                                    0 <= i < items@.len() && #[trigger] items@[i]@ == skip;
                                assert(views[i] == skip);
                            } else {
                                assert forall|i: int| 0 <= i < views.len() implies
                                    #[trigger] views[i] != skip by {
                                    assert(items@[i]@ != skip);
                                }
                            }
                        }
                        found
                    } else {
                        false
                    }
                },
                None => false,
            }
        },
        Annotation::Other => false,
    }
}

/// Tells whether one of the annotations of `member` excludes it. The first
/// that does settles it.
pub fn is_skipped(member: &Member, kind: MemberKind) -> (r: bool)
    ensures
        r == member@.is_skipped(kind.marker()),
{
    let mut i: usize = 0;
    while i < member.attrs.len()
        invariant
            i <= member.attrs@.len(),
            forall|j: int|
                0 <= j < i ==> !(#[trigger] member.attrs@[j])@.requests_skip(kind.marker()),
        decreases member.attrs@.len() - i,
    {
        if has_skip_attr(&member.attrs[i], kind) {
            assert(member@.attrs[i as int] == member.attrs@[i as int]@);
            return true;
        }
        i += 1;
    }
    assert forall|j: int| 0 <= j < member@.attrs.len() implies !(#[trigger] member@.attrs[j])
        .requests_skip(kind.marker()) by {
        assert(member@.attrs[j] == member.attrs@[j]@);
    }
    false
}

/// Collects visibility and name of the members that no annotation excludes,
/// in declaration order.
pub fn filter_fields(members: &Vec<Member>, kind: MemberKind) -> (r: Vec<(String, String)>)
    ensures
        pairs_view(r@) == signatures(retained(members_view(members@), kind.marker())),
{
    let mut kept: Vec<(String, String)> = Vec::new();
    let ghost all = members_view(members@);
    let ghost stays = |m: MemberView| !m.is_skipped(kind.marker());
    let mut i: usize = 0;
    proof {
        reveal(Seq::filter);
        assert(all.take(0) =~= Seq::<MemberView>::empty());
        assert(pairs_view(kept@) =~= signatures(all.take(0).filter(stays)));
    }
    while i < members.len()
        invariant
            i <= members@.len(),
            all == members_view(members@),
            stays == |m: MemberView| !m.is_skipped(kind.marker()),
            pairs_view(kept@) == signatures(all.take(i as int).filter(stays)),
        decreases members@.len() - i,
    {
        let member = &members[i];
        let ghost before = kept@;
        let skipped = is_skipped(member, kind);
        if !skipped {
            kept.push((member.vis.clone(), member.ident.clone()));
        }
        proof {
            let prefix = all.take(i as int);
            assert(all.take(i + 1) =~= prefix.push(member@));
            prefix.lemma_filter_push(member@, stays);
            if !skipped {
                assert(kept@ == before.push(kept@[before.len() as int]));
                assert(pairs_view(kept@) =~= pairs_view(before).push((member@.vis, member@.ident)));
                assert(signatures(prefix.filter(stays).push(member@)) =~= signatures(
                    prefix.filter(stays),
                ).push((member@.vis, member@.ident)));
            }
        }
        i += 1;
    }
    proof {
        assert(all.take(i as int) =~= all);
    }
    kept
}

} // verus!
