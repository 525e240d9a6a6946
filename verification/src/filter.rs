//! The attribute filter.
//!
//! This stage walks the member list of a collection, detects the marker
//! attribute on each method, removes it, and records the signatures of the
//! marked methods in the export worklist. Only an outer-style attribute
//! whose path's final segment is `export` counts as the marker; at most the
//! first such attribute is removed. Members without the marker, and members
//! that are not methods, pass through unchanged in their original position.
//! This stage never fails: a missing marker only means "not exported".

use vstd::prelude::*;

use crate::model::{
    clone_attr, clone_sig, lemma_vec_deep_view, Attr, AttrView, FnSig, FnSigView, Member,
    MemberView, MethodCollection,
};

verus! {

/// Whether an attribute is the marker: outer style, and the final segment
/// of its path is `export`.
pub open spec fn is_export_attr(a: AttrView) -> bool {
    a.outer && a.segments.len() > 0 && a.segments.last() == "export"@
}

/// The position of the first marker attribute at or after position `i`.
pub open spec fn first_export_from(attrs: Seq<AttrView>, i: int) -> Option<int>
    decreases attrs.len() - i,
{
    if i < 0 || i >= attrs.len() {
        None
    } else if is_export_attr(attrs[i]) {
        Some(i)
    } else {
        first_export_from(attrs, i + 1)
    }
}

/// The position of the first marker attribute in an attribute list.
pub open spec fn first_export(attrs: Seq<AttrView>) -> Option<int> {
    first_export_from(attrs, 0)
}

/// What `first_export_from` returns: the first matching position at or
/// after `i`, or nothing when no position at or after `i` matches.
pub proof fn lemma_first_export_from_spec(attrs: Seq<AttrView>, i: int)
    requires
        0 <= i <= attrs.len(),
    ensures
        match first_export_from(attrs, i) {
            Some(k) => i <= k < attrs.len() && is_export_attr(attrs[k]) && (forall|j: int|
                i <= j < k ==> !is_export_attr(attrs[j])),
            None => forall|j: int| i <= j < attrs.len() ==> !is_export_attr(attrs[j]),
        },
    decreases attrs.len() - i,
{
    if i < attrs.len() && !is_export_attr(attrs[i]) {
        lemma_first_export_from_spec(attrs, i + 1);
    }
}

/// A matching position preceded by no matching position is the first.
pub proof fn lemma_first_export_found(attrs: Seq<AttrView>, i: int)
    requires
        0 <= i < attrs.len(),
        is_export_attr(attrs[i]),
        forall|j: int| 0 <= j < i ==> !is_export_attr(attrs[j]),
    ensures
        first_export(attrs) == Some(i),
{
    lemma_first_export_from_spec(attrs, 0);
    match first_export_from(attrs, 0) {
        Some(k) => {
            if k < i {
                assert(!is_export_attr(attrs[k]));
            }
            if k > i {
                assert(!is_export_attr(attrs[i]));
            }
        },
        None => {
            assert(!is_export_attr(attrs[i]));
        },
    }
}

/// Test whether one attribute is the marker.
pub fn check_export_attr(a: &Attr) -> (r: bool)
    ensures
        r == is_export_attr(a@),
{
    proof {
        lemma_vec_deep_view(&a.segments);
    }
    if !a.outer || a.segments.len() == 0 {
        return false;
    }
    let last = &a.segments[a.segments.len() - 1];
    let marker = String::from_str("export");
    let r = *last == marker;
    proof {
        assert(a@.segments.last() == a.segments@[a.segments@.len() - 1]@);
    }
    r
}

/// Find the position of the first marker attribute in an attribute list.
pub fn export_attr_position(attrs: &Vec<Attr>) -> (r: Option<usize>)
    ensures
        match r {
            Some(i) => first_export(attrs.deep_view()) == Some(i as int),
            None => first_export(attrs.deep_view()) is None,
        },
{
    proof {
        lemma_vec_deep_view(attrs);
    }
    let mut i: usize = 0;
    while i < attrs.len()
        invariant
            i <= attrs@.len(),
            attrs.deep_view().len() == attrs@.len(),
            forall|j: int| 0 <= j < attrs@.len() ==> attrs.deep_view()[j] == attrs@[j]@,
            forall|j: int| 0 <= j < i ==> !is_export_attr(attrs.deep_view()[j]),
        decreases attrs@.len() - i,
    {
        if check_export_attr(&attrs[i]) {
            proof {
                lemma_first_export_found(attrs.deep_view(), i as int);
            }
            return Some(i);
        }
        i = i + 1;
    }
    proof {
        lemma_first_export_from_spec(attrs.deep_view(), 0);
    }
    None
}

/// Whether a member is a method that carries the marker.
pub open spec fn member_exported(m: MemberView) -> bool {
    match m {
        MemberView::Method { attrs, sig, body } => first_export(attrs) is Some,
        MemberView::Other(tok) => false,
    }
}

/// The signature of a method member.
pub open spec fn method_sig(m: MemberView) -> FnSigView
    recommends
        m is Method,
{
    match m {
        MemberView::Method { attrs, sig, body } => sig,
        MemberView::Other(tok) => arbitrary(),
    }
}

/// A member after marker removal: a marked method loses exactly its first
/// marker attribute; every other member is unchanged.
pub open spec fn strip_member(m: MemberView) -> MemberView {
    match m {
        MemberView::Method { attrs, sig, body } => match first_export(attrs) {
            Some(k) => MemberView::Method { attrs: attrs.remove(k), sig, body },
            None => m,
        },
        MemberView::Other(tok) => m,
    }
}

/// The collection after marker removal, member for member.
pub open spec fn stripped_members(members: Seq<MemberView>) -> Seq<MemberView> {
    members.map_values(|m: MemberView| strip_member(m))
}

/// The export worklist: the signatures of the marked methods, in
/// declaration order.
pub open spec fn exported_sigs(members: Seq<MemberView>) -> Seq<FnSigView>
    decreases members.len(),
{
    if members.len() == 0 {
        Seq::empty()
    } else {
        let rest = exported_sigs(members.drop_last());
        if member_exported(members.last()) {
            rest.push(method_sig(members.last()))
        } else {
            rest
        }
    }
}

/// The result of the attribute filter: the collection with markers removed
/// and the export worklist.
#[derive(Debug)]
pub struct FilteredCollection {
    pub collection: MethodCollection,
    pub worklist: Vec<FnSig>,
}

/// Remove the attribute at position `k`, copying the rest in order.
fn remove_attr_at(attrs: &Vec<Attr>, k: usize) -> (r: Vec<Attr>)
    requires
        k < attrs@.len(),
    ensures
        r@.len() == attrs@.len() - 1,
        forall|j: int| 0 <= j < r@.len() && j < k ==> #[trigger] r@[j]@ == attrs@[j]@,
        forall|j: int| k <= j < r@.len() ==> #[trigger] r@[j]@ == attrs@[j + 1]@,
{
    let mut r: Vec<Attr> = Vec::new();
    let mut i: usize = 0;
    while i < attrs.len()
        invariant
            i <= attrs@.len(),
            k < attrs@.len(),
            r@.len() == if i <= k {
                i as int
            } else {
                i - 1
            },
            forall|j: int| 0 <= j < r@.len() && j < k ==> #[trigger] r@[j]@ == attrs@[j]@,
            forall|j: int| k <= j < r@.len() ==> #[trigger] r@[j]@ == attrs@[j + 1]@,
        decreases attrs@.len() - i,
    {
        if i != k {
            r.push(clone_attr(&attrs[i]));
        }
        i = i + 1;
    }
    r
}

/// Run the attribute filter over a collection.
///
/// The output collection keeps the owner type and the member order; each
/// marked method loses its first marker attribute, everything else is
/// unchanged. The worklist holds a copy of each marked method's signature
/// (after the removal, which does not touch the signature), in declaration
/// order.
pub fn collect_exports(c: &MethodCollection) -> (r: FilteredCollection)
    ensures
        r.collection@.class == c@.class,
        r.collection@.members == stripped_members(c@.members),
        r.worklist.deep_view() == exported_sigs(c@.members),
{
    let ghost cm: Seq<MemberView> = c@.members;
    proof {
        lemma_vec_deep_view(&c.members);
    }
    let mut members: Vec<Member> = Vec::new();
    let mut worklist: Vec<FnSig> = Vec::new();
    let mut i: usize = 0;
    while i < c.members.len()
        invariant
            i <= c.members@.len(),
            cm == c.members.deep_view(),
            cm.len() == c.members@.len(),
            forall|j: int| 0 <= j < cm.len() ==> cm[j] == c.members@[j]@,
            members@.len() == i,
            forall|j: int| 0 <= j < i ==> #[trigger] members@[j]@ == strip_member(cm[j]),
            worklist.deep_view() =~= exported_sigs(cm.take(i as int)),
        decreases c.members@.len() - i,
    {
        let ghost old_worklist = worklist.deep_view();
        match &c.members[i] {
            Member::Other(tok) => {
                members.push(Member::Other(*tok));
            },
            Member::Method { attrs, sig, body } => {
                match export_attr_position(attrs) {
                    None => {
                        let kept = Member::Method {
                            attrs: clone_attrs(attrs),
                            sig: clone_sig(sig),
                            body: *body,
                        };
                        proof {
                            assert(kept@ == cm[i as int]);
                        }
                        members.push(kept);
                    },
                    Some(k) => {
                        proof {
                            lemma_vec_deep_view(attrs);
                            lemma_first_export_from_spec(attrs.deep_view(), 0);
                        }
                        let new_attrs = remove_attr_at(attrs, k);
                        proof {
                            lemma_vec_deep_view(attrs);
                            lemma_vec_deep_view(&new_attrs);
                            attrs.deep_view().remove_ensures(k as int);
                            assert(new_attrs.deep_view() =~= attrs.deep_view().remove(k as int));
                        }
                        worklist.push(clone_sig(sig));
                        proof {
                            lemma_vec_deep_view(&worklist);
                            assert(worklist.deep_view() =~= old_worklist.push(sig@));
                        }
                        let stripped = Member::Method {
                            attrs: new_attrs,
                            sig: clone_sig(sig),
                            body: *body,
                        };
                        proof {
                            assert(stripped@ == strip_member(cm[i as int]));
                        }
                        members.push(stripped);
                    },
                }
            },
        }
        i = i + 1;
        proof {
            assert(cm.take(i as int).drop_last() =~= cm.take(i - 1));
            assert(cm.take(i as int).last() == cm[i - 1]);
            assert(worklist.deep_view() =~= exported_sigs(cm.take(i as int)));
        }
    }
    proof {
        assert(cm.take(cm.len() as int) =~= cm);
        lemma_vec_deep_view(&members);
        assert(members.deep_view() =~= stripped_members(cm));
    }
    let collection = MethodCollection { class: c.class, members };
    FilteredCollection { collection, worklist }
}

/// Copy an attribute list.
pub fn clone_attrs(v: &Vec<Attr>) -> (r: Vec<Attr>)
    ensures
        r@.len() == v@.len(),
        forall|j: int| 0 <= j < v@.len() ==> #[trigger] r@[j]@ == v@[j]@,
        r.deep_view() == v.deep_view(),
{
    let mut r: Vec<Attr> = Vec::new();
    let mut i: usize = 0;
    while i < v.len()
        invariant
            i <= v@.len(),
            r@.len() == i,
            forall|j: int| 0 <= j < i ==> #[trigger] r@[j]@ == v@[j]@,
        decreases v@.len() - i,
    {
        r.push(clone_attr(&v[i]));
        i = i + 1;
    }
    proof {
        lemma_vec_deep_view(&r);
        lemma_vec_deep_view(v);
        assert(r.deep_view() =~= v.deep_view());
    }
    r
}

} // verus!
