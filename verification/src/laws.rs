//! What the pipeline guarantees, stated and proved once and for all.
//!
//! Each proof function here states one property of the pipeline over the
//! spec-level model that the executable functions' contracts are written
//! in, so the properties carry over to every run of the pipeline.

use vstd::prelude::*;

use crate::filter::{
    exported_sigs, first_export, is_export_attr, lemma_first_export_from_spec, member_exported,
    method_sig, strip_member, stripped_members,
};
use crate::model::{
    param_ident_mutable, param_ident_name, param_is_ident, param_is_wild, param_ty, FnSigView,
    MemberView, ParamView, PatView,
};
use crate::names::lemma_synth_name_injective;
use crate::names::synth_name_seq;
use crate::pipeline::{registration_names, rejections_of_members};
use crate::validate::{accepted_sigs, normalize_sig, rejection_of, GenericKind, RejectionView};

verus! {

/// Whether a member is a marked method that the validator accepts.
pub open spec fn member_accepted(m: MemberView) -> bool {
    member_exported(m) && rejection_of(method_sig(m)) is None
}

/// The category under which a signature is rejected.
pub open spec fn rejection_kind(s: FnSigView) -> GenericKind
    recommends
        rejection_of(s) is Some,
{
    if s.type_params > 0 {
        GenericKind::TypeParam
    } else if s.lifetime_params > 0 {
        GenericKind::LifetimeParam
    } else {
        GenericKind::ConstParam
    }
}

/// How often a name occurs in a list of registration keys.
pub open spec fn count_name(names: Seq<Seq<char>>, n: Seq<char>) -> nat
    decreases names.len(),
{
    if names.len() == 0 {
        0
    } else {
        count_name(names.drop_last(), n) + if names.last() == n {
            1nat
        } else {
            0nat
        }
    }
}

/// How many members are accepted under a given name.
pub open spec fn count_accepted_with_name(members: Seq<MemberView>, n: Seq<char>) -> nat
    decreases members.len(),
{
    if members.len() == 0 {
        0
    } else {
        count_accepted_with_name(members.drop_last(), n) + if member_accepted(members.last())
            && method_sig(members.last()).name == n {
            1nat
        } else {
            0nat
        }
    }
}

/// Peeling the last member off the registration keys: an accepted member
/// appends exactly its name; every other member appends nothing.
pub proof fn lemma_registration_names_decompose(members: Seq<MemberView>)
    ensures
        members.len() == 0 ==> registration_names(members) == Seq::<Seq<char>>::empty(),
        members.len() > 0 ==> registration_names(members) == if member_accepted(
            members.last(),
        ) {
            registration_names(members.drop_last()).push(method_sig(members.last()).name)
        } else {
            registration_names(members.drop_last())
        },
{
    let f = |s: FnSigView| s.name;
    if members.len() == 0 {
        assert(registration_names(members) =~= Seq::<Seq<char>>::empty());
    } else {
        let dl = members.drop_last();
        let m = members.last();
        if member_exported(m) {
            let es = exported_sigs(dl);
            let s = method_sig(m);
            assert(exported_sigs(members) == es.push(s));
            assert(es.push(s).drop_last() =~= es);
            assert(es.push(s).last() == s);
            if rejection_of(s) is None {
                assert(accepted_sigs(es.push(s)) == accepted_sigs(es).push(normalize_sig(s)));
                assert(accepted_sigs(es).push(normalize_sig(s)).map_values(f) =~= accepted_sigs(
                    es,
                ).map_values(f).push(s.name));
            } else {
                assert(accepted_sigs(es.push(s)) == accepted_sigs(es));
            }
        } else {
            assert(exported_sigs(members) == exported_sigs(dl));
        }
    }
}

/// Peeling the last member off the diagnostics: a marked method with a
/// generic parameter appends exactly its diagnostic; every other member
/// appends nothing.
pub proof fn lemma_rejections_decompose(members: Seq<MemberView>)
    ensures
        members.len() == 0 ==> rejections_of_members(members) == Seq::<RejectionView>::empty(),
        members.len() > 0 ==> rejections_of_members(members) == if member_exported(members.last())
            && rejection_of(method_sig(members.last())) is Some {
            rejections_of_members(members.drop_last()).push(
                RejectionView {
                    name: method_sig(members.last()).name,
                    kind: rejection_kind(method_sig(members.last())),
                },
            )
        } else {
            rejections_of_members(members.drop_last())
        },
{
    if members.len() == 0 {
        assert(rejections_of_members(members) =~= Seq::<RejectionView>::empty());
    } else {
        let dl = members.drop_last();
        let m = members.last();
        if member_exported(m) {
            let es = exported_sigs(dl);
            let s = method_sig(m);
            assert(exported_sigs(members) == es.push(s));
            assert(es.push(s).drop_last() =~= es);
            assert(es.push(s).last() == s);
        } else {
            assert(exported_sigs(members) == exported_sigs(dl));
        }
    }
}

/// The registration keys register each accepted member once: the number of
/// registrations under a name equals the number of members accepted under
/// that name.
pub proof fn lemma_count_registration(members: Seq<MemberView>, n: Seq<char>)
    ensures
        count_name(registration_names(members), n) == count_accepted_with_name(members, n),
    decreases members.len(),
{
    lemma_registration_names_decompose(members);
    if members.len() > 0 {
        lemma_count_registration(members.drop_last(), n);
        if member_accepted(members.last()) {
            let prev = registration_names(members.drop_last());
            let nm = method_sig(members.last()).name;
            assert(prev.push(nm).drop_last() =~= prev);
            assert(prev.push(nm).last() == nm);
        }
    }
}

/// No member accepted under a name means no registration under it.
pub proof fn lemma_count_accepted_none(members: Seq<MemberView>, n: Seq<char>)
    requires
        forall|j: int|
            0 <= j < members.len() && member_accepted(#[trigger] members[j]) ==> method_sig(
                members[j],
            ).name != n,
    ensures
        count_accepted_with_name(members, n) == 0,
    decreases members.len(),
{
    if members.len() > 0 {
        assert(forall|j: int|
            0 <= j < members.drop_last().len() ==> #[trigger] members.drop_last()[j]
                == members[j]);
        lemma_count_accepted_none(members.drop_last(), n);
    }
}

/// One member accepted under a name, and no other, means a count of one.
pub proof fn lemma_count_accepted_unique(members: Seq<MemberView>, n: Seq<char>, i: int)
    requires
        0 <= i < members.len(),
        member_accepted(members[i]),
        method_sig(members[i]).name == n,
        forall|j: int|
            0 <= j < members.len() && j != i && member_accepted(#[trigger] members[j])
                ==> method_sig(members[j]).name != n,
    ensures
        count_accepted_with_name(members, n) == 1,
    decreases members.len(),
{
    assert(forall|j: int|
        0 <= j < members.drop_last().len() ==> #[trigger] members.drop_last()[j] == members[j]);
    if i == members.len() - 1 {
        lemma_count_accepted_none(members.drop_last(), n);
    } else {
        lemma_count_accepted_unique(members.drop_last(), n, i);
    }
}

/// A method marked exportable, with zero generic parameters, whose name no
/// other accepted method shares, has its name registered exactly once, as
/// a string key of the registration routine.
pub proof fn lemma_marked_method_registered_once(members: Seq<MemberView>, i: int)
    requires
        0 <= i < members.len(),
        member_accepted(members[i]),
        forall|j: int|
            0 <= j < members.len() && j != i && member_accepted(#[trigger] members[j])
                ==> method_sig(members[j]).name != method_sig(members[i]).name,
    ensures
        count_name(registration_names(members), method_sig(members[i]).name) == 1,
{
    lemma_count_accepted_unique(members, method_sig(members[i]).name, i);
    lemma_count_registration(members, method_sig(members[i]).name);
}

/// A member without the marker passes through the pipeline unchanged: no
/// attribute is removed from it.
pub proof fn lemma_unmarked_member_unchanged(members: Seq<MemberView>, i: int)
    requires
        0 <= i < members.len(),
        !member_exported(members[i]),
    ensures
        stripped_members(members)[i] == members[i],
{
}

/// Every registration key stems from a marked, accepted method: a member
/// that is not marked has no registration call emitted for it.
pub proof fn lemma_registration_names_sourced(members: Seq<MemberView>, k: int)
    requires
        0 <= k < registration_names(members).len(),
    ensures
        exists|j: int|
            0 <= j < members.len() && member_accepted(#[trigger] members[j]) && method_sig(
                members[j],
            ).name == registration_names(members)[k],
    decreases members.len(),
{
    lemma_registration_names_decompose(members);
    if members.len() > 0 {
        let dl = members.drop_last();
        let prev = registration_names(dl);
        if member_accepted(members.last()) {
            let nm = method_sig(members.last()).name;
            if k < prev.len() {
                lemma_registration_names_sourced(dl, k);
                let j = choose|j: int|
                    0 <= j < dl.len() && member_accepted(#[trigger] dl[j]) && method_sig(
                        dl[j],
                    ).name == prev[k];
                assert(members[j] == dl[j]);
                assert(registration_names(members)[k] == prev[k]);
            } else {
                assert(registration_names(members)[k] == nm);
                assert(member_accepted(members[members.len() - 1]));
            }
        } else {
            lemma_registration_names_sourced(dl, k);
            let j = choose|j: int|
                0 <= j < dl.len() && member_accepted(#[trigger] dl[j]) && method_sig(dl[j]).name
                    == prev[k];
            assert(members[j] == dl[j]);
        }
    }
}

/// A marked method that declares a generic parameter is not registered,
/// and the diagnostics name it together with the offending category.
pub proof fn lemma_generic_export_rejected(members: Seq<MemberView>, i: int)
    requires
        0 <= i < members.len(),
        member_exported(members[i]),
        rejection_of(method_sig(members[i])) is Some,
    ensures
        exists|k: int|
            0 <= k < rejections_of_members(members).len() && rejections_of_members(members)[k]
                == (RejectionView {
                name: method_sig(members[i]).name,
                kind: rejection_kind(method_sig(members[i])),
            }),
    decreases members.len(),
{
    lemma_rejections_decompose(members);
    let d = RejectionView {
        name: method_sig(members[i]).name,
        kind: rejection_kind(method_sig(members[i])),
    };
    if i == members.len() - 1 {
        let prev = rejections_of_members(members.drop_last());
        assert(rejections_of_members(members)[prev.len() as int] == d);
    } else {
        assert(members.drop_last()[i] == members[i]);
        lemma_generic_export_rejected(members.drop_last(), i);
        let k = choose|k: int|
            0 <= k < rejections_of_members(members.drop_last()).len() && rejections_of_members(
                members.drop_last(),
            )[k] == d;
        assert(rejections_of_members(members)[k] == d);
    }
}

/// A rejected method's name is registered by nobody, provided no accepted
/// method happens to share its name.
pub proof fn lemma_rejected_name_not_registered(members: Seq<MemberView>, i: int)
    requires
        0 <= i < members.len(),
        member_exported(members[i]),
        rejection_of(method_sig(members[i])) is Some,
        forall|j: int|
            0 <= j < members.len() && member_accepted(#[trigger] members[j]) ==> method_sig(
                members[j],
            ).name != method_sig(members[i]).name,
    ensures
        count_name(registration_names(members), method_sig(members[i]).name) == 0,
{
    lemma_count_accepted_none(members, method_sig(members[i]).name);
    lemma_count_registration(members, method_sig(members[i]).name);
}

/// In an accepted signature, every wildcard parameter is replaced by the
/// identifier synthesized from its position, and — provided the
/// user-chosen identifiers are pairwise distinct and none of them has the
/// synthesized form — the identifiers of the normalized signature are
/// pairwise distinct across all its parameters.
pub proof fn lemma_identifiers_distinct(s: FnSigView)
    requires
        forall|a: int, b: int|
            0 <= a < s.params.len() && 0 <= b < s.params.len() && a != b && param_is_ident(
                #[trigger] s.params[a],
            ) && param_is_ident(#[trigger] s.params[b]) ==> param_ident_name(s.params[a])
                != param_ident_name(s.params[b]),
        forall|a: int, b: int|
            #![trigger s.params[a], synth_name_seq(b as nat)]
            0 <= a < s.params.len() && 0 <= b < s.params.len() && param_is_ident(s.params[a])
                ==> param_ident_name(s.params[a]) != synth_name_seq(b as nat),
    ensures
        forall|a: int|
            0 <= a < s.params.len() && param_is_wild(#[trigger] s.params[a]) ==> normalize_sig(
                s,
            ).params[a] == (ParamView::Typed {
                pat: PatView::Ident { mutable: false, name: synth_name_seq(a as nat) },
                ty: param_ty(s.params[a]),
            }),
        forall|a: int, b: int|
            0 <= a < s.params.len() && 0 <= b < s.params.len() && a != b && param_is_ident(
                #[trigger] normalize_sig(s).params[a],
            ) && param_is_ident(#[trigger] normalize_sig(s).params[b]) ==> param_ident_name(
                normalize_sig(s).params[a],
            ) != param_ident_name(normalize_sig(s).params[b]),
{
    let t = normalize_sig(s);
    assert forall|a: int, b: int|
        0 <= a < s.params.len() && 0 <= b < s.params.len() && a != b && param_is_ident(
            #[trigger] t.params[a],
        ) && param_is_ident(#[trigger] t.params[b]) implies param_ident_name(t.params[a])
        != param_ident_name(t.params[b]) by {
        let na = param_ident_name(t.params[a]);
        let nb = param_ident_name(t.params[b]);
        if param_is_wild(s.params[a]) && param_is_wild(s.params[b]) {
            if na == nb {
                lemma_synth_name_injective(a as nat, b as nat);
            }
        } else if param_is_wild(s.params[a]) && param_is_ident(s.params[b]) {
            assert(na == synth_name_seq(a as nat));
            assert(nb == param_ident_name(s.params[b]));
        } else if param_is_ident(s.params[a]) && param_is_wild(s.params[b]) {
            assert(nb == synth_name_seq(b as nat));
            assert(na == param_ident_name(s.params[a]));
        }
    }
}

/// After the mutability marker is stripped, a parameter bound as a mutable
/// simple identifier keeps its identifier and its type annotation and is
/// no longer marked mutable.
pub proof fn lemma_mutability_stripped(s: FnSigView, i: int)
    requires
        0 <= i < s.params.len(),
        param_is_ident(s.params[i]),
    ensures
        param_is_ident(normalize_sig(s).params[i]),
        param_ident_name(normalize_sig(s).params[i]) == param_ident_name(s.params[i]),
        !param_ident_mutable(normalize_sig(s).params[i]),
        param_ty(normalize_sig(s).params[i]) == param_ty(s.params[i]),
{
}

/// Whether a method member carries at most one marker attribute.
pub open spec fn at_most_one_marker(m: MemberView) -> bool {
    match m {
        MemberView::Method { attrs, sig, body } => forall|a: int, b: int|
            0 <= a < attrs.len() && 0 <= b < attrs.len() && is_export_attr(#[trigger] attrs[a])
                && is_export_attr(#[trigger] attrs[b]) ==> a == b,
        MemberView::Other(tok) => true,
    }
}

/// One pass of marker removal leaves a member markerless, and a second
/// pass leaves it unchanged, provided the member did not carry the marker
/// twice.
pub proof fn lemma_strip_member_idempotent(m: MemberView)
    requires
        at_most_one_marker(m),
    ensures
        !member_exported(strip_member(m)),
        strip_member(strip_member(m)) == strip_member(m),
{
    match m {
        MemberView::Method { attrs, sig, body } => {
            lemma_first_export_from_spec(attrs, 0);
            match first_export(attrs) {
                Some(k) => {
                    let attrs2 = attrs.remove(k);
                    attrs.remove_ensures(k);
                    assert forall|j: int| 0 <= j < attrs2.len() implies !is_export_attr(
                        attrs2[j],
                    ) by {
                        if j < k {
                            assert(attrs2[j] == attrs[j]);
                        } else {
                            assert(attrs2[j] == attrs[j + 1]);
                        }
                    }
                    lemma_first_export_from_spec(attrs2, 0);
                    assert(strip_member(m) == MemberView::Method { attrs: attrs2, sig, body });
                },
                None => {
                    assert(strip_member(m) == m);
                },
            }
        },
        MemberView::Other(tok) => {
        },
    }
}

/// No member of a markerless list contributes to the worklist.
pub proof fn lemma_no_exports_no_sigs(members: Seq<MemberView>)
    requires
        forall|i: int| 0 <= i < members.len() ==> !member_exported(#[trigger] members[i]),
    ensures
        exported_sigs(members) == Seq::<FnSigView>::empty(),
    decreases members.len(),
{
    if members.len() > 0 {
        assert(forall|j: int|
            0 <= j < members.drop_last().len() ==> #[trigger] members.drop_last()[j]
                == members[j]);
        lemma_no_exports_no_sigs(members.drop_last());
    }
}

/// Marker removal is idempotent: on a collection already processed once,
/// a second pass removes nothing, changes nothing, and exports nothing —
/// provided no method carried the marker twice to begin with.
pub proof fn lemma_strip_idempotent(members: Seq<MemberView>)
    requires
        forall|i: int| 0 <= i < members.len() ==> at_most_one_marker(#[trigger] members[i]),
    ensures
        stripped_members(stripped_members(members)) == stripped_members(members),
        exported_sigs(stripped_members(members)) == Seq::<FnSigView>::empty(),
{
    let once = stripped_members(members);
    assert forall|i: int| 0 <= i < once.len() implies !member_exported(once[i])
        && stripped_members(once)[i] == once[i] by {
        lemma_strip_member_idempotent(members[i]);
    }
    assert(stripped_members(once) =~= once);
    lemma_no_exports_no_sigs(once);
}

} // verus!
