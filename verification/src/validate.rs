//! The signature validator and normalizer.
//!
//! A worklisted signature that declares any generic parameter is rejected
//! with a diagnostic naming the offending category, and processing goes on
//! with the next entry; the registration mechanism cannot synthesize
//! wrappers for generic functions, and failing the whole build for one
//! function would be disproportionate. Every accepted signature is
//! normalized: a wildcard parameter gets a fresh name derived from its
//! position, a simple binding loses its mutability marker, any other
//! pattern form passes through unchanged, and the signature's unsafety
//! qualifier is cleared.

use vstd::prelude::*;

use crate::model::{lemma_vec_deep_view, FnSig, FnSigView, Param, ParamView, Pat, PatView};
use crate::names::{synth_name, synth_name_seq};

verus! {

/// The category of a disallowed generic parameter.
#[derive(Clone, Copy, PartialEq, Eq, Structural, Debug)]
pub enum GenericKind {
    TypeParam,
    LifetimeParam,
    ConstParam,
}

/// A per-signature diagnostic: the rejected function's name and the
/// category of generic parameter that made it unexportable.
#[derive(Clone, Debug, PartialEq, Eq)]
pub struct Rejection {
    pub name: String,
    pub kind: GenericKind,
}

pub ghost struct RejectionView {
    pub name: Seq<char>,
    pub kind: GenericKind,
}

impl View for Rejection {
    type V = RejectionView;

    open spec fn view(&self) -> RejectionView {
        RejectionView { name: self.name@, kind: self.kind }
    }
}

impl DeepView for Rejection {
    type V = RejectionView;

    open spec fn deep_view(&self) -> RejectionView {
        self.view()
    }
}

/// Why a signature is rejected, if at all: type parameters are reported
/// first, then lifetime parameters, then const generic parameters.
pub open spec fn rejection_of(s: FnSigView) -> Option<GenericKind> {
    if s.type_params > 0 {
        Some(GenericKind::TypeParam)
    } else if s.lifetime_params > 0 {
        Some(GenericKind::LifetimeParam)
    } else if s.const_params > 0 {
        Some(GenericKind::ConstParam)
    } else {
        None
    }
}

/// Check a signature's generic-parameter counts.
pub fn check_generics(s: &FnSig) -> (r: Option<GenericKind>)
    ensures
        r == rejection_of(s@),
{
    if s.type_params > 0 {
        Some(GenericKind::TypeParam)
    } else if s.lifetime_params > 0 {
        Some(GenericKind::LifetimeParam)
    } else if s.const_params > 0 {
        Some(GenericKind::ConstParam)
    } else {
        None
    }
}

/// The diagnostic line for a rejection category.
pub open spec fn rejection_message(k: GenericKind) -> Seq<char> {
    match k {
        GenericKind::TypeParam => "type parameters not allowed in exported functions"@,
        GenericKind::LifetimeParam => "lifetime parameters not allowed in exported functions"@,
        GenericKind::ConstParam => "const parameters not allowed in exported functions"@,
    }
}

impl Rejection {
    /// Render the diagnostic for this rejection.
    pub fn message(&self) -> (m: String)
        ensures
            m@ == rejection_message(self@.kind),
    {
        match self.kind {
            GenericKind::TypeParam => String::from_str(
                "type parameters not allowed in exported functions",
            ),
            GenericKind::LifetimeParam => String::from_str(
                "lifetime parameters not allowed in exported functions",
            ),
            GenericKind::ConstParam => String::from_str(
                "const parameters not allowed in exported functions",
            ),
        }
    }
}

/// The binding pattern of the parameter at position `i` after
/// normalization: a wildcard becomes a fresh identifier synthesized from
/// the position, a simple binding loses its mutability marker, and any
/// other pattern form is passed through unchanged.
pub open spec fn normalize_pat(i: int, p: PatView) -> PatView {
    match p {
        PatView::Wild => PatView::Ident { mutable: false, name: synth_name_seq(i as nat) },
        PatView::Ident { mutable, name } => PatView::Ident { mutable: false, name },
        PatView::Other(tok) => p,
    }
}

/// The parameter at position `i` after normalization: the receiver is kept
/// as it is; a typed parameter keeps its type annotation and has its
/// binding pattern rewritten.
pub open spec fn normalize_param(i: int, p: ParamView) -> ParamView {
    match p {
        ParamView::Receiver(tok) => p,
        ParamView::Typed { pat, ty } => ParamView::Typed { pat: normalize_pat(i, pat), ty },
    }
}

/// A signature after normalization: every parameter rewritten in place,
/// the unsafety qualifier cleared, everything else unchanged.
pub open spec fn normalize_sig(s: FnSigView) -> FnSigView {
    FnSigView {
        unsafety: false,
        params: Seq::new(s.params.len(), |i: int| normalize_param(i, s.params[i])),
        ..s
    }
}

/// Normalize one accepted signature.
pub fn normalize_signature(s: &FnSig) -> (r: FnSig)
    ensures
        r@ == normalize_sig(s@),
{
    let mut params: Vec<Param> = Vec::new();
    let mut i: usize = 0;
    while i < s.params.len()
        invariant
            i <= s.params@.len(),
            params@.len() == i,
            forall|j: int|
                0 <= j < i ==> #[trigger] params@[j]@ == normalize_param(j, s.params@[j]@),
        decreases s.params@.len() - i,
    {
        let p = match &s.params[i] {
            Param::Receiver(tok) => Param::Receiver(*tok),
            Param::Typed { pat, ty } => {
                let new_pat = match pat {
                    Pat::Wild => Pat::Ident { mutable: false, name: synth_name(i) },
                    Pat::Ident { mutable, name } => Pat::Ident {
                        mutable: false,
                        name: name.clone(),
                    },
                    Pat::Other(tok) => Pat::Other(*tok),
                };
                Param::Typed { pat: new_pat, ty: *ty }
            },
        };
        params.push(p);
        i = i + 1;
    }
    proof {
        lemma_vec_deep_view(&params);
        lemma_vec_deep_view(&s.params);
        assert(params.deep_view() =~= normalize_sig(s@).params);
    }
    FnSig {
        name: s.name.clone(),
        type_params: s.type_params,
        lifetime_params: s.lifetime_params,
        const_params: s.const_params,
        unsafety: false,
        params,
        rest: s.rest,
    }
}

/// The accepted signatures of a worklist, normalized, in worklist order.
pub open spec fn accepted_sigs(work: Seq<FnSigView>) -> Seq<FnSigView>
    decreases work.len(),
{
    if work.len() == 0 {
        Seq::empty()
    } else {
        let rest = accepted_sigs(work.drop_last());
        if rejection_of(work.last()) is None {
            rest.push(normalize_sig(work.last()))
        } else {
            rest
        }
    }
}

/// The rejection diagnostics of a worklist, in worklist order.
pub open spec fn rejections_of(work: Seq<FnSigView>) -> Seq<RejectionView>
    decreases work.len(),
{
    if work.len() == 0 {
        Seq::empty()
    } else {
        let rest = rejections_of(work.drop_last());
        match rejection_of(work.last()) {
            Some(k) => rest.push(RejectionView { name: work.last().name, kind: k }),
            None => rest,
        }
    }
}

/// The validator's result: the accepted, normalized signatures, and the
/// diagnostics for the rejected ones.
#[derive(Debug)]
pub struct ValidationOutput {
    pub accepted: Vec<FnSig>,
    pub rejections: Vec<Rejection>,
}

/// Validate and normalize a worklist of signatures.
///
/// Every signature free of generic parameters is accepted and normalized;
/// every other signature yields one diagnostic naming the offending
/// category. Both lists keep the worklist's order.
pub fn validate_and_normalize(work: &Vec<FnSig>) -> (r: ValidationOutput)
    ensures
        r.accepted.deep_view() == accepted_sigs(work.deep_view()),
        r.rejections.deep_view() == rejections_of(work.deep_view()),
{
    let ghost wv: Seq<FnSigView> = work.deep_view();
    proof {
        lemma_vec_deep_view(work);
    }
    let mut accepted: Vec<FnSig> = Vec::new();
    let mut rejections: Vec<Rejection> = Vec::new();
    let mut i: usize = 0;
    while i < work.len()
        invariant
            i <= work@.len(),
            wv == work.deep_view(),
            wv.len() == work@.len(),
            forall|j: int| 0 <= j < wv.len() ==> wv[j] == work@[j]@,
            accepted.deep_view() =~= accepted_sigs(wv.take(i as int)),
            rejections.deep_view() =~= rejections_of(wv.take(i as int)),
        decreases work@.len() - i,
    {
        let ghost old_accepted = accepted.deep_view();
        let ghost old_rejections = rejections.deep_view();
        let s = &work[i];
        match check_generics(s) {
            Some(kind) => {
                rejections.push(Rejection { name: s.name.clone(), kind });
                proof {
                    lemma_vec_deep_view(&rejections);
                    assert(rejections.deep_view() =~= old_rejections.push(
                        RejectionView { name: s@.name, kind },
                    ));
                }
            },
            None => {
                accepted.push(normalize_signature(s));
                proof {
                    lemma_vec_deep_view(&accepted);
                    assert(accepted.deep_view() =~= old_accepted.push(normalize_sig(s@)));
                }
            },
        }
        i = i + 1;
        proof {
            assert(wv.take(i as int).drop_last() =~= wv.take(i - 1));
            assert(wv.take(i as int).last() == wv[i - 1]);
            assert(accepted.deep_view() =~= accepted_sigs(wv.take(i as int)));
            assert(rejections.deep_view() =~= rejections_of(wv.take(i as int)));
        }
    }
    proof {
        assert(wv.take(wv.len() as int) =~= wv);
    }
    ValidationOutput { accepted, rejections }
}

} // verus!
