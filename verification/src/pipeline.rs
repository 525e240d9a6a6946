//! The whole pipeline, and the emitter's observable output.
//!
//! One invocation processes one method-collection construct: the attribute
//! filter removes the markers and collects the worklist, the validator
//! accepts or rejects each worklisted signature, and the emitter registers
//! a wrapper for every accepted signature under the function's name, in
//! declaration order filtered by acceptance. The host runtime supplies the
//! builder that performs the two calls per entry (construct a wrapper from
//! the owner type and the signature, then add it under the string name);
//! this module fixes which entries are registered, under which names, and
//! in which order.

use vstd::prelude::*;

use crate::filter::{collect_exports, exported_sigs, stripped_members};
use crate::model::{lemma_vec_deep_view, FnSig, FnSigView, MemberView, MethodCollection};
use crate::validate::{
    accepted_sigs, rejections_of, validate_and_normalize, Rejection, RejectionView,
};

verus! {

/// The export descriptor: the owner type and the accepted, normalized
/// signatures to register, in registration order.
#[derive(Debug)]
pub struct ExportDescriptor {
    pub class: usize,
    pub methods: Vec<FnSig>,
}

/// Everything one invocation produces: the collection with markers
/// removed, the export descriptor, and the rejection diagnostics.
#[derive(Debug)]
pub struct PipelineOutput {
    pub collection: MethodCollection,
    pub descriptor: ExportDescriptor,
    pub rejections: Vec<Rejection>,
}

/// The signatures a member list exports: the marked methods' signatures,
/// validated and normalized, in declaration order.
pub open spec fn accepted_of_members(members: Seq<MemberView>) -> Seq<FnSigView> {
    accepted_sigs(exported_sigs(members))
}

/// The diagnostics a member list yields, in declaration order.
pub open spec fn rejections_of_members(members: Seq<MemberView>) -> Seq<RejectionView> {
    rejections_of(exported_sigs(members))
}

/// The string names under which the registration routine registers
/// wrappers, in registration order.
pub open spec fn registration_names(members: Seq<MemberView>) -> Seq<Seq<char>> {
    accepted_of_members(members).map_values(|s: FnSigView| s.name)
}

/// Run the pipeline on one parsed collection.
///
/// The output collection reproduces the input member for member, in order,
/// with exactly the marker attributes removed; the descriptor holds the
/// accepted, normalized signatures in declaration order; the rejections
/// hold one diagnostic for each marked signature that declares a generic
/// parameter.
pub fn process(c: &MethodCollection) -> (out: PipelineOutput)
    ensures
        out.collection@.class == c@.class,
        out.collection@.members == stripped_members(c@.members),
        out.descriptor.class == c.class,
        out.descriptor.methods.deep_view() == accepted_of_members(c@.members),
        out.rejections.deep_view() == rejections_of_members(c@.members),
{
    let filtered = collect_exports(c);
    let validated = validate_and_normalize(&filtered.worklist);
    PipelineOutput {
        collection: filtered.collection,
        descriptor: ExportDescriptor { class: c.class, methods: validated.accepted },
        rejections: validated.rejections,
    }
}

/// Process the outcome of parsing one construct.
///
/// A malformed construct is the only fatal failure: its parse diagnostic
/// is handed back unchanged and nothing is produced. A rejected signature
/// is never fatal: it only yields a diagnostic inside the output, and the
/// rest of the construct is processed normally.
pub fn run(parsed: Result<MethodCollection, String>) -> (r: Result<PipelineOutput, String>)
    ensures
        parsed is Err <==> r is Err,
        parsed matches Err(e) ==> r matches Err(f) && f == e,
        parsed matches Ok(c) ==> r matches Ok(out) && {
            &&& out.collection@.class == c@.class
            &&& out.collection@.members == stripped_members(c@.members)
            &&& out.descriptor.class == c.class
            &&& out.descriptor.methods.deep_view() == accepted_of_members(c@.members)
            &&& out.rejections.deep_view() == rejections_of_members(c@.members)
        },
{
    match parsed {
        Ok(c) => Ok(process(&c)),
        Err(e) => Err(e),
    }
}

/// The registration keys of a descriptor, in registration order.
pub fn export_names(d: &ExportDescriptor) -> (names: Vec<String>)
    ensures
        names.deep_view() == d.methods.deep_view().map_values(|s: FnSigView| s.name),
{
    proof {
        lemma_vec_deep_view(&d.methods);
    }
    let mut names: Vec<String> = Vec::new();
    let mut i: usize = 0;
    while i < d.methods.len()
        invariant
            i <= d.methods@.len(),
            names@.len() == i,
            forall|j: int| 0 <= j < i ==> #[trigger] names@[j]@ == d.methods@[j]@.name,
        decreases d.methods@.len() - i,
    {
        names.push(d.methods[i].name.clone());
        i = i + 1;
    }
    proof {
        lemma_vec_deep_view(&names);
        lemma_vec_deep_view(&d.methods);
        assert(names.deep_view() =~= d.methods.deep_view().map_values(|s: FnSigView| s.name));
    }
    names
}

} // verus!
