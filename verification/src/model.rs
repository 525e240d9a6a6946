//! The data model of a method-collection construct.
//!
//! The pipeline operates on an owner type together with its ordered list of
//! member items. Only what the pipeline reads and rewrites is modelled as
//! plain values: attribute style and path segments, binding patterns,
//! generic-parameter counts and the unsafety flag of a signature. Everything
//! the pipeline passes through untouched (an attribute's argument tokens, a
//! type annotation, a method body, the owner type itself) is carried as an
//! opaque handle that the caller resolves back to its original form.
//!
//! Each type has a view; the pipeline's contracts are stated over the views.

use vstd::prelude::*;

verus! {

/// One attribute on a member: its style (`outer` is true for an attribute
/// written above the item), the identifiers of its path in order, and an
/// opaque handle for the rest of its tokens.
#[derive(Clone, Debug, PartialEq, Eq)]
pub struct Attr {
    pub outer: bool,
    pub segments: Vec<String>,
    pub tok: usize,
}

pub ghost struct AttrView {
    pub outer: bool,
    pub segments: Seq<Seq<char>>,
    pub tok: int,
}

impl View for Attr {
    type V = AttrView;

    open spec fn view(&self) -> AttrView {
        AttrView { outer: self.outer, segments: self.segments.deep_view(), tok: self.tok as int }
    }
}

impl DeepView for Attr {
    type V = AttrView;

    open spec fn deep_view(&self) -> AttrView {
        self.view()
    }
}

/// The binding pattern of a parameter: a wildcard, a simple identifier with
/// an optional mutability marker, or any other pattern form (carried as an
/// opaque handle and never rewritten).
#[derive(Clone, Debug, PartialEq, Eq)]
pub enum Pat {
    Wild,
    Ident { mutable: bool, name: String },
    Other(usize),
}

pub ghost enum PatView {
    Wild,
    Ident { mutable: bool, name: Seq<char> },
    Other(int),
}

impl View for Pat {
    type V = PatView;

    open spec fn view(&self) -> PatView {
        match self {
            Pat::Wild => PatView::Wild,
            Pat::Ident { mutable, name } => PatView::Ident { mutable: *mutable, name: name@ },
            Pat::Other(tok) => PatView::Other(*tok as int),
        }
    }
}

impl DeepView for Pat {
    type V = PatView;

    open spec fn deep_view(&self) -> PatView {
        self.view()
    }
}

/// One parameter of a signature: either the receiver (a self-parameter,
/// opaque) or a typed parameter, a binding pattern with an opaque type
/// annotation.
#[derive(Clone, Debug, PartialEq, Eq)]
pub enum Param {
    Receiver(usize),
    Typed { pat: Pat, ty: usize },
}

pub ghost enum ParamView {
    Receiver(int),
    Typed { pat: PatView, ty: int },
}

impl View for Param {
    type V = ParamView;

    open spec fn view(&self) -> ParamView {
        match self {
            Param::Receiver(tok) => ParamView::Receiver(*tok as int),
            Param::Typed { pat, ty } => ParamView::Typed { pat: pat@, ty: *ty as int },
        }
    }
}

impl DeepView for Param {
    type V = ParamView;

    open spec fn deep_view(&self) -> ParamView {
        self.view()
    }
}

/// A function signature: its name, the counts of its generic parameters by
/// category, its unsafety qualifier, its ordered parameters, and an opaque
/// handle for everything the pipeline passes through (the return type, a
/// where clause, and the like).
#[derive(Clone, Debug, PartialEq, Eq)]
pub struct FnSig {
    pub name: String,
    pub type_params: usize,
    pub lifetime_params: usize,
    pub const_params: usize,
    pub unsafety: bool,
    pub params: Vec<Param>,
    pub rest: usize,
}

pub ghost struct FnSigView {
    pub name: Seq<char>,
    pub type_params: int,
    pub lifetime_params: int,
    pub const_params: int,
    pub unsafety: bool,
    pub params: Seq<ParamView>,
    pub rest: int,
}

impl View for FnSig {
    type V = FnSigView;

    open spec fn view(&self) -> FnSigView {
        FnSigView {
            name: self.name@,
            type_params: self.type_params as int,
            lifetime_params: self.lifetime_params as int,
            const_params: self.const_params as int,
            unsafety: self.unsafety,
            params: self.params.deep_view(),
            rest: self.rest as int,
        }
    }
}

impl DeepView for FnSig {
    type V = FnSigView;

    open spec fn deep_view(&self) -> FnSigView {
        self.view()
    }
}

/// One member of the collection: a method (attributes, signature and an
/// opaque handle for its body) or any other item kind, carried opaque.
#[derive(Clone, Debug, PartialEq, Eq)]
pub enum Member {
    Method { attrs: Vec<Attr>, sig: FnSig, body: usize },
    Other(usize),
}

pub ghost enum MemberView {
    Method { attrs: Seq<AttrView>, sig: FnSigView, body: int },
    Other(int),
}

impl View for Member {
    type V = MemberView;

    open spec fn view(&self) -> MemberView {
        match self {
            Member::Method { attrs, sig, body } => MemberView::Method {
                attrs: attrs.deep_view(),
                sig: sig@,
                body: *body as int,
            },
            Member::Other(tok) => MemberView::Other(*tok as int),
        }
    }
}

impl DeepView for Member {
    type V = MemberView;

    open spec fn deep_view(&self) -> MemberView {
        self.view()
    }
}

/// The method-collection construct: the owner type (opaque) and its member
/// items in declaration order.
#[derive(Clone, Debug, PartialEq, Eq)]
pub struct MethodCollection {
    pub class: usize,
    pub members: Vec<Member>,
}

pub ghost struct MethodCollectionView {
    pub class: int,
    pub members: Seq<MemberView>,
}

impl View for MethodCollection {
    type V = MethodCollectionView;

    open spec fn view(&self) -> MethodCollectionView {
        MethodCollectionView { class: self.class as int, members: self.members.deep_view() }
    }
}

/// Whether a parameter is a typed parameter bound by a wildcard.
pub open spec fn param_is_wild(p: ParamView) -> bool {
    match p {
        ParamView::Typed { pat: PatView::Wild, ty } => true,
        _ => false,
    }
}

/// Whether a parameter is a typed parameter bound by a simple identifier.
pub open spec fn param_is_ident(p: ParamView) -> bool {
    match p {
        ParamView::Typed { pat: PatView::Ident { mutable, name }, ty } => true,
        _ => false,
    }
}

/// The identifier a typed parameter is bound by.
pub open spec fn param_ident_name(p: ParamView) -> Seq<char>
    recommends
        param_is_ident(p),
{
    match p {
        ParamView::Typed { pat: PatView::Ident { mutable, name }, ty } => name,
        _ => arbitrary(),
    }
}

/// Whether a typed parameter's binding carries the mutability marker.
pub open spec fn param_ident_mutable(p: ParamView) -> bool
    recommends
        param_is_ident(p),
{
    match p {
        ParamView::Typed { pat: PatView::Ident { mutable, name }, ty } => mutable,
        _ => arbitrary(),
    }
}

/// The type annotation of a typed parameter.
pub open spec fn param_ty(p: ParamView) -> int
    recommends
        p is Typed,
{
    match p {
        ParamView::Typed { pat, ty } => ty,
        _ => arbitrary(),
    }
}

/// The deep view of a vector indexes elementwise into the views of its
/// elements.
pub proof fn lemma_vec_deep_view<T: DeepView>(v: &Vec<T>)
    ensures
        v.deep_view().len() == v@.len(),
        forall|j: int| 0 <= j < v@.len() ==> v.deep_view()[j] == v@[j].deep_view(),
{
}

/// Copy a list of path segments.
pub fn clone_segments(v: &Vec<String>) -> (r: Vec<String>)
    ensures
        r@ == v@,
{
    let mut r: Vec<String> = Vec::new();
    let mut i: usize = 0;
    while i < v.len()
        invariant
            i <= v.len(),
            r@ =~= v@.take(i as int),
        decreases v.len() - i,
    {
        r.push(v[i].clone());
        i = i + 1;
    }
    proof {
        assert(r@ =~= v@);
    }
    r
}

/// Copy an attribute.
pub fn clone_attr(a: &Attr) -> (r: Attr)
    ensures
        r@ == a@,
{
    Attr { outer: a.outer, segments: clone_segments(&a.segments), tok: a.tok }
}

/// Copy a binding pattern.
pub fn clone_pat(p: &Pat) -> (r: Pat)
    ensures
        r == *p,
{
    match p {
        Pat::Wild => Pat::Wild,
        Pat::Ident { mutable, name } => Pat::Ident { mutable: *mutable, name: name.clone() },
        Pat::Other(tok) => Pat::Other(*tok),
    }
}

/// Copy a parameter.
pub fn clone_param(p: &Param) -> (r: Param)
    ensures
        r == *p,
{
    match p {
        Param::Receiver(tok) => Param::Receiver(*tok),
        Param::Typed { pat, ty } => Param::Typed { pat: clone_pat(pat), ty: *ty },
    }
}

/// Copy a list of parameters.
pub fn clone_params(v: &Vec<Param>) -> (r: Vec<Param>)
    ensures
        r@ == v@,
{
    let mut r: Vec<Param> = Vec::new();
    let mut i: usize = 0;
    while i < v.len()
        invariant
            i <= v.len(),
            r@ =~= v@.take(i as int),
        decreases v.len() - i,
    {
        r.push(clone_param(&v[i]));
        i = i + 1;
    }
    proof {
        assert(r@ =~= v@);
    }
    r
}

/// Copy a signature.
pub fn clone_sig(s: &FnSig) -> (r: FnSig)
    ensures
        r@ == s@,
{
    FnSig {
        name: s.name.clone(),
        type_params: s.type_params,
        lifetime_params: s.lifetime_params,
        const_params: s.const_params,
        unsafety: s.unsafety,
        params: clone_params(&s.params),
        rest: s.rest,
    }
}

} // verus!
