use method_export::filter::collect_exports;
use method_export::model::{Attr, FnSig, Member, MethodCollection, Param, Pat};
use method_export::pipeline::{export_names, process, run};
use method_export::validate::{GenericKind, Rejection};

fn export_attr(tok: usize) -> Attr {
    Attr { outer: true, segments: vec!["export".to_string()], tok }
}

fn sig(name: &str, type_params: usize, unsafety: bool, params: Vec<Param>, rest: usize) -> FnSig {
    FnSig {
        name: name.to_string(),
        type_params,
        lifetime_params: 0,
        const_params: 0,
        unsafety,
        params,
        rest,
    }
}

fn ident(mutable: bool, name: &str) -> Pat {
    Pat::Ident { mutable, name: name.to_string() }
}

/// Two marked methods, `fn a(&self, _x: i32)` and `fn b<T>(&self)`: only
/// `a` is registered, its wildcard renamed after position 1; `b` draws one
/// diagnostic citing its type parameter and stays in the construct,
/// unexported.
#[test]
fn wildcard_accepted_generic_rejected() {
    let method_a = Member::Method {
        attrs: vec![export_attr(0)],
        sig: sig(
            "a",
            0,
            false,
            vec![Param::Receiver(0), Param::Typed { pat: Pat::Wild, ty: 1 }],
            0,
        ),
        body: 0,
    };
    let method_b = Member::Method {
        attrs: vec![export_attr(1)],
        sig: sig("b", 1, false, vec![Param::Receiver(2)], 1),
        body: 1,
    };
    let c = MethodCollection { class: 0, members: vec![method_a, method_b] };
    let out = process(&c);

    assert_eq!(export_names(&out.descriptor), vec!["a".to_string()]);
    assert_eq!(
        out.descriptor.methods,
        vec![sig(
            "a",
            0,
            false,
            vec![
                Param::Receiver(0),
                Param::Typed { pat: ident(false, "___unused_arg_1"), ty: 1 },
            ],
            0,
        )]
    );
    assert_eq!(
        out.rejections,
        vec![Rejection { name: "b".to_string(), kind: GenericKind::TypeParam }]
    );
    assert_eq!(
        out.rejections[0].message(),
        "type parameters not allowed in exported functions"
    );
    // Both methods stay in the construct, markers removed, signatures
    // untouched; `b` is simply not exported.
    assert_eq!(
        out.collection.members,
        vec![
            Member::Method {
                attrs: vec![],
                sig: sig(
                    "a",
                    0,
                    false,
                    vec![Param::Receiver(0), Param::Typed { pat: Pat::Wild, ty: 1 }],
                    0,
                ),
                body: 0,
            },
            Member::Method {
                attrs: vec![],
                sig: sig("b", 1, false, vec![Param::Receiver(2)], 1),
                body: 1,
            },
        ]
    );
}

/// A marked method `fn c(&self, mut y: i32)`: it is registered under
/// `"c"`, and the emitted signature binds `y` without the mutability
/// marker.
#[test]
fn mutable_binding_loses_marker() {
    let method_c = Member::Method {
        attrs: vec![export_attr(0)],
        sig: sig(
            "c",
            0,
            false,
            vec![Param::Receiver(0), Param::Typed { pat: ident(true, "y"), ty: 1 }],
            0,
        ),
        body: 0,
    };
    let c = MethodCollection { class: 2, members: vec![method_c] };
    let out = process(&c);

    assert_eq!(export_names(&out.descriptor), vec!["c".to_string()]);
    assert_eq!(
        out.descriptor.methods[0].params,
        vec![Param::Receiver(0), Param::Typed { pat: ident(false, "y"), ty: 1 }]
    );
    assert!(out.rejections.is_empty());
}

/// Members without the marker pass through byte-for-byte: nothing is
/// removed from them and nothing is registered for them.
#[test]
fn unmarked_members_reproduced_unchanged() {
    let inert = Attr { outer: true, segments: vec!["inline".to_string()], tok: 4 };
    let members = vec![
        Member::Other(7),
        Member::Method {
            attrs: vec![inert],
            sig: sig("quiet", 0, false, vec![Param::Receiver(0)], 3),
            body: 2,
        },
    ];
    let c = MethodCollection { class: 1, members };
    let out = process(&c);

    assert_eq!(out.collection, c);
    assert!(out.descriptor.methods.is_empty());
    assert!(export_names(&out.descriptor).is_empty());
    assert!(out.rejections.is_empty());
}

/// Running marker removal on already-processed output removes nothing
/// further and changes nothing: no marker remains after the first pass.
#[test]
fn marker_removal_is_idempotent() {
    let members = vec![
        Member::Method {
            attrs: vec![export_attr(0)],
            sig: sig("a", 0, false, vec![Param::Receiver(0)], 0),
            body: 0,
        },
        Member::Method {
            attrs: vec![Attr { outer: true, segments: vec!["inline".to_string()], tok: 1 }],
            sig: sig("b", 0, false, vec![Param::Receiver(1)], 1),
            body: 1,
        },
        Member::Other(5),
    ];
    let c = MethodCollection { class: 0, members };
    let once = collect_exports(&c);
    let twice = collect_exports(&once.collection);

    assert_eq!(twice.collection, once.collection);
    assert!(twice.worklist.is_empty());
}

/// Registration order follows declaration order, filtered by acceptance.
#[test]
fn registration_order_follows_declaration() {
    let make = |name: &str, type_params: usize, tok: usize| Member::Method {
        attrs: vec![export_attr(tok)],
        sig: sig(name, type_params, false, vec![Param::Receiver(tok)], tok),
        body: tok,
    };
    let c = MethodCollection {
        class: 0,
        members: vec![make("first", 0, 0), make("middle", 1, 1), make("last", 0, 2)],
    };
    let out = process(&c);
    assert_eq!(
        export_names(&out.descriptor),
        vec!["first".to_string(), "last".to_string()]
    );
    assert_eq!(out.rejections.len(), 1);
    assert_eq!(out.rejections[0].name, "middle");
}

/// An unsafety qualifier on a marked method is cleared in the emitted
/// signature.
#[test]
fn unsafety_qualifier_cleared() {
    let method = Member::Method {
        attrs: vec![export_attr(0)],
        sig: sig("touchy", 0, true, vec![Param::Receiver(0)], 0),
        body: 0,
    };
    let c = MethodCollection { class: 0, members: vec![method] };
    let out = process(&c);
    assert!(!out.descriptor.methods[0].unsafety);
}

/// Only a parse failure is fatal: it is handed back unchanged, while
/// rejected signatures never abort a run.
#[test]
fn parse_failure_is_the_only_fatal_path() {
    let failed = run(Err("unexpected token".to_string()));
    assert_eq!(failed.unwrap_err(), "unexpected token");

    let mut generic = sig("g", 1, false, vec![Param::Receiver(0)], 0);
    generic.lifetime_params = 2;
    let c = MethodCollection {
        class: 0,
        members: vec![Member::Method { attrs: vec![export_attr(0)], sig: generic, body: 0 }],
    };
    let out = run(Ok(c)).unwrap();
    assert!(out.descriptor.methods.is_empty());
    assert_eq!(out.rejections.len(), 1);
}
