use method_export::filter::{check_export_attr, collect_exports, export_attr_position};
use method_export::model::{Attr, FnSig, Member, MethodCollection, Param, Pat};
use method_export::validate::{
    check_generics, normalize_signature, validate_and_normalize, GenericKind, Rejection,
};

fn attr(outer: bool, segments: &[&str], tok: usize) -> Attr {
    Attr {
        outer,
        segments: segments.iter().map(|s| s.to_string()).collect(),
        tok,
    }
}

fn plain_sig(name: &str, params: Vec<Param>) -> FnSig {
    FnSig {
        name: name.to_string(),
        type_params: 0,
        lifetime_params: 0,
        const_params: 0,
        unsafety: false,
        params,
        rest: 0,
    }
}

#[test]
fn marker_requires_outer_style() {
    assert!(check_export_attr(&attr(true, &["export"], 0)));
    assert!(!check_export_attr(&attr(false, &["export"], 0)));
}

#[test]
fn marker_is_final_path_segment() {
    assert!(check_export_attr(&attr(true, &["markers", "export"], 0)));
    assert!(!check_export_attr(&attr(true, &["export", "more"], 0)));
    assert!(!check_export_attr(&attr(true, &["exported"], 0)));
    assert!(!check_export_attr(&attr(true, &[], 0)));
}

#[test]
fn first_marker_position_wins() {
    let attrs = vec![
        attr(true, &["inline"], 0),
        attr(false, &["export"], 1),
        attr(true, &["export"], 2),
        attr(true, &["export"], 3),
    ];
    assert_eq!(export_attr_position(&attrs), Some(2));
    let inert = vec![attr(true, &["inline"], 0), attr(true, &["allow"], 1)];
    assert_eq!(export_attr_position(&inert), None);
}

#[test]
fn filter_removes_only_first_marker() {
    let method = Member::Method {
        attrs: vec![
            attr(true, &["inline"], 0),
            attr(true, &["export"], 1),
            attr(true, &["export"], 2),
        ],
        sig: plain_sig("a", vec![Param::Receiver(0)]),
        body: 9,
    };
    let c = MethodCollection { class: 5, members: vec![method] };
    let filtered = collect_exports(&c);
    assert_eq!(filtered.collection.class, 5);
    assert_eq!(
        filtered.collection.members,
        vec![Member::Method {
            attrs: vec![attr(true, &["inline"], 0), attr(true, &["export"], 2)],
            sig: plain_sig("a", vec![Param::Receiver(0)]),
            body: 9,
        }]
    );
    assert_eq!(filtered.worklist, vec![plain_sig("a", vec![Param::Receiver(0)])]);
}

#[test]
fn filter_passes_unmarked_members_through() {
    let members = vec![
        Member::Other(3),
        Member::Method {
            attrs: vec![attr(true, &["inline"], 0)],
            sig: plain_sig("quiet", vec![Param::Receiver(0)]),
            body: 1,
        },
    ];
    let c = MethodCollection { class: 0, members };
    let filtered = collect_exports(&c);
    assert_eq!(filtered.collection, c);
    assert!(filtered.worklist.is_empty());
}

#[test]
fn generics_rejection_order() {
    let mut s = plain_sig("g", vec![]);
    s.type_params = 1;
    s.lifetime_params = 1;
    s.const_params = 1;
    assert_eq!(check_generics(&s), Some(GenericKind::TypeParam));
    s.type_params = 0;
    assert_eq!(check_generics(&s), Some(GenericKind::LifetimeParam));
    s.lifetime_params = 0;
    assert_eq!(check_generics(&s), Some(GenericKind::ConstParam));
    s.const_params = 0;
    assert_eq!(check_generics(&s), None);
}

#[test]
fn normalization_rewrites_parameters() {
    let s = FnSig {
        name: "c".to_string(),
        type_params: 0,
        lifetime_params: 0,
        const_params: 0,
        unsafety: true,
        params: vec![
            Param::Receiver(0),
            Param::Typed { pat: Pat::Wild, ty: 1 },
            Param::Typed {
                pat: Pat::Ident { mutable: true, name: "y".to_string() },
                ty: 2,
            },
            Param::Typed { pat: Pat::Other(4), ty: 3 },
        ],
        rest: 8,
    };
    let n = normalize_signature(&s);
    assert_eq!(n.name, "c");
    assert!(!n.unsafety);
    assert_eq!(n.rest, 8);
    assert_eq!(
        n.params,
        vec![
            Param::Receiver(0),
            Param::Typed {
                pat: Pat::Ident { mutable: false, name: "___unused_arg_1".to_string() },
                ty: 1,
            },
            Param::Typed {
                pat: Pat::Ident { mutable: false, name: "y".to_string() },
                ty: 2,
            },
            Param::Typed { pat: Pat::Other(4), ty: 3 },
        ]
    );
}

#[test]
fn validator_splits_accepted_and_rejected() {
    let good = plain_sig("a", vec![Param::Receiver(0)]);
    let mut generic = plain_sig("b", vec![Param::Receiver(1)]);
    generic.type_params = 1;
    let out = validate_and_normalize(&vec![good.clone(), generic]);
    assert_eq!(out.accepted, vec![good]);
    assert_eq!(
        out.rejections,
        vec![Rejection { name: "b".to_string(), kind: GenericKind::TypeParam }]
    );
}

#[test]
fn rejection_messages_name_the_category() {
    let r = |kind| Rejection { name: "f".to_string(), kind };
    assert_eq!(
        r(GenericKind::TypeParam).message(),
        "type parameters not allowed in exported functions"
    );
    assert_eq!(
        r(GenericKind::LifetimeParam).message(),
        "lifetime parameters not allowed in exported functions"
    );
    assert_eq!(
        r(GenericKind::ConstParam).message(),
        "const parameters not allowed in exported functions"
    );
}
