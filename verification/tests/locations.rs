use method_export::derive::derive_methods;
use method_export::diagnostic::Diagnostic;
use method_export::directive::parse_directive;
use method_export::emit::{emit, Emitted};
use method_export::export::{ExportArgs, ExportMethod};
use method_export::extract::extract_method;
use method_export::syntax::{
    Attribute, Binding, Entry, GenericKind, GenericParam, ImplBlock, Literal, Marker, Member,
    Method, NameValue, Param, ParamKind, Path, Pattern, Payload, Signature, Unexpected,
};
use method_export::validate::{validate, Validation};
use proc_macro2::{Span, TokenStream};

/// Spans that differ from each other: those of the words of a line of text.
fn places(count: usize) -> Vec<Span> {
    let text = vec!["w"; count].join(" ");
    let tokens: TokenStream = text.parse().expect("words");
    tokens.into_iter().map(|token| token.span()).collect()
}

fn column(span: Span) -> usize {
    span.start().column
}

fn columns(diagnostics: &[Diagnostic]) -> Vec<usize> {
    diagnostics.iter().map(|d| column(d.span)).collect()
}

fn place_word(name: &str) -> Path {
    Path { global: false, segments: vec![name.to_string()] }
}

fn place_param(name: &str, span: Span, optional: bool) -> Param {
    Param {
        attrs: if optional {
            vec![Marker { path: place_word("opt"), text: "#[opt]".to_string() }]
        } else {
            vec![]
        },
        span,
        kind: ParamKind::Typed(
            Pattern::Ident(Binding {
                by_ref: false,
                mutable: false,
                name: name.to_string(),
                subpattern: None,
            }),
            "i32".to_string(),
        ),
    }
}

fn place_sig(span: Span, inputs: Vec<Param>) -> Signature {
    Signature {
        constness: false,
        asyncness: false,
        unsafety: false,
        abi: None,
        name: "f".to_string(),
        span,
        generics: vec![],
        where_clause: None,
        inputs,
        variadic: None,
        output: None,
    }
}

fn place_marker(span: Span, payload: Payload) -> Attribute {
    Attribute {
        outer: true,
        path: place_word("export"),
        payload,
        span,
        text: "#[export]".to_string(),
    }
}

#[test]
fn places_differ() {
    let at = places(4);
    assert_eq!(at.iter().map(|s| column(*s)).collect::<Vec<_>>(), vec![0, 2, 4, 6]);
}

#[test]
fn pair_diagnostics_stand_at_their_pairs() {
    let at = places(6);
    let payload = Payload::List(vec![
        Entry::Pair(NameValue {
            key: "bogus".to_string(),
            span: at[1],
            value: Literal::Str("x".to_string()),
        }),
        Entry::Pair(NameValue {
            key: "rpc".to_string(),
            span: at[2],
            value: Literal::Str("remote".to_string()),
        }),
        Entry::Other(Unexpected { span: at[3], text: "flag".to_string() }),
        Entry::Pair(NameValue { key: "rpc".to_string(), span: at[4], value: Literal::Other }),
        Entry::Pair(NameValue {
            key: "rpc".to_string(),
            span: at[5],
            value: Literal::Str("master".to_string()),
        }),
    ]);
    let directive = parse_directive(&payload);
    assert_eq!(columns(&directive.diagnostics), vec![2, 6, 8, 10]);
}

#[test]
fn shape_diagnostics_stand_at_the_payload() {
    let at = places(3);
    let other = Payload::Other(Unexpected { span: at[2], text: "x".to_string() });
    assert_eq!(columns(&parse_directive(&other).diagnostics), vec![4]);
    let malformed = Payload::Malformed(Diagnostic::new(at[1], "expected literal"));
    assert_eq!(columns(&parse_directive(&malformed).diagnostics), vec![2]);
    let pair = Payload::Pair(NameValue {
        key: "export".to_string(),
        span: at[2],
        value: Literal::Str("x".to_string()),
    });
    assert_eq!(columns(&parse_directive(&pair).diagnostics), vec![4]);
}

#[test]
fn later_markers_are_reported_where_they_stand() {
    let at = places(5);
    let method = Method {
        attrs: vec![
            place_marker(at[1], Payload::Bare),
            place_marker(at[2], Payload::Bare),
            place_marker(at[3], Payload::Bare),
        ],
        qualifiers: String::new(),
        sig: place_sig(at[4], vec![]),
        body: "{}".to_string(),
    };
    let mut diagnostics = vec![];
    extract_method(&method, &mut diagnostics);
    assert_eq!(columns(&diagnostics), vec![4, 6]);
}

#[test]
fn signature_diagnostics_stand_at_the_name() {
    let at = places(5);
    let short = ExportMethod {
        sig: place_sig(at[3], vec![place_param("a", at[1], false)]),
        args: ExportArgs::default(),
    };
    match validate(&short) {
        Validation::Rejected(d) => assert_eq!(columns(&d), vec![6]),
        other => panic!("accepted: {:?}", other),
    }
    match emit("C", &short) {
        Emitted::Rejected(d) => assert_eq!(columns(&d), vec![6]),
        other => panic!("registered: {:?}", other),
    }

    let mut generic = ExportMethod {
        sig: place_sig(at[4], vec![place_param("a", at[1], false), place_param("b", at[2], false)]),
        args: ExportArgs::default(),
    };
    generic
        .sig
        .generics
        .push(GenericParam { kind: GenericKind::Lifetime, text: "'a".to_string() });
    generic.sig.generics.push(GenericParam { kind: GenericKind::Type, text: "T".to_string() });
    match validate(&generic) {
        Validation::Rejected(d) => assert_eq!(columns(&d), vec![8, 8]),
        other => panic!("accepted: {:?}", other),
    }

    let mut bound = ExportMethod {
        sig: place_sig(at[2], vec![place_param("a", at[0], false), place_param("b", at[1], false)]),
        args: ExportArgs::default(),
    };
    bound.args.optional_arg_count = Some(1);
    match validate(&bound) {
        Validation::Rejected(d) => {
            assert_eq!(columns(&d), vec![4]);
            assert_eq!(d[0].message, "there can be at most 0 optional arguments, got 1");
        }
        other => panic!("accepted: {:?}", other),
    }
}

#[test]
fn placement_diagnostics_stand_at_their_parameters() {
    let at = places(7);
    let method = ExportMethod {
        sig: place_sig(
            at[0],
            vec![
                place_param("this", at[1], false),
                place_param("owner", at[2], true),
                place_param("a", at[3], true),
                place_param("b", at[4], false),
                place_param("c", at[5], true),
                place_param("d", at[6], false),
            ],
        ),
        args: ExportArgs::default(),
    };
    match validate(&method) {
        Validation::Rejected(d) => {
            assert_eq!(columns(&d), vec![4, 8, 12]);
            assert_eq!(d[0].message, "self or owner cannot be optional");
            assert_eq!(d[1].message, "cannot add required parameters after optional ones");
            assert_eq!(d[2].message, "cannot add required parameters after optional ones");
        }
        other => panic!("accepted: {:?}", other),
    }
}

#[test]
fn registration_keeps_the_places_of_name_and_parameters() {
    let at = places(5);
    let block = ImplBlock {
        class_ty: "C".to_string(),
        items: vec![Member::Method(Method {
            attrs: vec![place_marker(at[0], Payload::Bare)],
            qualifiers: String::new(),
            sig: place_sig(
                at[1],
                vec![
                    place_param("this", at[2], false),
                    place_param("owner", at[3], false),
                    place_param("a", at[4], true),
                ],
            ),
            body: "{}".to_string(),
        })],
    };
    let derived = derive_methods(&block);
    match &derived.registrations[0] {
        Emitted::Registration(r) => {
            assert_eq!(column(r.span), 2);
            let at_params: Vec<usize> = r.params.iter().map(|p| column(p.param.span)).collect();
            assert_eq!(at_params, vec![4, 6, 8]);
        }
        other => panic!("rejected: {:?}", other),
    }
    match &derived.members[0] {
        Member::Method(method) => {
            assert_eq!(column(method.sig.span), 2);
            assert_eq!(column(method.sig.inputs[2].span), 8);
        }
        other => panic!("not a method: {:?}", other),
    }
}
