use method_export::diagnostic::Diagnostic;
use method_export::directive::parse_directive;
use method_export::export::ExportArgs;
use method_export::rpc::RpcMode;
use method_export::syntax::{Entry, Literal, NameValue, Payload, Unexpected};
use proc_macro2::Span;

fn pair_of(key: &str, value: &str) -> NameValue {
    NameValue {
        key: key.to_string(),
        span: Span::call_site(),
        value: Literal::Str(value.to_string()),
    }
}

fn list_of(pairs: &[(&str, &str)]) -> Payload {
    Payload::List(pairs.iter().map(|(k, v)| Entry::Pair(pair_of(k, v))).collect())
}

fn messages_of(diagnostics: &[Diagnostic]) -> Vec<String> {
    diagnostics.iter().map(|d| d.message.clone()).collect()
}

#[test]
fn bare_marker_gives_the_default_directive() {
    let directive = parse_directive(&Payload::Bare);
    assert_eq!(directive.args.rpc_mode, RpcMode::Disabled);
    assert_eq!(directive.args.optional_arg_count, None);
    assert_eq!(directive.args, ExportArgs::default());
    assert!(directive.diagnostics.is_empty());
}

#[test]
fn empty_list_gives_the_default_directive() {
    let directive = parse_directive(&Payload::List(vec![]));
    assert_eq!(directive.args, ExportArgs::default());
    assert!(directive.diagnostics.is_empty());
}

#[test]
fn each_mode_word_selects_its_mode() {
    let cases = [
        ("disabled", RpcMode::Disabled),
        ("remote", RpcMode::Remote),
        ("remote_sync", RpcMode::RemoteSync),
        ("master", RpcMode::Master),
        ("puppet", RpcMode::Puppet),
        ("master_sync", RpcMode::MasterSync),
        ("puppet_sync", RpcMode::PuppetSync),
    ];
    for (word, mode) in cases {
        let directive = parse_directive(&list_of(&[("rpc", word)]));
        assert_eq!(directive.args.rpc_mode, mode);
        assert_eq!(directive.args.optional_arg_count, None);
        assert!(directive.diagnostics.is_empty());
    }
}

#[test]
fn unknown_mode_word_is_reported_and_dropped() {
    let directive = parse_directive(&list_of(&[("rpc", "sideways")]));
    assert_eq!(directive.args, ExportArgs::default());
    assert_eq!(
        messages_of(&directive.diagnostics),
        vec!["unexpected value for rpc: sideways".to_string()]
    );
}

#[test]
fn mode_words_are_case_sensitive() {
    let directive = parse_directive(&list_of(&[("rpc", "Remote")]));
    assert_eq!(directive.args.rpc_mode, RpcMode::Disabled);
    assert_eq!(
        messages_of(&directive.diagnostics),
        vec!["unexpected value for rpc: Remote".to_string()]
    );
}

#[test]
fn value_that_is_no_string_is_reported_and_dropped() {
    let pair = NameValue { key: "rpc".to_string(), span: Span::call_site(), value: Literal::Other };
    let directive = parse_directive(&Payload::List(vec![Entry::Pair(pair)]));
    assert_eq!(directive.args, ExportArgs::default());
    assert_eq!(
        messages_of(&directive.diagnostics),
        vec!["unexpected type for rpc value, expected string".to_string()]
    );
}

#[test]
fn mode_set_twice_is_reported_and_the_first_stays() {
    let directive = parse_directive(&list_of(&[("rpc", "remote"), ("rpc", "master")]));
    assert_eq!(directive.args.rpc_mode, RpcMode::Remote);
    assert_eq!(
        messages_of(&directive.diagnostics),
        vec!["rpc mode was set more than once".to_string()]
    );
}

#[test]
fn unknown_key_is_reported_once_and_defaults_stay() {
    let directive = parse_directive(&list_of(&[("bogus", "x")]));
    assert_eq!(directive.args, ExportArgs::default());
    assert_eq!(directive.diagnostics.len(), 1);
    assert_eq!(directive.diagnostics[0].message, "unknown option for export: `bogus`");
    assert!(directive.diagnostics[0].message.contains("bogus"));
}

#[test]
fn pairs_after_a_bad_pair_are_still_read() {
    let directive =
        parse_directive(&list_of(&[("bogus", "x"), ("rpc", "nope"), ("rpc", "puppet_sync")]));
    assert_eq!(directive.args.rpc_mode, RpcMode::PuppetSync);
    assert_eq!(
        messages_of(&directive.diagnostics),
        vec![
            "unknown option for export: `bogus`".to_string(),
            "unexpected value for rpc: nope".to_string(),
        ]
    );
}

#[test]
fn list_element_that_is_no_pair_is_reported_and_the_rest_is_read() {
    let payload = Payload::List(vec![
        Entry::Other(Unexpected { span: Span::call_site(), text: "flag".to_string() }),
        Entry::Pair(pair_of("rpc", "master")),
    ]);
    let directive = parse_directive(&payload);
    assert_eq!(directive.args.rpc_mode, RpcMode::Master);
    assert_eq!(
        messages_of(&directive.diagnostics),
        vec!["unexpected argument in list: flag".to_string()]
    );
}

#[test]
fn single_pair_without_list_is_read() {
    let directive = parse_directive(&Payload::Pair(pair_of("rpc", "remote_sync")));
    assert_eq!(directive.args.rpc_mode, RpcMode::RemoteSync);
    assert!(directive.diagnostics.is_empty());

    let directive = parse_directive(&Payload::Pair(pair_of("export", "x")));
    assert_eq!(directive.args, ExportArgs::default());
    assert_eq!(
        messages_of(&directive.diagnostics),
        vec!["unknown option for export: `export`".to_string()]
    );
}

#[test]
fn payload_of_another_shape_is_reported_and_nothing_is_read() {
    let payload =
        Payload::Other(Unexpected { span: Span::call_site(), text: "export".to_string() });
    let directive = parse_directive(&payload);
    assert_eq!(directive.args, ExportArgs::default());
    assert_eq!(
        messages_of(&directive.diagnostics),
        vec!["unexpected attribute argument: export".to_string()]
    );
}

#[test]
fn malformed_payload_passes_its_diagnostic_on() {
    let payload = Payload::Malformed(Diagnostic {
        span: Span::call_site(),
        message: "expected literal".to_string(),
    });
    let directive = parse_directive(&payload);
    assert_eq!(directive.args, ExportArgs::default());
    assert_eq!(messages_of(&directive.diagnostics), vec!["expected literal".to_string()]);
}

#[test]
fn diagnostic_new_keeps_the_message() {
    let diagnostic = Diagnostic::new(Span::call_site(), "rpc mode was set more than once");
    assert_eq!(diagnostic.message, "rpc mode was set more than once");
    let copy = diagnostic.clone();
    assert_eq!(copy.message, diagnostic.message);
}
