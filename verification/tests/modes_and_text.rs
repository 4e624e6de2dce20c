use method_export::export::ExportArgs;
use method_export::rpc::RpcMode;
use method_export::text::{decimal_text, joined, text_eq};

const ALL_MODES: [RpcMode; 7] = [
    RpcMode::Disabled,
    RpcMode::Remote,
    RpcMode::RemoteSync,
    RpcMode::Master,
    RpcMode::Puppet,
    RpcMode::MasterSync,
    RpcMode::PuppetSync,
];

#[test]
fn parse_reads_each_mode_word() {
    assert_eq!(RpcMode::parse("remote"), Some(RpcMode::Remote));
    assert_eq!(RpcMode::parse("remote_sync"), Some(RpcMode::RemoteSync));
    assert_eq!(RpcMode::parse("master"), Some(RpcMode::Master));
    assert_eq!(RpcMode::parse("puppet"), Some(RpcMode::Puppet));
    assert_eq!(RpcMode::parse("disabled"), Some(RpcMode::Disabled));
    assert_eq!(RpcMode::parse("master_sync"), Some(RpcMode::MasterSync));
    assert_eq!(RpcMode::parse("puppet_sync"), Some(RpcMode::PuppetSync));
}

#[test]
fn parse_is_exact_and_case_sensitive() {
    assert_eq!(RpcMode::parse(""), None);
    assert_eq!(RpcMode::parse("Remote"), None);
    assert_eq!(RpcMode::parse("REMOTE"), None);
    assert_eq!(RpcMode::parse("remote "), None);
    assert_eq!(RpcMode::parse(" remote"), None);
    assert_eq!(RpcMode::parse("remotesync"), None);
    assert_eq!(RpcMode::parse("remote-sync"), None);
    assert_eq!(RpcMode::parse("RpcMode::Remote"), None);
    assert_eq!(RpcMode::parse("sync"), None);
    assert_eq!(RpcMode::parse("mäster"), None);
}

#[test]
fn keyword_round_trips_for_every_mode() {
    for mode in ALL_MODES {
        assert_eq!(RpcMode::parse(mode.keyword()), Some(mode));
    }
}

#[test]
fn keywords_are_the_seven_literal_words() {
    assert_eq!(RpcMode::Disabled.keyword(), "disabled");
    assert_eq!(RpcMode::Remote.keyword(), "remote");
    assert_eq!(RpcMode::RemoteSync.keyword(), "remote_sync");
    assert_eq!(RpcMode::Master.keyword(), "master");
    assert_eq!(RpcMode::Puppet.keyword(), "puppet");
    assert_eq!(RpcMode::MasterSync.keyword(), "master_sync");
    assert_eq!(RpcMode::PuppetSync.keyword(), "puppet_sync");
}

#[test]
fn variant_names_match_the_modes() {
    assert_eq!(RpcMode::Disabled.variant(), "Disabled");
    assert_eq!(RpcMode::Remote.variant(), "Remote");
    assert_eq!(RpcMode::RemoteSync.variant(), "RemoteSync");
    assert_eq!(RpcMode::Master.variant(), "Master");
    assert_eq!(RpcMode::Puppet.variant(), "Puppet");
    assert_eq!(RpcMode::MasterSync.variant(), "MasterSync");
    assert_eq!(RpcMode::PuppetSync.variant(), "PuppetSync");
}

#[test]
fn variant_names_do_not_cross() {
    for a in ALL_MODES {
        for b in ALL_MODES {
            assert_eq!(a.variant() == b.variant(), a == b);
            assert_eq!(a.keyword() == b.keyword(), a == b);
        }
    }
}

#[test]
fn default_mode_is_disabled() {
    assert_eq!(RpcMode::default(), RpcMode::Disabled);
}

#[test]
fn modes_are_ordered_as_declared() {
    for pair in ALL_MODES.windows(2) {
        assert!(pair[0] < pair[1]);
    }
}

#[test]
fn default_args_have_no_optional_count_and_disabled_mode() {
    let args = ExportArgs::default();
    assert_eq!(args.optional_arg_count, None);
    assert_eq!(args.rpc_mode, RpcMode::Disabled);
    assert_ne!(
        ExportArgs { optional_arg_count: Some(0), rpc_mode: RpcMode::Disabled },
        args
    );
}

#[test]
fn decimal_text_writes_numbers() {
    assert_eq!(decimal_text(0), "0");
    assert_eq!(decimal_text(7), "7");
    assert_eq!(decimal_text(9), "9");
    assert_eq!(decimal_text(10), "10");
    assert_eq!(decimal_text(11), "11");
    assert_eq!(decimal_text(100), "100");
    assert_eq!(decimal_text(1234567890), "1234567890");
    assert_eq!(decimal_text(usize::MAX), usize::MAX.to_string());
}

#[test]
fn decimal_text_agrees_with_std_on_a_range() {
    for n in 0..2000usize {
        assert_eq!(decimal_text(n), n.to_string());
    }
}

#[test]
fn text_eq_compares_characters() {
    assert!(text_eq("", ""));
    assert!(text_eq("rpc", "rpc"));
    assert!(!text_eq("rpc", "rpC"));
    assert!(!text_eq("rpc", "rp"));
    assert!(!text_eq("rp", "rpc"));
    assert!(!text_eq("", "a"));
    assert!(text_eq("mäster", "mäster"));
    assert!(!text_eq("mäster", "master"));
}

#[test]
fn joined_puts_head_before_tail() {
    assert_eq!(joined("unexpected value for rpc: ", "x"), "unexpected value for rpc: x");
    assert_eq!(joined("", ""), "");
    assert_eq!(joined("a", ""), "a");
    assert_eq!(joined("", "b"), "b");
}
