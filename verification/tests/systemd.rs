use gnome_search_providers_jetbrains::systemd::{
    escape_name, scope_name, scope_unit, PropertyValue, ScopeProperties,
};

#[test]
fn escape_keeps_plain_characters() {
    assert_eq!(escape_name("a:b_c.d"), "a:b_c.d");
    assert_eq!(escape_name("AZaz09_:"), "AZaz09_:");
}

#[test]
fn escape_replaces_slashes_by_dashes() {
    assert_eq!(escape_name("/foo/"), "-foo-");
}

#[test]
fn escape_leading_dot() {
    assert_eq!(escape_name(".foo"), "\\x2efoo");
    assert_eq!(escape_name("."), "\\x2e");
    assert_eq!(escape_name("f.oo."), "f.oo.");
}

#[test]
fn escape_non_ascii_bytes() {
    // U+00C3 is encoded as the bytes c3 83, U+00E9 as c3 a9.
    assert_eq!(escape_name("\u{c3}"), "\\xc3\\x83");
    assert_eq!(escape_name("caf\u{e9}"), "caf\\xc3\\xa9");
}

#[test]
fn escape_other_ascii_bytes() {
    assert_eq!(escape_name("a-b c"), "a\\x2db\\x20c");
    assert_eq!(escape_name("\u{0}\n~"), "\\x00\\x0a\\x7e");
}

#[test]
fn escape_empty_name() {
    assert_eq!(escape_name(""), "");
}

#[test]
fn scope_name_joins_prefix_name_and_pid() {
    assert_eq!(
        scope_name("app-gnome-search-providers-jetbrains", "jetbrains-idea", 4711),
        "app-gnome-search-providers-jetbrains-jetbrains\\x2didea-4711.scope"
    );
    assert_eq!(scope_name("p", "n", 0), "p-n-0.scope");
    assert_eq!(scope_name("p", "n", u32::MAX), "p-n-4294967295.scope");
    assert_eq!(scope_name("p", "n", 10), "p-n-10.scope");
}

#[test]
fn scope_unit_with_all_properties() {
    let properties = ScopeProperties {
        prefix: "app-test",
        name: "org.example/App",
        description: Some("Example started by test"),
        documentation: vec!["https://example.com/a", "https://example.com/b"],
    };
    let unit = scope_unit(&properties, 42);
    assert_eq!(unit.name, "app-test-org.example-App-42.scope");
    assert_eq!(unit.mode, "fail");
    assert_eq!(unit.properties.len(), 4);
    assert_eq!(unit.properties[0].name, "PIDs");
    assert!(matches!(&unit.properties[0].value, PropertyValue::U32Array(pids) if pids == &vec![42u32]));
    assert_eq!(unit.properties[1].name, "CollectMode");
    assert!(matches!(&unit.properties[1].value, PropertyValue::Str(mode) if mode == "inactive-or-failed"));
    assert_eq!(unit.properties[2].name, "Description");
    assert!(matches!(&unit.properties[2].value, PropertyValue::Str(text) if text == "Example started by test"));
    assert_eq!(unit.properties[3].name, "Documentation");
    assert!(matches!(
        &unit.properties[3].value,
        PropertyValue::StrArray(urls) if urls == &vec!["https://example.com/a".to_string(), "https://example.com/b".to_string()]
    ));
}

#[test]
fn scope_unit_without_optional_properties() {
    let properties = ScopeProperties {
        prefix: "app-test",
        name: "app",
        description: None,
        documentation: Vec::new(),
    };
    let unit = scope_unit(&properties, 7);
    assert_eq!(unit.name, "app-test-app-7.scope");
    assert_eq!(unit.mode, "fail");
    assert_eq!(unit.properties.len(), 2);
    assert_eq!(unit.properties[0].name, "PIDs");
    assert_eq!(unit.properties[1].name, "CollectMode");
}
