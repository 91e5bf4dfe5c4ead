use gnome_search_providers_jetbrains::launchservice::{
    handle_launched, strip_desktop_suffix, SystemdScopeSettings,
};
use gnome_search_providers_jetbrains::systemd::PropertyValue;

fn settings() -> SystemdScopeSettings {
    SystemdScopeSettings {
        prefix: "app-gnome-search-providers-jetbrains".to_string(),
        started_by: "gnome-search-providers-jetbrains".to_string(),
        documentation: vec!["https://github.com/swsnr/gnome-search-providers-jetbrains".to_string()],
    }
}

#[test]
fn desktop_suffix_is_stripped() {
    assert_eq!(strip_desktop_suffix("jetbrains-idea.desktop"), "jetbrains-idea");
    assert_eq!(strip_desktop_suffix("jetbrains-idea"), "jetbrains-idea");
    assert_eq!(strip_desktop_suffix("a.desktop.desktop"), "a");
    assert_eq!(strip_desktop_suffix(".desktop"), "");
    assert_eq!(strip_desktop_suffix(""), "");
    assert_eq!(strip_desktop_suffix("a.desktopp"), "a.desktopp");
    assert_eq!(strip_desktop_suffix("a.desktop.x"), "a.desktop.x");
    assert_eq!(strip_desktop_suffix("desktop"), "desktop");
    assert_eq!(strip_desktop_suffix("caf\u{e9}.desktop"), "caf\u{e9}");
}

#[test]
fn launch_without_pid_asks_for_no_scope() {
    assert!(handle_launched(&settings(), "jetbrains-idea.desktop", Some("IDEA"), None).is_none());
}

#[test]
fn launch_with_pid_asks_for_scope() {
    let request = handle_launched(
        &settings(),
        "jetbrains-idea.desktop",
        Some("Capable and Ergonomic IDE"),
        Some(4711),
    )
    .unwrap();
    assert_eq!(request.prefix, "app-gnome-search-providers-jetbrains");
    assert_eq!(request.name, "jetbrains-idea");
    assert_eq!(
        request.description,
        "Capable and Ergonomic IDE started by gnome-search-providers-jetbrains"
    );
    assert_eq!(
        request.documentation,
        ["https://github.com/swsnr/gnome-search-providers-jetbrains"]
    );
    assert_eq!(request.pid, 4711);
}

#[test]
fn scope_of_app_without_description() {
    let request = handle_launched(&settings(), "idea.desktop", None, Some(1)).unwrap();
    assert_eq!(
        request.description,
        "app started by gnome-search-providers-jetbrains"
    );
}

#[test]
fn pid_is_taken_without_sign() {
    let request = handle_launched(&settings(), "idea.desktop", None, Some(0)).unwrap();
    assert_eq!(request.pid, 0);
    let request = handle_launched(&settings(), "idea.desktop", None, Some(i32::MAX)).unwrap();
    assert_eq!(request.pid, 2147483647);
    let request = handle_launched(&settings(), "idea.desktop", None, Some(-1)).unwrap();
    assert_eq!(request.pid, u32::MAX);
    let request = handle_launched(&settings(), "idea.desktop", None, Some(i32::MIN)).unwrap();
    assert_eq!(request.pid, 2147483648);
}

#[test]
fn scope_request_gives_unit() {
    let request = handle_launched(
        &settings(),
        "org.example/My App.desktop",
        Some("Example"),
        Some(99),
    )
    .unwrap();
    let properties = request.properties();
    assert_eq!(properties.prefix, "app-gnome-search-providers-jetbrains");
    assert_eq!(properties.name, "org.example/My App");
    assert_eq!(
        properties.description,
        Some("Example started by gnome-search-providers-jetbrains")
    );
    assert_eq!(
        properties.documentation,
        ["https://github.com/swsnr/gnome-search-providers-jetbrains"]
    );
    let unit = request.unit();
    assert_eq!(
        unit.name,
        "app-gnome-search-providers-jetbrains-org.example-My\\x20App-99.scope"
    );
    assert_eq!(unit.mode, "fail");
    assert_eq!(unit.properties.len(), 4);
    assert!(matches!(&unit.properties[0].value, PropertyValue::U32Array(pids) if pids == &vec![99u32]));
}
