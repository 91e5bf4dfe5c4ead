use std::collections::HashSet;

use gnome_search_providers_jetbrains::providers::providers;

#[test]
fn desktop_ids_are_unique() {
    let mut ids = HashSet::new();
    for provider in providers() {
        ids.insert(provider.desktop_id);
    }
    assert_eq!(providers().len(), ids.len());
}

#[test]
fn dbus_paths_are_unique() {
    let mut paths = HashSet::new();
    for provider in providers() {
        paths.insert(provider.objpath());
    }
    assert_eq!(providers().len(), paths.len());
}

#[test]
fn object_path_stands_below_the_service() {
    let all = providers();
    assert_eq!(all.len(), 11);
    assert_eq!(all[0].label, "CLion (toolbox)");
    assert_eq!(all[0].objpath(), "/de/swsnr/searchprovider/jetbrains/toolbox/clion");
    assert_eq!(all[6].desktop_id, "jetbrains-rider.desktop");
    assert_eq!(all[6].config.projects_filename, "recentSolutions.xml");
    assert_eq!(all[9].config.vendor_dir, "Google");
    assert_eq!(all[9].config.config_prefix, "AndroidStudio");
    assert_eq!(all[10].objpath(), "/de/swsnr/searchprovider/jetbrains/toolbox/webstorm");
}
