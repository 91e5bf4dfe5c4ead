use gnome_search_providers_jetbrains::item::AppLaunchItem;
use gnome_search_providers_jetbrains::launchservice::{App, AppId, AppLaunchRequest};
use gnome_search_providers_jetbrains::provider::{AppItemSearchProvider, SearchError};
use indexmap::IndexMap;

fn provider() -> AppItemSearchProvider {
    AppItemSearchProvider::new(App::new(
        AppId::new("jetbrains-idea.desktop".to_string()),
        "idea-icon".to_string(),
    ))
}

fn items(entries: &[(&str, &str, &str)]) -> IndexMap<String, AppLaunchItem> {
    let mut items = IndexMap::new();
    for (id, name, uri) in entries {
        items.insert(
            id.to_string(),
            AppLaunchItem {
                name: name.to_string(),
                uri: uri.to_string(),
            },
        );
    }
    items
}

fn sample() -> IndexMap<String, AppLaunchItem> {
    items(&[
        ("1", "bar", "/home/foo/dev/bar"),
        ("2", "foo", "/home/foo/dev/foo"),
        ("3", "baz", "/home/baz"),
        ("4", "p", "/srv/foo"),
    ])
}

#[test]
fn initial_search_finds_the_one_item() {
    let items = items(&[("a", "mdcat", "/home/u/dev/mdcat")]);
    assert_eq!(provider().get_initial_result_set(&items, &["mdcat"]), ["a"]);
}

#[test]
fn initial_search_ranks_match_at_end_of_target_higher() {
    let items = items(&[
        ("1", "p1", "/home/foo/dev/bar"),
        ("2", "p1", "/home/foo/dev/foo"),
    ]);
    assert_eq!(provider().get_initial_result_set(&items, &["foo"]), ["2", "1"]);
}

#[test]
fn initial_search_leaves_out_items_without_the_term() {
    // "foo" stands neither in the name nor in the target of the first item.
    let items = items(&[
        ("1", "p1", "/home/u/dev/bar"),
        ("2", "p1", "/home/u/dev/foo"),
    ]);
    assert_eq!(provider().get_initial_result_set(&items, &["foo"]), ["2"]);
}

#[test]
fn initial_search_on_empty_collection() {
    let items = IndexMap::new();
    assert!(provider().get_initial_result_set(&items, &["foo"]).is_empty());
}

#[test]
fn initial_search_ranks_all_items() {
    assert_eq!(
        provider().get_initial_result_set(&sample(), &["foo"]),
        ["2", "4", "1"]
    );
}

#[test]
fn subsearch_looks_at_previous_results_only() {
    let items = sample();
    assert_eq!(
        provider().get_subsearch_result_set(&items, &["1", "4"], &["foo"]),
        ["4", "1"]
    );
    assert_eq!(
        provider().get_subsearch_result_set(&items, &["1", "2", "4"], &["dev"]),
        ["1", "2"]
    );
    assert!(provider()
        .get_subsearch_result_set(&items, &[], &["foo"])
        .is_empty());
}

#[test]
fn subsearch_passes_over_unknown_ids() {
    let items = sample();
    assert_eq!(
        provider().get_subsearch_result_set(&items, &["9", "2", "gone"], &["foo"]),
        ["2"]
    );
}

#[test]
fn refining_a_search_returns_part_of_it() {
    let items = sample();
    for terms in [&["foo"][..], &["dev"], &["ba"], &["home", "foo"], &["nothing"]] {
        let searched = provider().get_initial_result_set(&items, terms);
        let previous: Vec<&str> = searched.iter().map(|id| id.as_str()).collect();
        let refined = provider().get_subsearch_result_set(&items, &previous, terms);
        assert!(refined.iter().all(|id| searched.contains(id)));
        assert_eq!(refined, searched);
    }
}

#[test]
fn result_metas_describe_known_results() {
    let items = sample();
    let metas = provider().get_result_metas(
        &items,
        &["2".to_string(), "unknown".to_string(), "1".to_string()],
    );
    let pair = |key: &str, value: &str| (key.to_string(), value.to_string());
    assert_eq!(
        metas,
        vec![
            vec![
                pair("id", "2"),
                pair("name", "foo"),
                pair("gicon", "idea-icon"),
                pair("description", "/home/foo/dev/foo"),
            ],
            vec![
                pair("id", "1"),
                pair("name", "bar"),
                pair("gicon", "idea-icon"),
                pair("description", "/home/foo/dev/bar"),
            ],
        ]
    );
    assert!(provider().get_result_metas(&items, &[]).is_empty());
}

#[test]
fn activate_launches_app_with_uri_of_item() {
    let items = sample();
    let request: AppLaunchRequest = provider().activate_result(&items, "4").unwrap();
    assert_eq!(request.app.as_str(), "jetbrains-idea.desktop");
    assert_eq!(request.uri.as_deref(), Some("/srv/foo"));
}

#[test]
fn activate_unknown_result_is_not_found() {
    let items = sample();
    let error = provider().activate_result(&items, "5").unwrap_err();
    assert_eq!(error, SearchError::NotFound("5".to_string()));
    assert_eq!(error.message(), "Result 5 not found");
    let error = provider().activate_result(&IndexMap::new(), "1").unwrap_err();
    assert_eq!(error, SearchError::NotFound("1".to_string()));
    let error = provider().activate_result(&items, "").unwrap_err();
    assert_eq!(error.message(), "Result  not found");
}

#[test]
fn launch_search_launches_app_without_uri() {
    let request = provider().launch_search();
    assert_eq!(request.app.as_str(), "jetbrains-idea.desktop");
    assert_eq!(request.uri, None);
}

#[test]
fn failures_have_messages() {
    let with_uri = provider().activate_result(&sample(), "4").unwrap();
    let error = AppItemSearchProvider::launch_failure(&with_uri, "no such app");
    assert_eq!(
        error,
        SearchError::LaunchFailed(
            "jetbrains-idea.desktop".to_string(),
            Some("/srv/foo".to_string()),
            "no such app".to_string()
        )
    );
    assert_eq!(
        error.message(),
        "Failed to launch app jetbrains-idea.desktop for /srv/foo: no such app"
    );
    let bare = provider().launch_search();
    assert_eq!(
        AppItemSearchProvider::launch_failure(&bare, "no such app").message(),
        "Failed to launch app jetbrains-idea.desktop: no such app"
    );
    assert_eq!(
        SearchError::ItemsUnavailable("disk on fire".to_string()).message(),
        "Failed to get app items: disk on fire"
    );
    assert_eq!(
        SearchError::InvalidationNotSent.message(),
        "Failed to invalidate search items"
    );
    assert_eq!(
        SearchError::RequestNotSent.message(),
        "Failed to send request for search items"
    );
    assert_eq!(
        SearchError::RequestDropped.message(),
        "Failed to request app items, app provider dropped"
    );
}

#[test]
fn app_holds_id_and_icon() {
    let provider = provider();
    assert_eq!(provider.app().id().as_str(), "jetbrains-idea.desktop");
    assert_eq!(provider.app().icon(), "idea-icon");
    assert_eq!(provider.app().id().duplicate(), *provider.app().id());
}
