use elementtree::Element;
use gnome_search_providers_jetbrains::config::ConfigLocation;
use gnome_search_providers_jetbrains::launchservice::{App, AppId};
use gnome_search_providers_jetbrains::provider::SearchError;
use gnome_search_providers_jetbrains::searchprovider::{
    get_project_name, parse_recent_jetbrains_projects, FoundProject,
    JetbrainsProductSearchProvider, XmlAttribute, XmlElement,
};

const RECENT_PROJECTS: &str = r#"<application>
  <component name="Other">
    <option name="additionalInfo">
      <map>
        <entry key="$USER_HOME$/Code/wrong/component" />
      </map>
    </option>
  </component>
  <component name="RecentProjectsManager">
    <option name="lastOpenedProject" value="$USER_HOME$/Code/gh/mdcat" />
    <option name="additionalInfo">
      <map>
        <entry key="$USER_HOME$/Code/gh/mdcat">
          <value>
            <RecentProjectMetaInfo frameTitle="mdcat" projectWorkspaceId="1i2e3">
              <option name="build" value="IC-211.6693.111" />
              <entry key="$USER_HOME$/Code/wrong/depth" />
            </RecentProjectMetaInfo>
          </value>
        </entry>
        <noentry key="$USER_HOME$/Code/wrong/tag" />
        <entry nokey="$USER_HOME$/Code/wrong/attribute" />
        <entry key="$USER_HOME$/Code/gh/gnome-search-providers-jetbrains">
          <value>
            <RecentProjectMetaInfo frameTitle="gnome-search-providers-jetbrains" />
          </value>
        </entry>
      </map>
      <map>
        <entry key="$USER_HOME$/Code/wrong/map" />
      </map>
    </option>
    <option name="additionalInfo">
      <map>
        <entry key="$USER_HOME$/Code/wrong/option" />
      </map>
    </option>
  </component>
</application>"#;

const RECENT_SOLUTIONS: &str = r#"<application>
  <component name="RiderRecentProjectsManager">
    <option name="additionalInfo">
      <map>
        <entry key="$USER_HOME$/Code/gh/mdcat">
          <value>
            <RecentProjectMetaInfo frameTitle="mdcat" />
          </value>
        </entry>
        <entry key="$USER_HOME$/Code/gh/gnome-search-providers-jetbrains">
          <value>
            <RecentProjectMetaInfo frameTitle="gnome-search-providers-jetbrains" />
          </value>
        </entry>
      </map>
    </option>
  </component>
</application>"#;

fn qualified(ns: Option<&str>, name: &str) -> String {
    match ns {
        Some(ns) => format!("{{{ns}}}{name}"),
        None => name.to_string(),
    }
}

fn convert(element: &Element) -> XmlElement {
    XmlElement {
        tag: qualified(element.tag().ns(), element.tag().name()),
        attributes: element
            .attrs()
            .map(|(name, value)| XmlAttribute {
                name: qualified(name.ns(), name.name()),
                value: value.to_string(),
            })
            .collect(),
        children: element.children().map(convert).collect(),
    }
}

fn document(text: &str) -> XmlElement {
    convert(&Element::from_reader(text.as_bytes()).unwrap())
}

#[test]
fn read_recent_projects() {
    let home = "/home/foo";
    let recent_projects = parse_recent_jetbrains_projects(home, &document(RECENT_PROJECTS));

    assert_eq!(
        recent_projects,
        vec![
            "/home/foo/Code/gh/mdcat".to_string(),
            "/home/foo/Code/gh/gnome-search-providers-jetbrains".to_string()
        ]
    )
}

#[test]
fn read_recent_solutions() {
    let home = "/home/foo";
    let recent_projects = parse_recent_jetbrains_projects(home, &document(RECENT_SOLUTIONS));

    assert_eq!(
        recent_projects,
        vec![
            "/home/foo/Code/gh/mdcat".to_string(),
            "/home/foo/Code/gh/gnome-search-providers-jetbrains".to_string()
        ]
    )
}

#[test]
fn document_without_recent_projects() {
    for text in [
        "<application />",
        r#"<application><component name="RecentProjectsManager" /></application>"#,
        r#"<application><component name="RecentProjectsManager"><option name="additionalInfo" /></component></application>"#,
        r#"<application><component name="RecentProjectsManager"><option name="additionalInfo"><map /></option></component></application>"#,
        r#"<application><component><option name="additionalInfo"><map><entry key="a" /></map></option></component></application>"#,
        r#"<application><part name="RecentProjectsManager"><option name="additionalInfo"><map><entry key="a" /></map></option></part></application>"#,
    ] {
        assert!(parse_recent_jetbrains_projects("/home/foo", &document(text)).is_empty());
    }
}

#[test]
fn first_manager_decides() {
    let text = r#"<application>
        <component name="RiderRecentProjectsManager" />
        <component name="RecentProjectsManager"><option name="additionalInfo"><map><entry key="a" /></map></option></component>
    </application>"#;
    assert!(parse_recent_jetbrains_projects("/home/foo", &document(text)).is_empty());
}

#[test]
fn home_is_put_in_place_everywhere() {
    let text = r#"<application><component name="RecentProjectsManager"><option name="additionalInfo"><map>
        <entry key="$USER_HOME$/a/$USER_HOME$/b$USER_HOME$" />
        <entry key="/opt/$USER_HOME/c" />
        <entry key="" />
    </map></option></component></application>"#;
    assert_eq!(
        parse_recent_jetbrains_projects("/h", &document(text)),
        ["/h/a//h/b/h", "/opt/$USER_HOME/c", ""]
    );
}

#[test]
fn attributes_and_children_are_found() {
    let root = document(r#"<a x="1" y="2"><b /><c n="1" /><c n="2" /></a>"#);
    assert_eq!(root.get_attr("x"), Some("1"));
    assert_eq!(root.get_attr("y"), Some("2"));
    assert_eq!(root.get_attr("z"), None);
    assert!(root.has_tag("a"));
    assert!(!root.has_tag("b"));
    assert_eq!(root.find("c").unwrap().get_attr("n"), Some("1"));
    assert!(root.find("d").is_none());
}

#[test]
fn project_name_from_file_or_path() {
    assert_eq!(
        get_project_name(Some("  mdcat \n"), Some("dir")),
        Some("mdcat".to_string())
    );
    assert_eq!(get_project_name(Some(""), Some("dir")), Some("".to_string()));
    assert_eq!(get_project_name(None, Some("dir")), Some("dir".to_string()));
    assert_eq!(get_project_name(None, None), None);
}

const CONFIG: ConfigLocation<'static> = ConfigLocation {
    vendor_dir: "JetBrains",
    config_prefix: "IdeaIC",
    projects_filename: "recentProjects.xml",
};

fn provider() -> JetbrainsProductSearchProvider {
    JetbrainsProductSearchProvider::new(
        App::new(AppId::new("idea.desktop".to_string()), "idea".to_string()),
        &CONFIG,
    )
}

fn found(path: &str, name: Option<&str>) -> FoundProject {
    FoundProject {
        path: path.to_string(),
        name: name.map(|name| name.to_string()),
    }
}

#[test]
fn new_provider_holds_no_projects() {
    let provider = provider();
    assert_eq!(provider.app().id().as_str(), "idea.desktop");
    assert_eq!(provider.config().config_prefix, "IdeaIC");
    assert!(provider.get_initial_result_set(&["a"]).is_empty());
    assert!(provider.get_result_metas(&["a".to_string()]).is_empty());
}

#[test]
fn reloaded_projects_are_searched() {
    let mut provider = provider();
    provider.reload_recent_projects(vec![
        found("/home/foo/dev/bar", Some("bar")),
        found("/home/foo/dev/nameless", None),
        found("/home/foo/dev/foo", Some("foo")),
    ]);
    let bar = "jetbrains-recent-project-idea.desktop-/home/foo/dev/bar";
    let foo = "jetbrains-recent-project-idea.desktop-/home/foo/dev/foo";
    assert_eq!(provider.get_initial_result_set(&["foo"]), [foo, bar]);
    assert_eq!(provider.get_initial_result_set(&["nameless"]), Vec::<String>::new());
    assert_eq!(provider.get_subsearch_result_set(&[bar], &["foo"]), [bar]);
    let metas = provider.get_result_metas(&[foo.to_string()]);
    assert_eq!(metas.len(), 1);
    assert_eq!(metas[0][0], ("id".to_string(), foo.to_string()));
    assert_eq!(metas[0][1], ("name".to_string(), "foo".to_string()));
    assert_eq!(metas[0][2], ("gicon".to_string(), "idea".to_string()));
    assert_eq!(
        metas[0][3],
        ("description".to_string(), "/home/foo/dev/foo".to_string())
    );
    let request = provider.activate_result(foo).unwrap();
    assert_eq!(request.app.as_str(), "idea.desktop");
    assert_eq!(request.uri.as_deref(), Some("/home/foo/dev/foo"));
    assert_eq!(
        provider.activate_result("/home/foo/dev/foo").unwrap_err(),
        SearchError::NotFound("/home/foo/dev/foo".to_string())
    );
    assert_eq!(provider.launch_search().uri, None);
    provider.reload_recent_projects(vec![found("/home/foo/dev/baz", Some("baz"))]);
    assert!(provider.get_initial_result_set(&["foo"]).len() == 1);
    assert!(provider.activate_result(foo).is_err());
}

#[test]
fn project_listed_twice_keeps_its_place() {
    let mut provider = provider();
    provider.reload_recent_projects(vec![
        found("/x/same", Some("first")),
        found("/x/other", Some("first")),
        found("/x/same", Some("second")),
    ]);
    let same = "jetbrains-recent-project-idea.desktop-/x/same";
    let metas = provider.get_result_metas(&[same.to_string()]);
    assert_eq!(metas.len(), 1);
    assert_eq!(metas[0][1], ("name".to_string(), "second".to_string()));
    assert_eq!(
        provider.get_initial_result_set(&["x"]),
        [same, "jetbrains-recent-project-idea.desktop-/x/other"]
    );
}
