//! The search provider service for recent projects in Jetbrains products.

use crate::config::ConfigLocation;
use crate::item::AppLaunchItem;
use crate::launchservice::{App, AppLaunchRequest};
use crate::provider::{
    are_ranked_ids, candidates, entry_with, metas_of, metas_view, AppItemSearchProvider, ResultMeta,
    SearchError, SearchErrorView,
};
use crate::source::{entries, holds_at, insert_item, lacks, new_id_map, Entry, IdMap};
use crate::text::{optional_str_view, str_eq, str_views, string_views};
use vstd::prelude::*;

verus! {

/// An attribute of an element of a document.
#[derive(Debug)]
pub struct XmlAttribute {
    /// The name of the attribute, behind its namespace in braces where it has one.
    pub name: String,
    /// The value of the attribute.
    pub value: String,
}

/// An element of a document.
#[derive(Debug)]
pub struct XmlElement {
    /// The name of the element, behind its namespace in braces where it has one.
    pub tag: String,
    /// The attributes of the element.
    pub attributes: Vec<XmlAttribute>,
    /// The elements directly below the element, in the order of the document.
    pub children: Vec<XmlElement>,
}

/// The index of the first of the given flags that is set, if one is.
pub open spec fn first_set(flags: Seq<bool>) -> Option<int>
    decreases flags.len(),
{
    if flags.len() == 0 {
        None
    } else if flags.last() {
        match first_set(flags.drop_last()) {
            Some(index) => Some(index),
            None => Some(flags.len() - 1),
        }
    } else {
        first_set(flags.drop_last())
    }
}

/// The first flag that is set is set, and none before it is.
pub proof fn first_set_is_first(flags: Seq<bool>)
    ensures
        match first_set(flags) {
            Some(index) => 0 <= index < flags.len() && flags[index] && forall|before: int|
                0 <= before < index ==> !flags[before],
            None => forall|at: int| 0 <= at < flags.len() ==> !flags[at],
        },
    decreases flags.len(),
{
    if flags.len() > 0 {
        first_set_is_first(flags.drop_last());
        assert(forall|at: int| 0 <= at < flags.len() - 1 ==> flags.drop_last()[at] == flags[at]);
    }
}

proof fn first_set_at(flags: Seq<bool>, index: int)
    requires
        0 <= index < flags.len(),
        flags[index],
        forall|before: int| 0 <= before < index ==> !flags[before],
    ensures
        first_set(flags) == Some(index),
{
    first_set_is_first(flags);
}

proof fn first_set_nowhere(flags: Seq<bool>)
    requires
        forall|at: int| 0 <= at < flags.len() ==> !flags[at],
    ensures
        first_set(flags) is None,
{
    first_set_is_first(flags);
}

impl XmlElement {
    /// The value of the attribute with the given name, if the element has one.
    pub open spec fn attribute(&self, name: Seq<char>) -> Option<Seq<char>> {
        match first_set(self.attributes@.map_values(|a: XmlAttribute| a.name@ == name)) {
            Some(index) => Some(self.attributes@[index].value@),
            None => None,
        }
    }

    /// Whether the element has the given tag, and the given value for the attribute `name`.
    pub open spec fn is_named(&self, tag: Seq<char>, name: Seq<char>) -> bool {
        self.tag@ == tag && self.attribute("name"@) == Some(name)
    }

    /// Get the value of the attribute with the given name.
    pub fn get_attr(&self, name: &str) -> (value: Option<&str>)
        ensures
            match value {
                Some(text) => self.attribute(name@) == Some(text@),
                None => self.attribute(name@) is None,
            },
    {
        let ghost flags = self.attributes@.map_values(|a: XmlAttribute| a.name@ == name@);
        let mut index: usize = 0;
        while index < self.attributes.len()
            invariant
                index <= self.attributes.len(),
                flags == self.attributes@.map_values(|a: XmlAttribute| a.name@ == name@),
                forall|before: int| 0 <= before < index ==> !flags[before],
            decreases self.attributes.len() - index,
        {
            if str_eq(self.attributes[index].name.as_str(), name) {
                proof {
                    first_set_at(flags, index as int);
                }
                return Some(self.attributes[index].value.as_str());
            }
            index += 1;
        }
        proof {
            first_set_nowhere(flags);
        }
        None
    }

    /// Whether the element has the given tag.
    pub fn has_tag(&self, tag: &str) -> (answer: bool)
        ensures
            answer == (self.tag@ == tag@),
    {
        str_eq(self.tag.as_str(), tag)
    }

    /// Find the first element directly below this one that has the given tag.
    pub fn find(&self, tag: &str) -> (found: Option<&XmlElement>)
        ensures
            match first_set(self.children@.map_values(|child: XmlElement| child.tag@ == tag@)) {
                Some(index) => found == Some(&self.children@[index]),
                None => found is None,
            },
    {
        let ghost flags = self.children@.map_values(|child: XmlElement| child.tag@ == tag@);
        let mut index: usize = 0;
        while index < self.children.len()
            invariant
                index <= self.children.len(),
                flags == self.children@.map_values(|child: XmlElement| child.tag@ == tag@),
                forall|before: int| 0 <= before < index ==> !flags[before],
            decreases self.children.len() - index,
        {
            if self.children[index].has_tag(tag) {
                proof {
                    first_set_at(flags, index as int);
                }
                return Some(&self.children[index]);
            }
            index += 1;
        }
        proof {
            first_set_nowhere(flags);
        }
        None
    }
}

/// The text that a path in the list of recent projects holds in place of the home
/// directory of the user.
pub open spec fn home_placeholder() -> Seq<char> {
    "$USER_HOME$"@
}

/// `text` with every occurrence of `from` replaced by `to`, the occurrences taken
/// from left to right, each behind the end of the one before.
pub open spec fn replaced(text: Seq<char>, from: Seq<char>, to: Seq<char>) -> Seq<char>
    decreases text.len(),
{
    if from.len() == 0 || text.len() < from.len() {
        text
    } else if text.subrange(0, from.len() as int) == from {
        to + replaced(text.subrange(from.len() as int, text.len() as int), from, to)
    } else {
        seq![text[0]] + replaced(text.drop_first(), from, to)
    }
}

/// `str::replace`: all matches of the pattern `from`, which are found from left to
/// right and do not overlap, are replaced by `to`.
#[verifier::external_body]
fn replace(text: &str, from: &str, to: &str) -> (result: String)
    requires
        from@.len() > 0,
    ensures
        result@ == replaced(text@, from@, to@),
{
    text.replace(from, to)
}

/// `text` without the white space at its start and at its end, as `str::trim` takes
/// it off by the Unicode property `White_Space`.
pub uninterp spec fn trimmed(text: Seq<char>) -> Seq<char>;

/// `str::trim`: the result is `text` without leading and trailing white space, and
/// depends on nothing but `text`.
#[verifier::external_body]
fn trim(text: &str) -> (result: &str)
    ensures
        result@ == trimmed(text@),
{
    text.trim()
}

/// The elements that list recent projects: the entries of the map of additional
/// information that the manager of recent projects holds.
///
/// The manager is the first component below the root that is named
/// `RecentProjectsManager` or, in Rider, `RiderRecentProjectsManager`.  Its
/// additional information is its first option of that name, and the map the first
/// map below that option.
pub open spec fn manager_index(root: &XmlElement) -> Option<int> {
    first_set(
        root.children@.map_values(
            |child: XmlElement|
                child.is_named("component"@, "RecentProjectsManager"@) || child.is_named(
                    "component"@,
                    "RiderRecentProjectsManager"@,
                ),
        ),
    )
}

/// The index of the option that holds the additional information of the manager.
pub open spec fn info_index(manager: &XmlElement) -> Option<int> {
    first_set(
        manager.children@.map_values(
            |child: XmlElement| child.is_named("option"@, "additionalInfo"@),
        ),
    )
}

/// The index of the first map below the given option.
pub open spec fn map_index(option: &XmlElement) -> Option<int> {
    first_set(option.children@.map_values(|child: XmlElement| child.tag@ == "map"@))
}

/// The map that lists the recent projects, if the document has one.
pub open spec fn projects_map(root: &XmlElement) -> Option<&XmlElement> {
    match manager_index(root) {
        Some(manager) => match info_index(&root.children@[manager]) {
            Some(info) => match map_index(&root.children@[manager].children@[info]) {
                Some(map) => Some(&root.children@[manager].children@[info].children@[map]),
                None => None,
            },
            None => None,
        },
        None => None,
    }
}

/// The paths that the given elements list: for each element that is an entry with
/// a key, the key with the home directory in place of its placeholder.
pub open spec fn listed_paths(elements: Seq<XmlElement>, home: Seq<char>) -> Seq<Seq<char>>
    decreases elements.len(),
{
    if elements.len() == 0 {
        Seq::empty()
    } else {
        let earlier = listed_paths(elements.drop_last(), home);
        let last = elements.last();
        if last.tag@ == "entry"@ {
            match last.attribute("key"@) {
                Some(key) => earlier.push(replaced(key, home_placeholder(), home)),
                None => earlier,
            }
        } else {
            earlier
        }
    }
}

/// The paths of the recent projects that a document lists.
pub open spec fn recent_paths(root: &XmlElement, home: Seq<char>) -> Seq<Seq<char>> {
    match projects_map(root) {
        Some(map) => listed_paths(map.children@, home),
        None => Seq::empty(),
    }
}

fn find_named<'a>(parent: &'a XmlElement, tag: &str, first: &str, second: &str) -> (found: Option<
    &'a XmlElement,
>)
    ensures
        match first_set(
            parent.children@.map_values(
                |child: XmlElement|
                    child.is_named(tag@, first@) || child.is_named(tag@, second@),
            ),
        ) {
            Some(index) => found == Some(&parent.children@[index]),
            None => found is None,
        },
{
    let ghost flags = parent.children@.map_values(
        |child: XmlElement| child.is_named(tag@, first@) || child.is_named(tag@, second@),
    );
    let mut index: usize = 0;
    while index < parent.children.len()
        invariant
            index <= parent.children.len(),
            flags == parent.children@.map_values(
                |child: XmlElement| child.is_named(tag@, first@) || child.is_named(tag@, second@),
            ),
            forall|before: int| 0 <= before < index ==> !flags[before],
        decreases parent.children.len() - index,
    {
        let child = &parent.children[index];
        let named = if child.has_tag(tag) {
            match child.get_attr("name") {
                Some(name) => str_eq(name, first) || str_eq(name, second),
                None => false,
            }
        } else {
            false
        };
        if named {
            proof {
                first_set_at(flags, index as int);
            }
            return Some(child);
        }
        index += 1;
    }
    proof {
        first_set_nowhere(flags);
    }
    None
}

/// Read paths of all recent projects from the given document.
///
/// `home` is the home directory of the user, which takes the place of
/// `$USER_HOME$` in the paths.
pub fn parse_recent_jetbrains_projects(home: &str, root: &XmlElement) -> (projects: Vec<String>)
    ensures
        string_views(projects@) == recent_paths(root, home@),
{
    let manager = find_named(
        root,
        "component",
        "RecentProjectsManager",
        "RiderRecentProjectsManager",
    );
    let info = match manager {
        Some(component) => find_named(component, "option", "additionalInfo", "additionalInfo"),
        None => None,
    };
    let map = match info {
        Some(option) => option.find("map"),
        None => None,
    };
    proof {
        first_set_is_first(
            root.children@.map_values(
                |child: XmlElement|
                    child.is_named("component"@, "RecentProjectsManager"@) || child.is_named(
                        "component"@,
                        "RiderRecentProjectsManager"@,
                    ),
            ),
        );
        match manager_index(root) {
            Some(at) => {
                let component = &root.children@[at];
                assert(component.children@.map_values(
                    |child: XmlElement|
                        child.is_named("option"@, "additionalInfo"@) || child.is_named(
                            "option"@,
                            "additionalInfo"@,
                        ),
                ) =~= component.children@.map_values(
                    |child: XmlElement| child.is_named("option"@, "additionalInfo"@),
                ));
            },
            None => {},
        }
        reveal_strlit("$USER_HOME$");
    }
    let mut projects: Vec<String> = Vec::new();
    match map {
        None => {
            assert(string_views(projects@) =~= recent_paths(root, home@));
        },
        Some(entries_map) => {
            let mut index: usize = 0;
            while index < entries_map.children.len()
                invariant
                    index <= entries_map.children.len(),
                    home_placeholder().len() > 0,
                    string_views(projects@) == listed_paths(
                        entries_map.children@.take(index as int),
                        home@,
                    ),
                decreases entries_map.children.len() - index,
            {
                let entry = &entries_map.children[index];
                proof {
                    let next = entries_map.children@.take(index + 1);
                    assert(next.drop_last() =~= entries_map.children@.take(index as int));
                    assert(next.last() == *entry);
                }
                if entry.has_tag("entry") {
                    match entry.get_attr("key") {
                        Some(key) => {
                            let ghost before = projects@;
                            projects.push(replace(key, "$USER_HOME$", home));
                            assert(string_views(projects@) =~= string_views(before).push(
                                replaced(key@, home_placeholder(), home@),
                            ));
                        },
                        None => {},
                    }
                }
                index += 1;
            }
            assert(entries_map.children@.take(index as int) =~= entries_map.children@);
        },
    }
    projects
}

/// The name of a project: what its name file holds, without the white space around
/// it, or else the last component of its path.
pub open spec fn project_name(name_file: Option<Seq<char>>, file_name: Option<Seq<char>>) -> Option<
    Seq<char>,
> {
    match name_file {
        Some(contents) => Some(trimmed(contents)),
        None => file_name,
    }
}

/// Get the name of the Jetbrains project at a path.
///
/// `name_file` holds the contents of the `.name` file in the `.idea` sub-directory
/// of the project, if the file could be read, and `file_name` the last component of
/// the path, if it has one.  Return `None` if the name cannot be determined.
pub fn get_project_name(name_file: Option<&str>, file_name: Option<&str>) -> (name: Option<String>)
    ensures
        match name {
            Some(text) => project_name(
                optional_str_view(name_file),
                optional_str_view(file_name),
            ) == Some(text@),
            None => project_name(
                optional_str_view(name_file),
                optional_str_view(file_name),
            ) is None,
        },
{
    match name_file {
        Some(contents) => Some(trim(contents).to_owned()),
        None => match file_name {
            Some(last) => Some(last.to_owned()),
            None => None,
        },
    }
}

/// A recent project as it was found: its path and, if it could be determined, its name.
#[derive(Debug)]
pub struct FoundProject {
    /// The path of the project directory.
    pub path: String,
    /// The name of the project.
    pub name: Option<String>,
}

/// The ID of the result for the project at `path` of the app `app_id`.
///
/// The ID holds the path as it is, so that it changes with the path.
pub open spec fn project_id(app_id: Seq<char>, path: Seq<char>) -> Seq<char> {
    "jetbrains-recent-project-"@ + app_id + seq!['-'] + path
}

/// The entries after the given entry was put into a collection: in the place of
/// the entry with the same ID if there is one, and at the end otherwise.
pub open spec fn with_entry(all: Seq<Entry>, entry: Entry) -> Seq<Entry> {
    if lacks(all, entry.0) {
        all.push(entry)
    } else {
        all.update(choose|index: int| 0 <= index < all.len() && all[index].0 == entry.0, entry)
    }
}

/// The collection of the given projects of an app: one entry for each project with
/// a name, in the order of the projects.
pub open spec fn collected(app_id: Seq<char>, projects: Seq<FoundProject>) -> Seq<Entry>
    decreases projects.len(),
{
    if projects.len() == 0 {
        Seq::empty()
    } else {
        let earlier = collected(app_id, projects.drop_last());
        match projects.last().name {
            Some(name) => with_entry(
                earlier,
                (project_id(app_id, projects.last().path@), name@, projects.last().path@),
            ),
            None => earlier,
        }
    }
}

/// Collect the recent projects of an app.
///
/// Projects without a name are skipped.
pub fn read_recent_projects(app_id: &str, projects: Vec<FoundProject>) -> (items: IdMap)
    ensures
        entries(items) == collected(app_id@, projects@),
{
    let mut items = new_id_map();
    let mut index: usize = 0;
    while index < projects.len()
        invariant
            index <= projects.len(),
            entries(items) == collected(app_id@, projects@.take(index as int)),
        decreases projects.len() - index,
    {
        let project = &projects[index];
        proof {
            let next = projects@.take(index + 1);
            assert(next.drop_last() =~= projects@.take(index as int));
            assert(next.last() == *project);
        }
        match &project.name {
            Some(name) => {
                let mut id = "jetbrains-recent-project-".to_owned();
                id.append(app_id);
                id.append("-");
                id.append(project.path.as_str());
                proof {
                    reveal_strlit("-");
                    assert("-"@ =~= seq!['-']);
                    assert(id@ =~= project_id(app_id@, project.path@));
                }
                let ghost before = entries(items);
                let ghost id_view = id@;
                let replaced = insert_item(
                    &mut items,
                    id,
                    AppLaunchItem { name: name.clone(), uri: project.path.clone() },
                );
                proof {
                    match replaced {
                        Some(_) => {
                            let at = choose|at: int|
                                holds_at(before, id_view, at) && entries(items) == before.update(
                                    at,
                                    (id_view, name@, project.path@),
                                );
                            let chosen = choose|index: int|
                                0 <= index < before.len() && before[index].0 == id_view;
                            assert(before[at].0 == id_view);
                            assert(chosen == at);
                        },
                        None => {},
                    }
                }
            },
            None => {},
        }
        index += 1;
    }
    assert(projects@.take(index as int) =~= projects@);
    items
}

/// A search provider for recent Jetbrains products.
///
/// The provider holds the recent projects of one product, as they were read last.
#[derive(Debug)]
pub struct JetbrainsProductSearchProvider {
    provider: AppItemSearchProvider,
    recent_projects: IdMap,
    config: &'static ConfigLocation<'static>,
}

impl JetbrainsProductSearchProvider {
    /// The app of this provider.
    pub closed spec fn app_view(&self) -> App {
        self.provider.app_view()
    }

    /// The recent projects that this provider holds.
    pub closed spec fn projects_view(&self) -> Seq<Entry> {
        entries(self.recent_projects)
    }

    /// Where the product of this provider has its configuration.
    pub closed spec fn config_view(&self) -> &'static ConfigLocation<'static> {
        self.config
    }

    /// Create a new search provider for a jetbrains product.
    ///
    /// `app` describes the underlying app to launch projects with, and `config`
    /// describes where this Jetbrains product has its configuration.  The provider
    /// holds no projects until they are reloaded.
    pub fn new(app: App, config: &'static ConfigLocation<'static>) -> (provider: Self)
        ensures
            provider.app_view() == app,
            provider.config_view() == config,
            provider.projects_view() == Seq::<Entry>::empty(),
    {
        Self { provider: AppItemSearchProvider::new(app), config, recent_projects: new_id_map() }
    }

    /// Get the underyling app for this Jetbrains product.
    pub fn app(&self) -> (app: &App)
        ensures
            *app == self.app_view(),
    {
        self.provider.app()
    }

    /// Where this Jetbrains product has its configuration.
    pub fn config(&self) -> (config: &'static ConfigLocation<'static>)
        ensures
            config == self.config_view(),
    {
        self.config
    }

    /// Reload all recent projects provided by this search provider: the provider
    /// holds the given projects from now on, and no others.
    pub fn reload_recent_projects(&mut self, projects: Vec<FoundProject>)
        ensures
            final(self).projects_view() == collected(
                old(self).app_view().id_view(),
                projects@,
            ),
            final(self).app_view() == old(self).app_view(),
            final(self).config_view() == old(self).config_view(),
    {
        self.recent_projects = read_recent_projects(self.provider.app().id().as_str(), projects);
    }

    /// Starts a search.
    ///
    /// Return the IDs of the recent projects that match `terms`, best match first.
    pub fn get_initial_result_set(&self, terms: &[&str]) -> (ids: Vec<String>)
        ensures
            are_ranked_ids(self.projects_view(), str_views(terms@), string_views(ids@)),
    {
        self.provider.get_initial_result_set(&self.recent_projects, terms)
    }

    /// Refine an ongoing search.
    ///
    /// Return the IDs of the previous results that match `terms`, best match first.
    pub fn get_subsearch_result_set(&self, previous_results: &[&str], terms: &[&str]) -> (ids: Vec<
        String,
    >)
        ensures
            are_ranked_ids(
                candidates(self.projects_view(), str_views(previous_results@)),
                str_views(terms@),
                string_views(ids@),
            ),
            forall|at: int|
                0 <= at < ids@.len() ==> str_views(previous_results@).contains(
                    #[trigger] ids@[at]@,
                ),
    {
        self.provider.get_subsearch_result_set(&self.recent_projects, previous_results, terms)
    }

    /// Get metadata for results.
    pub fn get_result_metas(&self, results: &[String]) -> (metas: Vec<ResultMeta>)
        ensures
            metas_view(metas@) == metas_of(
                self.projects_view(),
                self.app_view().icon_view(),
                string_views(results@),
            ),
    {
        self.provider.get_result_metas(&self.recent_projects, results)
    }

    /// Activate an individual result.
    ///
    /// Return the request to launch the app with the directory of the project, or
    /// fail if the provider holds no project with the ID of the result.
    pub fn activate_result(&self, item_id: &str) -> (request: Result<AppLaunchRequest, SearchError>)
        ensures
            match request {
                Ok(launch) => match entry_with(self.projects_view(), item_id@) {
                    Some(entry) => launch.app@ == self.app_view().id_view() && launch.uri_view()
                        == Some(entry.2),
                    None => false,
                },
                Err(error) => entry_with(self.projects_view(), item_id@) is None && error@
                    == SearchErrorView::NotFound(item_id@),
            },
    {
        self.provider.activate_result(&self.recent_projects, item_id)
    }

    /// Launch a search within the App.
    ///
    /// Return the request to launch the app without any arguments.
    pub fn launch_search(&self) -> (request: AppLaunchRequest)
        ensures
            request.app@ == self.app_view().id_view(),
            request.uri is None,
    {
        self.provider.launch_search()
    }
}

} // verus!
