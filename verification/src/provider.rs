//! Search providers for apps.
//!
//! See <https://developer.gnome.org/SearchProvider/> for the interface that the
//! operations of a provider answer.

use crate::item::AppLaunchItem;
use crate::launchservice::{App, AppLaunchRequest};
use crate::matching::{
    find_matching_items, is_ranking, item_scores, ranking_is_unique, score_of, selected, Ratio,
};
use crate::source::{entries, entry_of, holds_at, index_of_item, item_at, item_count, lacks, Entry, IdMap};
use crate::text::{optional_string_view, str_views, string_views};
use vstd::prelude::*;

verus! {

/// The scores of the items of the given entries against `terms`.
pub open spec fn entry_scores(all: Seq<Entry>, terms: Seq<Seq<char>>) -> Seq<Ratio> {
    all.map_values(|entry: Entry| score_of(entry.1, entry.2, terms))
}

/// The IDs of the entries at the indices that `order` lists.
pub open spec fn ids_at(all: Seq<Entry>, order: Seq<int>) -> Seq<Seq<char>> {
    order.map_values(|index: int| all[index].0)
}

/// Whether `ids` are the IDs of the entries that match `terms`, best match first,
/// and entries with the same score in their order.
pub open spec fn are_ranked_ids(all: Seq<Entry>, terms: Seq<Seq<char>>, ids: Seq<Seq<char>>) -> bool {
    exists|order: Seq<int>| is_ranking(entry_scores(all, terms), order) && ids == ids_at(all, order)
}

/// The entries and the terms decide the IDs and their order.
pub proof fn ranked_ids_are_unique(
    all: Seq<Entry>,
    terms: Seq<Seq<char>>,
    first: Seq<Seq<char>>,
    second: Seq<Seq<char>>,
)
    requires
        are_ranked_ids(all, terms, first),
        are_ranked_ids(all, terms, second),
    ensures
        first == second,
{
    let first_order = choose|order: Seq<int>|
        is_ranking(entry_scores(all, terms), order) && first == ids_at(all, order);
    let second_order = choose|order: Seq<int>|
        is_ranking(entry_scores(all, terms), order) && second == ids_at(all, order);
    ranking_is_unique(entry_scores(all, terms), first_order, second_order);
}

/// The entry with the given ID, if there is one.
pub open spec fn entry_with(all: Seq<Entry>, id: Seq<char>) -> Option<Entry> {
    if lacks(all, id) {
        None
    } else {
        Some(all[choose|index: int| 0 <= index < all.len() && all[index].0 == id])
    }
}

/// The entry with the given ID is the one at the index that holds the ID alone.
pub proof fn entry_with_is_held(all: Seq<Entry>, id: Seq<char>, index: int)
    requires
        holds_at(all, id, index),
    ensures
        entry_with(all, id) == Some(all[index]),
{
    assert(all[index].0 == id);
    let chosen = choose|index: int| 0 <= index < all.len() && all[index].0 == id;
    assert(0 <= chosen < all.len() && all[chosen].0 == id);
}

/// The entries that a refined search looks at: for each of the previous IDs that the
/// collection still holds, in the order of the previous IDs, the entry with that ID.
pub open spec fn candidates(all: Seq<Entry>, previous: Seq<Seq<char>>) -> Seq<Entry>
    decreases previous.len(),
{
    if previous.len() == 0 {
        Seq::empty()
    } else {
        match entry_with(all, previous.last()) {
            Some(entry) => candidates(all, previous.drop_last()).push(entry),
            None => candidates(all, previous.drop_last()),
        }
    }
}

/// Every candidate has one of the previous IDs.
pub proof fn candidates_come_from_previous(all: Seq<Entry>, previous: Seq<Seq<char>>, at: int)
    requires
        0 <= at < candidates(all, previous).len(),
    ensures
        previous.contains(candidates(all, previous)[at].0),
    decreases previous.len(),
{
    if previous.len() > 0 {
        let rest = candidates(all, previous.drop_last());
        if at < rest.len() {
            candidates_come_from_previous(all, previous.drop_last(), at);
            let id = rest[at].0;
            let found = choose|i: int| 0 <= i < previous.drop_last().len() && previous.drop_last()[i] == id;
            assert(previous[found] == id);
        } else {
            let entry = entry_with(all, previous.last())->0;
            assert(entry.0 == previous.last());
            assert(previous[previous.len() - 1] == previous.last());
        }
    }
}

/// A refined search never returns an ID that was not among the previous IDs.
pub proof fn refined_ids_come_from_previous(
    all: Seq<Entry>,
    previous: Seq<Seq<char>>,
    terms: Seq<Seq<char>>,
    refined: Seq<Seq<char>>,
    at: int,
)
    requires
        are_ranked_ids(candidates(all, previous), terms, refined),
        0 <= at < refined.len(),
    ensures
        previous.contains(refined[at]),
{
    let order = choose|order: Seq<int>|
        is_ranking(entry_scores(candidates(all, previous), terms), order) && refined == ids_at(
            candidates(all, previous),
            order,
        );
    assert(0 <= order[at] < candidates(all, previous).len());
    candidates_come_from_previous(all, previous, order[at]);
}

/// Refining the result of a search by its own terms returns a part of that result:
/// no ID that the search did not return.
pub proof fn refinement_is_part_of_search(
    all: Seq<Entry>,
    terms: Seq<Seq<char>>,
    searched: Seq<Seq<char>>,
    refined: Seq<Seq<char>>,
)
    requires
        are_ranked_ids(all, terms, searched),
        are_ranked_ids(candidates(all, searched), terms, refined),
    ensures
        forall|at: int| 0 <= at < refined.len() ==> searched.contains(#[trigger] refined[at]),
{
    assert forall|at: int| 0 <= at < refined.len() implies searched.contains(
        #[trigger] refined[at],
    ) by {
        refined_ids_come_from_previous(all, searched, terms, refined, at);
    }
}

fn owned_ids(ids: Vec<&String>) -> (owned: Vec<String>)
    ensures
        owned@.len() == ids@.len(),
        forall|at: int| 0 <= at < ids@.len() ==> #[trigger] owned@[at]@ == ids@[at]@,
{
    let mut owned: Vec<String> = Vec::new();
    let mut at: usize = 0;
    while at < ids.len()
        invariant
            at <= ids.len(),
            owned@.len() == at,
            forall|done: int| 0 <= done < at ==> #[trigger] owned@[done]@ == ids@[done]@,
        decreases ids.len() - at,
    {
        owned.push(ids[at].clone());
        at += 1;
    }
    owned
}

fn owned_strs(ids: Vec<&str>) -> (owned: Vec<String>)
    ensures
        owned@.len() == ids@.len(),
        forall|at: int| 0 <= at < ids@.len() ==> #[trigger] owned@[at]@ == ids@[at]@,
{
    let mut owned: Vec<String> = Vec::new();
    let mut at: usize = 0;
    while at < ids.len()
        invariant
            at <= ids.len(),
            owned@.len() == at,
            forall|done: int| 0 <= done < at ==> #[trigger] owned@[done]@ == ids@[done]@,
        decreases ids.len() - at,
    {
        owned.push(ids[at].to_owned());
        at += 1;
    }
    owned
}

/// Why an operation of a search provider failed.
#[derive(Debug, PartialEq, Eq)]
pub enum SearchError {
    /// The request to mark the items of the app stale could not be sent.
    InvalidationNotSent,
    /// The request for the items of the app could not be sent.
    RequestNotSent,
    /// The request for the items of the app was dropped without an answer.
    RequestDropped,
    /// The items of the app could not be had; holds the cause.
    ItemsUnavailable(String),
    /// No item has the ID of the result; holds the ID.
    NotFound(String),
    /// The app could not be launched; holds the ID of the app, the URI it was to be
    /// launched with, and the cause.
    LaunchFailed(String, Option<String>, String),
}

/// What a [`SearchError`] holds.
pub enum SearchErrorView {
    InvalidationNotSent,
    RequestNotSent,
    RequestDropped,
    ItemsUnavailable(Seq<char>),
    NotFound(Seq<char>),
    LaunchFailed(Seq<char>, Option<Seq<char>>, Seq<char>),
}

impl View for SearchError {
    type V = SearchErrorView;

    open spec fn view(&self) -> SearchErrorView {
        match self {
            SearchError::InvalidationNotSent => SearchErrorView::InvalidationNotSent,
            SearchError::RequestNotSent => SearchErrorView::RequestNotSent,
            SearchError::RequestDropped => SearchErrorView::RequestDropped,
            SearchError::ItemsUnavailable(cause) => SearchErrorView::ItemsUnavailable(cause@),
            SearchError::NotFound(id) => SearchErrorView::NotFound(id@),
            SearchError::LaunchFailed(app, uri, cause) => SearchErrorView::LaunchFailed(
                app@,
                optional_string_view(*uri),
                cause@,
            ),
        }
    }
}

/// The message that tells of an error on the bus.
pub open spec fn error_message(error: SearchErrorView) -> Seq<char> {
    match error {
        SearchErrorView::InvalidationNotSent => "Failed to invalidate search items"@,
        SearchErrorView::RequestNotSent => "Failed to send request for search items"@,
        SearchErrorView::RequestDropped => "Failed to request app items, app provider dropped"@,
        SearchErrorView::ItemsUnavailable(cause) => "Failed to get app items: "@ + cause,
        SearchErrorView::NotFound(id) => "Result "@ + id + " not found"@,
        SearchErrorView::LaunchFailed(app, Some(uri), cause) => "Failed to launch app "@ + app
            + " for "@ + uri + ": "@ + cause,
        SearchErrorView::LaunchFailed(app, None, cause) => "Failed to launch app "@ + app + ": "@
            + cause,
    }
}

impl SearchError {
    /// The message that tells of this error on the bus.
    pub fn message(&self) -> (message: String)
        ensures
            message@ == error_message(self@),
    {
        match self {
            SearchError::InvalidationNotSent => "Failed to invalidate search items".to_owned(),
            SearchError::RequestNotSent => "Failed to send request for search items".to_owned(),
            SearchError::RequestDropped => {
                "Failed to request app items, app provider dropped".to_owned()
            },
            SearchError::ItemsUnavailable(cause) => {
                let mut message = "Failed to get app items: ".to_owned();
                message.append(cause.as_str());
                message
            },
            SearchError::NotFound(id) => {
                let mut message = "Result ".to_owned();
                message.append(id.as_str());
                message.append(" not found");
                message
            },
            SearchError::LaunchFailed(app, Some(uri), cause) => {
                let mut message = "Failed to launch app ".to_owned();
                message.append(app.as_str());
                message.append(" for ");
                message.append(uri.as_str());
                message.append(": ");
                message.append(cause.as_str());
                message
            },
            SearchError::LaunchFailed(app, None, cause) => {
                let mut message = "Failed to launch app ".to_owned();
                message.append(app.as_str());
                message.append(": ");
                message.append(cause.as_str());
                message
            },
        }
    }
}

/// The metadata of one result: the properties that the shell shows, by their names.
pub type ResultMeta = Vec<(String, String)>;

/// What the metadata of one result holds.
pub type ResultMetaView = Seq<(Seq<char>, Seq<char>)>;

/// What a list of metadata holds.
pub open spec fn metas_view(metas: Seq<ResultMeta>) -> Seq<ResultMetaView> {
    metas.map_values(
        |meta: ResultMeta|
            meta@.map_values(|property: (String, String)| (property.0@, property.1@)),
    )
}

/// The metadata of the result for an entry: the ID of the result, the name of the
/// item as the name to display, the icon of the app, and the URI of the item as
/// its description.
pub open spec fn meta_of(entry: Entry, icon: Seq<char>) -> ResultMetaView {
    seq![("id"@, entry.0), ("name"@, entry.1), ("gicon"@, icon), ("description"@, entry.2)]
}

/// The metadata of the results with the given IDs: one for each ID that the
/// collection holds, in the order of the IDs.
pub open spec fn metas_of(all: Seq<Entry>, icon: Seq<char>, ids: Seq<Seq<char>>) -> Seq<
    ResultMetaView,
>
    decreases ids.len(),
{
    if ids.len() == 0 {
        Seq::empty()
    } else {
        match entry_with(all, ids.last()) {
            Some(entry) => metas_of(all, icon, ids.drop_last()).push(meta_of(entry, icon)),
            None => metas_of(all, icon, ids.drop_last()),
        }
    }
}

/// A search provider for recent items.
#[derive(Debug)]
pub struct AppItemSearchProvider {
    app: App,
}

impl AppItemSearchProvider {
    /// The app managed by this search provider.
    pub closed spec fn app_view(&self) -> App {
        self.app
    }

    /// Create a new search provider for recent items of `app`.
    pub fn new(app: App) -> (provider: AppItemSearchProvider)
        ensures
            provider.app_view() == app,
    {
        Self { app }
    }

    /// The app managed by this search provider.
    pub fn app(&self) -> (app: &App)
        ensures
            *app == self.app_view(),
    {
        &self.app
    }

    /// Starts a search.
    ///
    /// Match all items against the search terms, and return the IDs of the items that
    /// match, best match first.
    pub fn get_initial_result_set(&self, items: &IdMap, terms: &[&str]) -> (ids: Vec<String>)
        ensures
            are_ranked_ids(entries(*items), str_views(terms@), string_views(ids@)),
    {
        let count = item_count(items);
        let mut pairs: Vec<(&String, &AppLaunchItem)> = Vec::new();
        let mut index: usize = 0;
        while index < count
            invariant
                index <= count,
                count == entries(*items).len(),
                pairs@.len() == index,
                forall|at: int|
                    0 <= at < index ==> entries(*items)[at] == entry_of(
                        (#[trigger] pairs@[at]).0@,
                        *pairs@[at].1,
                    ),
            decreases count - index,
        {
            match item_at(items, index) {
                Some(pair) => {
                    pairs.push(pair);
                },
                None => {},
            }
            index += 1;
        }
        let ghost all = entries(*items);
        let ghost views = str_views(terms@);
        let ghost listed = pairs@;
        let found = find_matching_items(pairs, terms);
        let ids = owned_ids(found);
        proof {
            let order = choose|order: Seq<int>|
                is_ranking(item_scores(listed, views), order) && found@ == selected(listed, order);
            assert(item_scores(listed, views) =~= entry_scores(all, views));
            assert(string_views(ids@) =~= ids_at(all, order));
        }
        ids
    }

    /// Refine an ongoing search.
    ///
    /// Match the items with the IDs of the previous results against the search terms,
    /// and return the IDs of those that match, best match first.  Previous IDs that the
    /// collection does not hold are passed over.
    pub fn get_subsearch_result_set(
        &self,
        items: &IdMap,
        previous_results: &[&str],
        terms: &[&str],
    ) -> (ids: Vec<String>)
        ensures
            are_ranked_ids(
                candidates(entries(*items), str_views(previous_results@)),
                str_views(terms@),
                string_views(ids@),
            ),
            forall|at: int|
                0 <= at < ids@.len() ==> str_views(previous_results@).contains(#[trigger] ids@[at]@),
    {
        let ghost all = entries(*items);
        let ghost previous = str_views(previous_results@);
        let mut pairs: Vec<(&str, &AppLaunchItem)> = Vec::new();
        let mut index: usize = 0;
        while index < previous_results.len()
            invariant
                index <= previous_results.len(),
                all == entries(*items),
                previous == str_views(previous_results@),
                pairs@.len() == candidates(all, previous.take(index as int)).len(),
                forall|at: int|
                    0 <= at < pairs@.len() ==> candidates(all, previous.take(index as int))[at]
                        == entry_of((#[trigger] pairs@[at]).0@, *pairs@[at].1),
            decreases previous_results.len() - index,
        {
            let id = previous_results[index];
            proof {
                let next = previous.take(index + 1);
                assert(next.drop_last() =~= previous.take(index as int));
                assert(next.last() == id@);
            }
            match index_of_item(items, id) {
                Some(position) => {
                    proof {
                        entry_with_is_held(all, id@, position as int);
                    }
                    match item_at(items, position) {
                        Some((_, item)) => {
                            pairs.push((id, item));
                        },
                        None => {},
                    }
                },
                None => {},
            }
            index += 1;
        }
        assert(previous.take(index as int) =~= previous);
        let ghost views = str_views(terms@);
        let ghost listed = pairs@;
        let found = find_matching_items(pairs, terms);
        let ids = owned_strs(found);
        proof {
            let order = choose|order: Seq<int>|
                is_ranking(item_scores(listed, views), order) && found@ == selected(listed, order);
            assert(item_scores(listed, views) =~= entry_scores(candidates(all, previous), views));
            assert(string_views(ids@) =~= ids_at(candidates(all, previous), order));
            assert forall|at: int| 0 <= at < ids@.len() implies previous.contains(
                #[trigger] ids@[at]@,
            ) by {
                assert(string_views(ids@)[at] == ids@[at]@);
                refined_ids_come_from_previous(all, previous, views, string_views(ids@), at);
            }
        }
        ids
    }

    /// Get metadata for results.
    ///
    /// Return the metadata of every result whose ID the collection holds, in the
    /// order of `results`.  IDs that the collection does not hold are passed over.
    pub fn get_result_metas(&self, items: &IdMap, results: &[String]) -> (metas: Vec<ResultMeta>)
        ensures
            metas_view(metas@) == metas_of(
                entries(*items),
                self.app_view().icon_view(),
                string_views(results@),
            ),
    {
        let ghost all = entries(*items);
        let ghost ids = string_views(results@);
        let ghost icon = self.app_view().icon_view();
        let mut metas: Vec<ResultMeta> = Vec::new();
        let mut index: usize = 0;
        while index < results.len()
            invariant
                index <= results.len(),
                all == entries(*items),
                ids == string_views(results@),
                icon == self.app_view().icon_view(),
                metas_view(metas@) == metas_of(all, icon, ids.take(index as int)),
            decreases results.len() - index,
        {
            let item_id = &results[index];
            proof {
                let next = ids.take(index + 1);
                assert(next.drop_last() =~= ids.take(index as int));
                assert(next.last() == item_id@);
            }
            match index_of_item(items, item_id.as_str()) {
                Some(position) => {
                    proof {
                        entry_with_is_held(all, item_id@, position as int);
                    }
                    match item_at(items, position) {
                        Some((_, item)) => {
                            let mut meta: ResultMeta = Vec::new();
                            meta.push(("id".to_owned(), item_id.clone()));
                            meta.push(("name".to_owned(), item.name.clone()));
                            meta.push(("gicon".to_owned(), self.app.icon().to_owned()));
                            meta.push(("description".to_owned(), item.uri.clone()));
                            let ghost before = metas@;
                            assert(meta@.map_values(
                                |property: (String, String)| (property.0@, property.1@),
                            ) =~= meta_of(all[position as int], icon));
                            metas.push(meta);
                            assert(metas_view(metas@) =~= metas_view(before).push(
                                meta_of(all[position as int], icon),
                            ));
                        },
                        None => {},
                    }
                },
                None => {},
            }
            index += 1;
        }
        assert(ids.take(index as int) =~= ids);
        metas
    }

    /// Activate an individual result.
    ///
    /// Return the request to launch the app with the URI of the item that the result
    /// stands for, or fail if the collection holds no item with the ID of the result.
    pub fn activate_result(&self, items: &IdMap, item_id: &str) -> (request: Result<
        AppLaunchRequest,
        SearchError,
    >)
        ensures
            match request {
                Ok(launch) => match entry_with(entries(*items), item_id@) {
                    Some(entry) => launch.app@ == self.app_view().id_view() && launch.uri_view()
                        == Some(entry.2),
                    None => false,
                },
                Err(error) => entry_with(entries(*items), item_id@) is None && error@
                    == SearchErrorView::NotFound(item_id@),
            },
    {
        match index_of_item(items, item_id) {
            Some(position) => {
                proof {
                    entry_with_is_held(entries(*items), item_id@, position as int);
                }
                match item_at(items, position) {
                    Some((_, item)) => Ok(
                        AppLaunchRequest {
                            app: self.app.id().duplicate(),
                            uri: Some(item.uri.clone()),
                        },
                    ),
                    None => Err(SearchError::NotFound(item_id.to_owned())),
                }
            },
            None => Err(SearchError::NotFound(item_id.to_owned())),
        }
    }

    /// Launch a search within the App.
    ///
    /// Return the request to launch the app without any arguments.
    pub fn launch_search(&self) -> (request: AppLaunchRequest)
        ensures
            request.app@ == self.app_view().id_view(),
            request.uri is None,
    {
        AppLaunchRequest { app: self.app.id().duplicate(), uri: None }
    }

    /// The failure to launch the app for a request, given its cause.
    pub fn launch_failure(request: &AppLaunchRequest, cause: &str) -> (error: SearchError)
        ensures
            error@ == SearchErrorView::LaunchFailed(request.app@, request.uri_view(), cause@),
    {
        let uri = match &request.uri {
            Some(uri) => Some(uri.clone()),
            None => None,
        };
        SearchError::LaunchFailed(request.app.as_str().to_owned(), uri, cause.to_owned())
    }
}

/// Activating a result whose ID the collection does not hold fails, and the error
/// tells that the result was not found.
pub proof fn unknown_result_is_not_found(
    all: Seq<Entry>,
    item_id: Seq<char>,
)
    requires
        lacks(all, item_id),
    ensures
        entry_with(all, item_id) is None,
        error_message(SearchErrorView::NotFound(item_id)) == "Result "@ + item_id + " not found"@,
{
}

} // verus!
