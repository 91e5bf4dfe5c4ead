//! The cache of the items of one app, and how it is refreshed on demand.
//!
//! The cache itself loads nothing.  It is told what happens: a caller asks for the
//! items, a caller marks them stale, the load that it asked for ends.  It answers
//! with what is to be done: start a load, or hand the items to the callers that
//! wait for them.  While one load is under way no second one is started: all
//! callers that ask in the meantime wait for the first.

use crate::source::{entries, Entry, IdMap};
use std::sync::Arc;
use vstd::prelude::*;

verus! {

/// Requests by the search provider.
#[derive(Debug, Clone, Copy, PartialEq, Eq)]
pub enum AppItemSearchRequest {
    /// Invalidate the list of items for the app.
    Invalidate,
    /// Get app items, for the caller with the given number.
    GetItems(u64),
}

impl AppItemSearchRequest {
    /// Get name of this request for debugging.
    pub fn name(&self) -> (name: &'static str)
        ensures
            name@ == match self {
                AppItemSearchRequest::Invalidate => "Invalidate"@,
                AppItemSearchRequest::GetItems(_) => "GetItems"@,
            },
    {
        match self {
            AppItemSearchRequest::Invalidate => "Invalidate",
            AppItemSearchRequest::GetItems(_) => "GetItems",
        }
    }
}

/// An operation of a search provider.
#[derive(Debug, Clone, Copy, PartialEq, Eq)]
pub enum Operation {
    /// Start a search.
    InitialSearch,
    /// Refine an ongoing search.
    Refine,
    /// Describe results.
    DescribeResults,
    /// Activate a result.
    Activate,
    /// Launch the app itself.
    LaunchBare,
}

/// Whether the given operation marks the items stale before it asks for them, so
/// that it works on items that were loaded for it.
pub open spec fn wants_fresh_items(operation: Operation) -> bool {
    operation is InitialSearch
}

/// Whether the given operation asks for the items at all.
pub open spec fn wants_items(operation: Operation) -> bool {
    !(operation is LaunchBare)
}

/// The requests that the given operation sends to the cache, for the caller with
/// the given number: a new search marks the items stale and asks for them, the
/// launch of the app itself asks for nothing, and every other operation asks for
/// the items as they are.
pub fn requests_of(operation: Operation, caller: u64) -> (requests: Vec<AppItemSearchRequest>)
    ensures
        requests@ == if wants_fresh_items(operation) {
            seq![AppItemSearchRequest::Invalidate, AppItemSearchRequest::GetItems(caller)]
        } else if wants_items(operation) {
            seq![AppItemSearchRequest::GetItems(caller)]
        } else {
            Seq::<AppItemSearchRequest>::empty()
        },
{
    let mut requests: Vec<AppItemSearchRequest> = Vec::new();
    match operation {
        Operation::InitialSearch => {
            requests.push(AppItemSearchRequest::Invalidate);
            requests.push(AppItemSearchRequest::GetItems(caller));
        },
        Operation::LaunchBare => {},
        _ => {
            requests.push(AppItemSearchRequest::GetItems(caller));
        },
    }
    requests
}

/// What a cache holds.
#[derive(Debug)]
pub enum CacheState {
    /// No items are loaded, or those that were loaded are stale.
    Unloaded,
    /// A load is under way, for the caller that set it off and for those that asked
    /// in the meantime.
    Loading(u64, Vec<u64>),
    /// The items are loaded and current.
    Ready(Arc<IdMap>),
}

/// What a [`CacheState`] holds.
pub enum StateView {
    Unloaded,
    Loading(u64, Seq<u64>),
    Ready(Seq<Entry>),
}

/// What happens to a cache.
pub enum Event {
    /// A caller marks the items stale.
    Invalidate,
    /// The caller with the given number asks for the items.
    GetItems(u64),
    /// The load ends with the given items.
    Loaded(Seq<Entry>),
    /// The load fails for the given cause.
    LoadFailed(Seq<char>),
}

/// What is to be done after something happened to a cache.
#[derive(Debug, PartialEq, Eq)]
pub enum CacheAction {
    /// Nothing.
    Nothing,
    /// Load the items, and tell the cache how the load ended.
    StartLoad,
    /// Hand the items that the cache holds to the given callers.
    Deliver(Vec<u64>),
    /// Tell the first caller that the load failed for the given cause, and hand an
    /// empty collection to the other callers.
    ReportFailure(u64, String, Vec<u64>),
}

/// What a [`CacheAction`] holds.
pub enum ActionView {
    Nothing,
    StartLoad,
    Deliver(Seq<u64>),
    ReportFailure(u64, Seq<char>, Seq<u64>),
}

impl View for CacheAction {
    type V = ActionView;

    open spec fn view(&self) -> ActionView {
        match self {
            CacheAction::Nothing => ActionView::Nothing,
            CacheAction::StartLoad => ActionView::StartLoad,
            CacheAction::Deliver(callers) => ActionView::Deliver(callers@),
            CacheAction::ReportFailure(first, cause, others) => ActionView::ReportFailure(
                *first,
                cause@,
                others@,
            ),
        }
    }
}

/// What a cache is: the number of the generation of items that it loaded last, and
/// what it holds.
pub struct CacheView {
    pub generation: u64,
    pub state: StateView,
}

/// The number of the generation that follows the given one.
pub open spec fn next_generation(generation: u64) -> u64 {
    if generation == u64::MAX {
        0
    } else {
        (generation + 1) as u64
    }
}

/// How a cache changes when something happens to it, and what is to be done then.
///
/// A stale cache that is asked for its items starts a load; a cache that loads lets
/// the caller wait; a cache that is ready delivers at once.  Marking the items stale
/// throws away what is ready, and touches nothing else: a load under way goes on.
/// A load that ends well makes the cache ready with a new generation, for all that
/// waited; one that fails leaves the cache stale, so that the next caller tries
/// again.  The end of a load that the cache did not wait for changes nothing.
pub open spec fn step(cache: CacheView, event: Event) -> (CacheView, ActionView) {
    match (cache.state, event) {
        (StateView::Unloaded, Event::GetItems(caller)) => (
            CacheView { state: StateView::Loading(caller, Seq::empty()), ..cache },
            ActionView::StartLoad,
        ),
        (StateView::Loading(first, others), Event::GetItems(caller)) => (
            CacheView { state: StateView::Loading(first, others.push(caller)), ..cache },
            ActionView::Nothing,
        ),
        (StateView::Ready(_), Event::GetItems(caller)) => (cache, ActionView::Deliver(seq![caller])),
        (StateView::Ready(_), Event::Invalidate) => (
            CacheView { state: StateView::Unloaded, ..cache },
            ActionView::Nothing,
        ),
        (StateView::Loading(first, others), Event::Loaded(items)) => (
            CacheView {
                generation: next_generation(cache.generation),
                state: StateView::Ready(items),
            },
            ActionView::Deliver(seq![first] + others),
        ),
        (StateView::Loading(first, others), Event::LoadFailed(cause)) => (
            CacheView { state: StateView::Unloaded, ..cache },
            ActionView::ReportFailure(first, cause, others),
        ),
        _ => (cache, ActionView::Nothing),
    }
}

/// The cache of the items of one app.
#[derive(Debug)]
pub struct ItemCache {
    generation: u64,
    state: CacheState,
}

impl View for ItemCache {
    type V = CacheView;

    closed spec fn view(&self) -> CacheView {
        CacheView {
            generation: self.generation,
            state: match self.state {
                CacheState::Unloaded => StateView::Unloaded,
                CacheState::Loading(first, others) => StateView::Loading(first, others@),
                CacheState::Ready(items) => StateView::Ready(entries(*items)),
            },
        }
    }
}

impl ItemCache {
    /// A cache that has loaded nothing yet.
    pub fn new() -> (cache: ItemCache)
        ensures
            cache@ == (CacheView { generation: 0, state: StateView::Unloaded }),
    {
        ItemCache { generation: 0, state: CacheState::Unloaded }
    }

    /// The number of the generation of items that this cache loaded last.
    pub fn generation(&self) -> (generation: u64)
        ensures
            generation == self@.generation,
    {
        self.generation
    }

    /// The items that this cache holds, if they are loaded and current.
    pub fn items(&self) -> (items: Option<&Arc<IdMap>>)
        ensures
            match items {
                Some(current) => self@.state == StateView::Ready(entries(**current)),
                None => !(self@.state is Ready),
            },
    {
        match &self.state {
            CacheState::Ready(items) => Some(items),
            _ => None,
        }
    }

    /// Whether a load is under way.
    pub fn is_loading(&self) -> (loading: bool)
        ensures
            loading == (self@.state is Loading),
    {
        match &self.state {
            CacheState::Loading(_, _) => true,
            _ => false,
        }
    }

    /// Mark the items stale.  This starts no load: the next caller that asks for
    /// the items does.
    pub fn invalidate(&mut self)
        ensures
            (final(self)@, ActionView::Nothing) == step(old(self)@, Event::Invalidate),
    {
        let stale = match &self.state {
            CacheState::Ready(_) => true,
            _ => false,
        };
        if stale {
            self.state = CacheState::Unloaded;
        }
    }

    /// Ask for the items, for the caller with the given number.
    pub fn get_items(&mut self, caller: u64) -> (action: CacheAction)
        ensures
            (final(self)@, action@) == step(old(self)@, Event::GetItems(caller)),
    {
        let mut state = CacheState::Unloaded;
        std::mem::swap(&mut self.state, &mut state);
        match state {
            CacheState::Unloaded => {
                self.state = CacheState::Loading(caller, Vec::new());
                CacheAction::StartLoad
            },
            CacheState::Loading(first, others) => {
                let mut others = others;
                others.push(caller);
                self.state = CacheState::Loading(first, others);
                CacheAction::Nothing
            },
            CacheState::Ready(items) => {
                self.state = CacheState::Ready(items);
                let mut callers: Vec<u64> = Vec::new();
                callers.push(caller);
                assert(callers@ =~= seq![caller]);
                CacheAction::Deliver(callers)
            },
        }
    }

    /// Take in the items that the load gave.
    pub fn loaded(&mut self, items: Arc<IdMap>) -> (action: CacheAction)
        ensures
            (final(self)@, action@) == step(old(self)@, Event::Loaded(entries(*items))),
    {
        let mut state = CacheState::Unloaded;
        std::mem::swap(&mut self.state, &mut state);
        match state {
            CacheState::Loading(first, others) => {
                self.generation = if self.generation == u64::MAX {
                    0
                } else {
                    self.generation + 1
                };
                self.state = CacheState::Ready(items);
                let mut callers: Vec<u64> = Vec::new();
                callers.push(first);
                let mut others = others;
                callers.append(&mut others);
                assert(callers@ =~= seq![first] + old(self)@.state->Loading_1);
                CacheAction::Deliver(callers)
            },
            other => {
                self.state = other;
                CacheAction::Nothing
            },
        }
    }

    /// Take in that the load failed.
    pub fn load_failed(&mut self, cause: String) -> (action: CacheAction)
        ensures
            (final(self)@, action@) == step(old(self)@, Event::LoadFailed(cause@)),
    {
        let mut state = CacheState::Unloaded;
        std::mem::swap(&mut self.state, &mut state);
        match state {
            CacheState::Loading(first, others) => CacheAction::ReportFailure(first, cause, others),
            other => {
                self.state = other;
                CacheAction::Nothing
            },
        }
    }

    /// Serve a request of the search provider.
    pub fn handle(&mut self, request: AppItemSearchRequest) -> (action: CacheAction)
        ensures
            (final(self)@, action@) == step(
                old(self)@,
                match request {
                    AppItemSearchRequest::Invalidate => Event::Invalidate,
                    AppItemSearchRequest::GetItems(caller) => Event::GetItems(caller),
                },
            ),
    {
        match request {
            AppItemSearchRequest::Invalidate => {
                self.invalidate();
                CacheAction::Nothing
            },
            AppItemSearchRequest::GetItems(caller) => self.get_items(caller),
        }
    }
}

/// How a cache changes over a sequence of events, and what is to be done after each.
pub open spec fn run(cache: CacheView, events: Seq<Event>) -> (CacheView, Seq<ActionView>)
    decreases events.len(),
{
    if events.len() == 0 {
        (cache, Seq::empty())
    } else {
        let (before, actions) = run(cache, events.drop_last());
        let (after, action) = step(before, events.last());
        (after, actions.push(action))
    }
}

/// How many loads the given actions start.
pub open spec fn loads_started(actions: Seq<ActionView>) -> nat
    decreases actions.len(),
{
    if actions.len() == 0 {
        0
    } else if actions.last() is StartLoad {
        loads_started(actions.drop_last()) + 1
    } else {
        loads_started(actions.drop_last())
    }
}

/// The callers that ask for the items in the given events, in their order.
pub open spec fn callers(events: Seq<Event>) -> Seq<u64>
    decreases events.len(),
{
    if events.len() == 0 {
        Seq::empty()
    } else {
        match events.last() {
            Event::GetItems(caller) => callers(events.drop_last()).push(caller),
            _ => callers(events.drop_last()),
        }
    }
}

/// Whether every one of the events is a request of a caller, and none the end of a load.
pub open spec fn are_requests(events: Seq<Event>) -> bool {
    forall|at: int|
        0 <= at < events.len() ==> (#[trigger] events[at]) is GetItems || events[at] is Invalidate
}

/// A load is started only by a cache that is stale, and the cache loads thereafter:
/// no load is started while another is under way.
pub proof fn load_starts_from_stale_cache(cache: CacheView, event: Event)
    requires
        step(cache, event).1 is StartLoad,
    ensures
        cache.state is Unloaded,
        event is GetItems,
        step(cache, event).0.state is Loading,
{
}

/// Single flight: however many callers ask a stale cache for its items before the
/// load ends, and whether or not they mark the items stale before they ask, exactly
/// one load is started, and all callers wait for it: the first as the one that set
/// it off, the others behind it in their order.
pub proof fn single_flight(cache: CacheView, events: Seq<Event>)
    requires
        cache.state is Unloaded,
        are_requests(events),
    ensures
        run(cache, events).0.generation == cache.generation,
        callers(events).len() == 0 ==> run(cache, events).0.state is Unloaded && loads_started(
            run(cache, events).1,
        ) == 0,
        callers(events).len() > 0 ==> run(cache, events).0.state == StateView::Loading(
            callers(events)[0],
            callers(events).drop_first(),
        ) && loads_started(run(cache, events).1) == 1,
    decreases events.len(),
{
    if events.len() > 0 {
        let earlier = events.drop_last();
        assert forall|at: int| 0 <= at < earlier.len() implies (#[trigger] earlier[at]) is GetItems
            || earlier[at] is Invalidate by {
            assert(earlier[at] == events[at]);
        }
        single_flight(cache, earlier);
        assert(events.last() == events[events.len() - 1]);
        let (before, actions) = run(cache, earlier);
        let (after, action) = step(before, events.last());
        assert(run(cache, events).1.drop_last() =~= actions);
        match events.last() {
            Event::GetItems(caller) => {
                if callers(earlier).len() > 0 {
                    assert(callers(events).drop_first() =~= callers(earlier).drop_first().push(
                        caller,
                    ));
                } else {
                    assert(callers(events).drop_first() =~= Seq::<u64>::empty());
                }
            },
            _ => {},
        }
    }
}

/// A caller that marks the items stale and then asks for them never gets the items
/// that the cache held before: it waits for a load, which is started for it unless
/// one is under way.
pub proof fn stale_items_are_not_delivered(cache: CacheView, caller: u64)
    ensures
        ({
            let (stale, _) = step(cache, Event::Invalidate);
            let (after, action) = step(stale, Event::GetItems(caller));
            &&& after.state is Loading
            &&& after.generation == cache.generation
            &&& if cache.state is Loading {
                action is Nothing
            } else {
                action is StartLoad
            }
        }),
{
}

/// The one load serves all who waited: when it ends, the cache is ready with a new
/// generation, and the items go to every caller that asked since the cache was
/// stale.
pub proof fn one_load_serves_all(cache: CacheView, events: Seq<Event>, items: Seq<Entry>)
    requires
        cache.state is Unloaded,
        are_requests(events),
        callers(events).len() > 0,
    ensures
        step(run(cache, events).0, Event::Loaded(items)) == (
            CacheView {
                generation: next_generation(cache.generation),
                state: StateView::Ready(items),
            },
            ActionView::Deliver(callers(events)),
        ),
{
    single_flight(cache, events);
    assert(seq![callers(events)[0]] + callers(events).drop_first() =~= callers(events));
}

/// A load that fails leaves the cache stale: the caller that set it off learns of
/// the failure, the others get nothing but an empty collection, and the next caller
/// sets off a new load.
pub proof fn failed_load_is_retried(
    cache: CacheView,
    events: Seq<Event>,
    cause: Seq<char>,
    next_caller: u64,
)
    requires
        cache.state is Unloaded,
        are_requests(events),
        callers(events).len() > 0,
    ensures
        step(run(cache, events).0, Event::LoadFailed(cause)) == (
            CacheView { generation: cache.generation, state: StateView::Unloaded },
            ActionView::ReportFailure(callers(events)[0], cause, callers(events).drop_first()),
        ),
        step(step(run(cache, events).0, Event::LoadFailed(cause)).0, Event::GetItems(next_caller)).1
            is StartLoad,
{
    single_flight(cache, events);
}

} // verus!
