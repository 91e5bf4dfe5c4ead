//! Collections of items, keyed by their IDs in the order in which they were found.

use crate::item::AppLaunchItem;
use indexmap::IndexMap;
use vstd::prelude::*;

verus! {

/// `indexmap::IndexMap`: a hash map that keeps its entries in the order in which
/// their keys were first inserted.  Nothing inside it is visible here.
#[verifier::external_type_specification]
#[verifier::external_body]
#[verifier::reject_recursive_types(K)]
#[verifier::reject_recursive_types(V)]
#[verifier::reject_recursive_types(S)]
pub struct ExIndexMap<K, V, S>(IndexMap<K, V, S>);

/// A map of IDs to items which can be matched.
pub type IdMap = IndexMap<String, AppLaunchItem>;

/// What an entry of a map of items holds: the ID, the name and the URI of the item.
pub type Entry = (Seq<char>, Seq<char>, Seq<char>);

/// The entries of a map of items, in the order of the map.
pub uninterp spec fn entries(items: IndexMap<String, AppLaunchItem>) -> Seq<Entry>;

/// The entry for an ID and an item.
pub open spec fn entry_of(id: Seq<char>, item: AppLaunchItem) -> Entry {
    (id, item.name@, item.uri@)
}

/// Whether no entry has the given ID.
pub open spec fn lacks(all: Seq<Entry>, id: Seq<char>) -> bool {
    forall|index: int| 0 <= index < all.len() ==> (#[trigger] all[index]).0 != id
}

/// Whether the entry at `index` has the given ID, and no other entry has.
pub open spec fn holds_at(all: Seq<Entry>, id: Seq<char>, index: int) -> bool {
    &&& 0 <= index < all.len()
    &&& all[index].0 == id
    &&& forall|other: int| 0 <= other < all.len() && (#[trigger] all[other]).0 == id ==> other == index
}

/// `IndexMap::new`: the new map has no entries.
#[verifier::external_body]
pub(crate) fn new_id_map() -> (items: IdMap)
    ensures
        entries(items) == Seq::<Entry>::empty(),
{
    IndexMap::new()
}

/// `IndexMap::insert`: where the map has an entry with this ID, the entry keeps its
/// place and takes the new item, and the old item is returned.  Otherwise the new
/// entry becomes the last one, and nothing is returned.
#[verifier::external_body]
pub(crate) fn insert_item(items: &mut IdMap, id: String, item: AppLaunchItem) -> (replaced: Option<
    AppLaunchItem,
>)
    ensures
        match replaced {
            Some(previous) => exists|index: int|
                holds_at(entries(*old(items)), id@, index) && #[trigger] entries(*old(items))[index]
                    == entry_of(id@, previous) && entries(*final(items)) == entries(
                    *old(items),
                ).update(index, entry_of(id@, item)),
            None => lacks(entries(*old(items)), id@) && entries(*final(items)) == entries(
                *old(items),
            ).push(entry_of(id@, item)),
        },
{
    items.insert(id, item)
}

/// `IndexMap::len`: the number of entries.
#[verifier::external_body]
pub(crate) fn item_count(items: &IdMap) -> (count: usize)
    ensures
        count == entries(*items).len(),
{
    items.len()
}

/// `IndexMap::get_index`: the entry at `index`, which there is for every index below
/// the number of entries and for no other.
#[verifier::external_body]
pub(crate) fn item_at(items: &IdMap, index: usize) -> (entry: Option<(&String, &AppLaunchItem)>)
    ensures
        match entry {
            Some((id, item)) => index < entries(*items).len() && entries(*items)[index as int]
                == entry_of(id@, *item),
            None => index >= entries(*items).len(),
        },
{
    items.get_index(index)
}

/// `IndexMap::get_index_of`: the index of the one entry with the given ID, if there
/// is such an entry.
#[verifier::external_body]
pub(crate) fn index_of_item(items: &IdMap, id: &str) -> (found: Option<usize>)
    ensures
        match found {
            Some(index) => holds_at(entries(*items), id@, index as int),
            None => lacks(entries(*items), id@),
        },
{
    items.get_index_of(id)
}

} // verus!
