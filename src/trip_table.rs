use vstd::prelude::*;
use indexmap::IndexMap;
use crate::date::ServiceDate;
use crate::feed::TripUpdate;

verus! {

#[verifier::external_type_specification]
#[verifier::external_body]
#[verifier::reject_recursive_types(K)]
#[verifier::reject_recursive_types(V)]
#[verifier::reject_recursive_types(S)]
pub struct ExIndexMap<K, V, S>(IndexMap<K, V, S>);

/// The trip updates of one trip id, each under its service date.
pub type DatedUpdates = Vec<(ServiceDate, TripUpdate)>;

/// Trip updates keyed by trip id, so that a lookup takes a borrowed `&str`.
pub type TripTable = IndexMap<String, DatedUpdates>;

/// What a trip table holds: for each trip id, its dated updates.
pub uninterp spec fn table_entries(t: TripTable) -> Map<Seq<char>, Seq<(ServiceDate, TripUpdate)>>;

/// Relies on `IndexMap::new`: a new map is empty.
#[verifier::external_body]
pub(crate) fn table_new() -> (r: TripTable)
    ensures
        forall|k: Seq<char>| !(#[trigger] table_entries(r).contains_key(k)),
{
    IndexMap::new()
}

/// Relies on `IndexMap::clear`: it removes every entry.
#[verifier::external_body]
pub(crate) fn table_clear(t: &mut TripTable)
    ensures
        forall|k: Seq<char>| !(#[trigger] table_entries(*final(t)).contains_key(k)),
{
    t.clear()
}

/// Relies on `IndexMap::get`: the value stored under the key, if any.
#[verifier::external_body]
pub(crate) fn table_get<'a>(t: &'a TripTable, id: &str) -> (r: Option<&'a DatedUpdates>)
    ensures
        match r {
            Some(v) => table_entries(*t).contains_key(id@) && v@ == table_entries(*t)[id@],
            None => !table_entries(*t).contains_key(id@),
        },
{
    t.get(id)
}

/// Relies on `IndexMap::swap_remove`: it removes the key's entry and hands
/// back its value.
#[verifier::external_body]
pub(crate) fn table_take(t: &mut TripTable, id: &str) -> (r: Option<DatedUpdates>)
    ensures
        table_entries(*final(t)) == table_entries(*old(t)).remove(id@),
        match r {
            Some(v) => table_entries(*old(t)).contains_key(id@) && v@ == table_entries(*old(t))[id@],
            None => !table_entries(*old(t)).contains_key(id@),
        },
{
    t.swap_remove(id)
}

/// Relies on `IndexMap::insert`: afterwards the key maps to the value and
/// every other key is unchanged.
#[verifier::external_body]
pub(crate) fn table_put(t: &mut TripTable, id: String, v: DatedUpdates)
    ensures
        table_entries(*final(t)) == table_entries(*old(t)).insert(id@, v@),
{
    t.insert(id, v);
}

} // verus!
