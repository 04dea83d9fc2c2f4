//! The durable substrate: memory regions, the id counter cell and the record map.
use ic_stable_structures::memory_manager::VirtualMemory;
use ic_stable_structures::{Cell, DefaultMemoryImpl, StableBTreeMap};
use vstd::prelude::*;

verus! {

/// Why `Cell::set` could not write the counter region.
#[verifier::external_type_specification]
#[verifier::external_body]
pub struct ExCellValueError(ic_stable_structures::cell::ValueError);

// The outside types below carry `Memory` and `Storable` bounds that cannot be
// declared here, so each is held in a field that only the wrappers read. Opening the
// durable memory that already holds a board (the region table, `Cell::init`,
// `BTreeMap::init`) is bootstrap and happens in the embedding program, which fills
// these fields; a layout it cannot load stops it before a board exists.

/// One independently addressable durable region.
#[verifier::external_body]
pub struct Region {
    pub memory: VirtualMemory<DefaultMemoryImpl>,
}

/// The durable id counter: one `u64` kept in its own region.
#[verifier::external_body]
pub struct CounterCell {
    pub cell: Cell<u64, VirtualMemory<DefaultMemoryImpl>>,
}

/// The durable record map: id to encoded record bytes, ordered by id.
#[verifier::external_body]
pub struct RecordMap {
    pub map: StableBTreeMap<u64, Vec<u8>, VirtualMemory<DefaultMemoryImpl>>,
}

/// A map with no entries.
pub open spec fn no_entries() -> Map<u64, Seq<u8>> {
    Map::empty()
}

/// The value that a counter cell holds.
pub uninterp spec fn cell_value(c: CounterCell) -> u64;

/// The entries that a record map holds.
pub uninterp spec fn map_contents(m: RecordMap) -> Map<u64, Seq<u8>>;

/// Relies on `Cell::new`: writes `value` over whatever the region held; on success the
/// cell holds `value`.
#[verifier::external_body]
pub(crate) fn cell_new(region: Region, value: u64) -> (r: Result<
    CounterCell,
    ic_stable_structures::cell::ValueError,
>)
    ensures
        r matches Ok(c) ==> cell_value(c) == value,
{
    Cell::new(region.memory, value).map(|cell| CounterCell { cell })
}

/// Relies on `Cell::get`: the value held.
#[verifier::external_body]
pub(crate) fn cell_get(c: &CounterCell) -> (r: u64)
    ensures
        r == cell_value(*c),
{
    *c.cell.get()
}

/// Relies on `Cell::set`: on success the cell holds `v`; on failure it is left as it was.
#[verifier::external_body]
pub(crate) fn cell_set(c: &mut CounterCell, v: u64) -> (r: Result<
    u64,
    ic_stable_structures::cell::ValueError,
>)
    ensures
        r is Ok ==> cell_value(*final(c)) == v,
        r is Err ==> cell_value(*final(c)) == cell_value(*old(c)),
{
    c.cell.set(v)
}

/// Relies on `BTreeMap::new`: a new, empty map written over whatever the region held.
#[verifier::external_body]
pub(crate) fn map_new(region: Region) -> (r: RecordMap)
    ensures
        map_contents(r) == no_entries(),
{
    RecordMap { map: StableBTreeMap::new(region.memory) }
}

/// Relies on `BTreeMap::get`: the value under `key`, if any.
#[verifier::external_body]
pub(crate) fn map_get(m: &RecordMap, key: u64) -> (r: Option<Vec<u8>>)
    ensures
        match r {
            Some(v) => map_contents(*m).contains_key(key) && v@ == map_contents(*m)[key],
            None => !map_contents(*m).contains_key(key),
        },
{
    m.map.get(&key)
}

/// Relies on `BTreeMap::insert`: `key` maps to `value` afterwards, the rest is kept,
/// and the value it replaced is returned.
#[verifier::external_body]
pub(crate) fn map_insert(m: &mut RecordMap, key: u64, value: Vec<u8>) -> (r: Option<Vec<u8>>)
    ensures
        map_contents(*final(m)) == map_contents(*old(m)).insert(key, value@),
        map_contents(*old(m)).dom().finite() ==> map_contents(*final(m)).dom().finite(),
        match r {
            Some(v) => map_contents(*old(m)).contains_key(key) && v@ == map_contents(
                *old(m),
            )[key],
            None => !map_contents(*old(m)).contains_key(key),
        },
{
    m.map.insert(key, value)
}

/// Relies on `BTreeMap::remove`: `key` is gone afterwards, the rest is kept, and the
/// value it held is returned.
#[verifier::external_body]
pub(crate) fn map_remove(m: &mut RecordMap, key: u64) -> (r: Option<Vec<u8>>)
    ensures
        map_contents(*final(m)) == map_contents(*old(m)).remove(key),
        map_contents(*old(m)).dom().finite() ==> map_contents(*final(m)).dom().finite(),
        match r {
            Some(v) => map_contents(*old(m)).contains_key(key) && v@ == map_contents(
                *old(m),
            )[key],
            None => !map_contents(*old(m)).contains_key(key),
        },
{
    m.map.remove(&key)
}

} // verus!
