//! The top-level storage format, its mathematical view, and its invariants.
use vstd::prelude::*;
use vstd::set_lib::{set_int_range, lemma_int_range, lemma_len_subset};
use crate::models::{Filament, Location, Spool, SpoolView};

verus! {

/// The schema version this library reads and writes.
pub const SCHEMA_VERSION: u32 = 2;

/// DataStore schema version, stored in the JSON file meta block.
#[derive(Clone, Copy, Debug, PartialEq, Eq, Structural)]
pub struct StoreMeta {
    pub schema_version: u32,
}

impl Default for StoreMeta {
    fn default() -> (r: Self)
        ensures
            r.schema_version == SCHEMA_VERSION,
    {
        StoreMeta { schema_version: SCHEMA_VERSION }
    }
}

/// Top-level storage format.
#[derive(Debug)]
pub struct DataStore {
    pub meta: StoreMeta,
    pub filaments: Vec<Filament>,
    pub spools: Vec<Spool>,
    pub locations: Vec<Location>,
    /// Key-value settings (e.g. "currency_symbol" → "€"), in insertion order;
    /// when a key occurs more than once, its last pair counts.
    pub settings: Vec<(String, String)>,
}

/// The settings pairs read as a map, a later pair overriding an earlier one.
pub open spec fn settings_map(pairs: Seq<(String, String)>) -> Map<Seq<char>, Seq<char>>
    decreases pairs.len(),
{
    if pairs.len() == 0 {
        Map::empty()
    } else {
        settings_map(pairs.drop_last()).insert(pairs.last().0@, pairs.last().1@)
    }
}

/// The store as a mathematical value.
pub struct StoreView {
    pub schema_version: u32,
    pub filaments: Seq<Filament>,
    pub spools: Seq<SpoolView>,
    pub locations: Seq<Location>,
    pub settings: Map<Seq<char>, Seq<char>>,
}

impl View for DataStore {
    type V = StoreView;

    open spec fn view(&self) -> StoreView {
        StoreView {
            schema_version: self.meta.schema_version,
            filaments: self.filaments@,
            spools: spool_views(self.spools@),
            locations: self.locations@,
            settings: settings_map(self.settings@),
        }
    }
}

/// The views of a sequence of spools.
pub open spec fn spool_views(s: Seq<Spool>) -> Seq<SpoolView> {
    s.map_values(|x: Spool| x@)
}

/// The ids of filaments, in order.
pub open spec fn filament_ids(s: Seq<Filament>) -> Seq<u32> {
    s.map_values(|x: Filament| x.id)
}

/// The ids of spools, in order.
pub open spec fn spool_ids(s: Seq<SpoolView>) -> Seq<u32> {
    s.map_values(|x: SpoolView| x.id)
}

/// The ids of locations, in order.
pub open spec fn location_ids(s: Seq<Location>) -> Seq<u32> {
    s.map_values(|x: Location| x.id)
}

/// `k` is the first position of `id` in `ids`.
pub open spec fn is_first_index(ids: Seq<u32>, id: u32, k: int) -> bool {
    &&& 0 <= k < ids.len()
    &&& ids[k] == id
    &&& forall|j: int| 0 <= j < k ==> ids[j] != id
}

/// `k` is the last position of `id` in `ids`.
pub open spec fn is_last_index(ids: Seq<u32>, id: u32, k: int) -> bool {
    &&& 0 <= k < ids.len()
    &&& ids[k] == id
    &&& forall|j: int| k < j < ids.len() ==> ids[j] != id
}

/// The first position of `id` in `ids`, if it occurs.
pub open spec fn first_index_of(ids: Seq<u32>, id: u32) -> Option<int> {
    if exists|k: int| is_first_index(ids, id, k) {
        Some(choose|k: int| is_first_index(ids, id, k))
    } else {
        None
    }
}

/// The last position of `id` in `ids`, if it occurs.
pub open spec fn last_index_of(ids: Seq<u32>, id: u32) -> Option<int> {
    if exists|k: int| is_last_index(ids, id, k) {
        Some(choose|k: int| is_last_index(ids, id, k))
    } else {
        None
    }
}

/// A first position found is the first position.
pub proof fn lemma_first_index(ids: Seq<u32>, id: u32, k: int)
    requires
        is_first_index(ids, id, k),
    ensures
        first_index_of(ids, id) == Some(k),
{
    let c = choose|c: int| is_first_index(ids, id, c);
    assert(is_first_index(ids, id, c));
    if c < k {
        assert(ids[c] != id);
    } else if c > k {
        assert(ids[k] != id);
    }
}

/// A last position found is the last position.
pub proof fn lemma_last_index(ids: Seq<u32>, id: u32, k: int)
    requires
        is_last_index(ids, id, k),
    ensures
        last_index_of(ids, id) == Some(k),
{
    let c = choose|c: int| is_last_index(ids, id, c);
    assert(is_last_index(ids, id, c));
    if c < k {
        assert(ids[k] != id);
    } else if c > k {
        assert(ids[c] != id);
    }
}

/// When `id` occurs, its first position exists.
pub proof fn lemma_first_index_exists(ids: Seq<u32>, id: u32, w: int)
    requires
        0 <= w < ids.len(),
        ids[w] == id,
    ensures
        first_index_of(ids, id) is Some,
        is_first_index(ids, id, first_index_of(ids, id)->0),
    decreases w,
{
    if exists|j: int| 0 <= j < w && ids[j] == id {
        let j = choose|j: int| 0 <= j < w && ids[j] == id;
        lemma_first_index_exists(ids, id, j);
    } else {
        lemma_first_index(ids, id, w);
    }
}

/// When `id` occurs, its last position exists.
pub proof fn lemma_last_index_exists(ids: Seq<u32>, id: u32, w: int)
    requires
        0 <= w < ids.len(),
        ids[w] == id,
    ensures
        last_index_of(ids, id) is Some,
        is_last_index(ids, id, last_index_of(ids, id)->0),
    decreases ids.len() - w,
{
    if exists|j: int| w < j < ids.len() && ids[j] == id {
        let j = choose|j: int| w < j < ids.len() && ids[j] == id;
        lemma_last_index_exists(ids, id, j);
    } else {
        lemma_last_index(ids, id, w);
    }
}

/// When `id` does not occur, it has no position.
pub proof fn lemma_index_absent(ids: Seq<u32>, id: u32)
    requires
        !ids.contains(id),
    ensures
        first_index_of(ids, id) is None,
        last_index_of(ids, id) is None,
{
    if exists|k: int| is_first_index(ids, id, k) {
        let k = choose|k: int| is_first_index(ids, id, k);
        assert(ids[k] == id);
    }
    if exists|k: int| is_last_index(ids, id, k) {
        let k = choose|k: int| is_last_index(ids, id, k);
        assert(ids[k] == id);
    }
}

/// If all of `1..=m` occur among `ids`, then `ids` has at least `m` entries.
pub proof fn lemma_ids_cover_range(ids: Seq<u32>, m: int)
    requires
        0 <= m,
        forall|j: u32| 1 <= j <= m ==> #[trigger] ids.contains(j),
        m <= u32::MAX,
    ensures
        m <= ids.len(),
{
    let s = ids.map_values(|x: u32| x as int);
    assert(set_int_range(1, m + 1).subset_of(s.to_set())) by {
        assert forall|j: int| set_int_range(1, m + 1).contains(j) implies s.to_set().contains(j) by {
            assert(ids.contains(j as u32));
            let k = choose|k: int| 0 <= k < ids.len() && ids[k] == j as u32;
            assert(s[k] == j);
        }
    }
    lemma_int_range(1, m + 1);
    s.lemma_cardinality_of_set();
    lemma_len_subset(set_int_range(1, m + 1), s.to_set());
}

impl StoreView {
    /// The first filament with `id`.
    pub open spec fn find_filament(self, id: u32) -> Option<Filament> {
        match first_index_of(filament_ids(self.filaments), id) {
            Some(k) => Some(self.filaments[k]),
            None => None,
        }
    }

    /// The first spool with `id`.
    pub open spec fn find_spool(self, id: u32) -> Option<SpoolView> {
        match first_index_of(spool_ids(self.spools), id) {
            Some(k) => Some(self.spools[k]),
            None => None,
        }
    }

    /// The first location with `id`.
    pub open spec fn find_location(self, id: u32) -> Option<Location> {
        match first_index_of(location_ids(self.locations), id) {
            Some(k) => Some(self.locations[k]),
            None => None,
        }
    }

    /// The number of spools stored at location `id`.
    pub open spec fn spool_count(self, id: u32) -> nat {
        self.spools.filter(|s: SpoolView| s.location_id == Some(id)).len()
    }

    /// Ids are unique within each kind of record, every spool's filament exists,
    /// and every spool's location, when it has one, exists.
    pub open spec fn well_formed(self) -> bool {
        &&& filament_ids(self.filaments).no_duplicates()
        &&& spool_ids(self.spools).no_duplicates()
        &&& location_ids(self.locations).no_duplicates()
        &&& forall|i: int|
            0 <= i < self.spools.len() ==> filament_ids(self.filaments).contains(
                #[trigger] self.spools[i].filament_id,
            )
        &&& forall|i: int|
            0 <= i < self.spools.len() ==> (#[trigger] self.spools[i].location_id matches Some(l)
                ==> location_ids(self.locations).contains(l))
    }
}

} // verus!

verus! {

/// One step of filtering a prefix: the next item is kept exactly when it passes.
pub proof fn lemma_filter_step<A>(s: Seq<A>, p: spec_fn(A) -> bool, i: int)
    requires
        0 <= i < s.len(),
    ensures
        s.take(i + 1).filter(p) == (if p(s[i]) {
            s.take(i).filter(p).push(s[i])
        } else {
            s.take(i).filter(p)
        }),
{
    reveal(Seq::filter);
    assert(s.take(i + 1).drop_last() =~= s.take(i));
}

/// Filtering the whole of `s` is filtering its full prefix.
pub proof fn lemma_take_all<A>(s: Seq<A>)
    ensures
        s.take(s.len() as int) == s,
{
    assert(s.take(s.len() as int) =~= s);
}

} // verus!

verus! {

/// The positions in `s` of the items that `s.filter(p)` keeps, in increasing order.
pub proof fn filter_positions<A>(s: Seq<A>, p: spec_fn(A) -> bool) -> (idx: Seq<int>)
    ensures
        idx.len() == s.filter(p).len(),
        forall|k: int| 0 <= k < idx.len() ==> 0 <= #[trigger] idx[k] < s.len(),
        forall|k: int| 0 <= k < idx.len() ==> s.filter(p)[k] == s[#[trigger] idx[k]],
        forall|k1: int, k2: int| 0 <= k1 < k2 < idx.len() ==> #[trigger] idx[k1] < #[trigger] idx[k2],
    decreases s.len(),
{
    reveal(Seq::filter);
    if s.len() == 0 {
        Seq::empty()
    } else {
        let rest = filter_positions(s.drop_last(), p);
        if p(s.last()) {
            rest.push(s.len() - 1)
        } else {
            rest
        }
    }
}

/// Filtering keeps ids unique.
pub proof fn lemma_filter_unique_ids<A>(s: Seq<A>, p: spec_fn(A) -> bool, id_of: spec_fn(A) -> u32)
    requires
        s.map_values(id_of).no_duplicates(),
    ensures
        s.filter(p).map_values(id_of).no_duplicates(),
{
    let idx = filter_positions(s, p);
    let f = s.filter(p);
    assert forall|i: int, j: int|
        0 <= i < f.len() && 0 <= j < f.len() && i != j implies f.map_values(id_of)[i]
        != f.map_values(id_of)[j] by {
        if i < j {
            assert(idx[i] < idx[j]);
        } else {
            assert(idx[j] < idx[i]);
        }
        assert(f.map_values(id_of)[i] == s.map_values(id_of)[idx[i]]);
        assert(f.map_values(id_of)[j] == s.map_values(id_of)[idx[j]]);
    }
}

/// An item that passes the filter is kept.
pub proof fn lemma_filter_keeps<A>(s: Seq<A>, p: spec_fn(A) -> bool, i: int)
    requires
        0 <= i < s.len(),
        p(s[i]),
    ensures
        s.filter(p).contains(s[i]),
{
    s.lemma_filter_contains(p, i);
}

/// Every item the filter keeps passes it and is an item of `s`.
pub proof fn lemma_filter_kept<A>(s: Seq<A>, p: spec_fn(A) -> bool, k: int)
    requires
        0 <= k < s.filter(p).len(),
    ensures
        p(s.filter(p)[k]),
        s.contains(s.filter(p)[k]),
{
    s.lemma_filter_pred(p, k);
    let idx = filter_positions(s, p);
    assert(s.filter(p)[k] == s[idx[k]]);
}

/// The filter keeps everything exactly when every item passes.
pub proof fn lemma_filter_all<A>(s: Seq<A>, p: spec_fn(A) -> bool)
    requires
        forall|i: int| 0 <= i < s.len() ==> p(#[trigger] s[i]),
    ensures
        s.filter(p) == s,
    decreases s.len(),
{
    reveal(Seq::filter);
    if s.len() > 0 {
        lemma_filter_all(s.drop_last(), p);
        assert(s.drop_last().push(s.last()) =~= s);
    }
}

} // verus!

verus! {

/// The view of an empty store at the current schema version.
pub open spec fn empty_store_view() -> StoreView {
    StoreView {
        schema_version: SCHEMA_VERSION,
        filaments: Seq::empty(),
        spools: Seq::empty(),
        locations: Seq::empty(),
        settings: Map::empty(),
    }
}

impl Default for DataStore {
    fn default() -> (r: Self)
        ensures
            r@ == empty_store_view(),
    {
        let r = DataStore {
            meta: StoreMeta::default(),
            filaments: Vec::new(),
            spools: Vec::new(),
            locations: Vec::new(),
            settings: Vec::new(),
        };
        assert(r@.spools =~= Seq::<SpoolView>::empty());
        assert(r@.settings =~= Map::<Seq<char>, Seq<char>>::empty());
        r
    }
}

/// Copy of settings pairs.
pub fn clone_settings(pairs: &Vec<(String, String)>) -> (r: Vec<(String, String)>)
    ensures
        r@ == pairs@,
{
    let mut r: Vec<(String, String)> = Vec::new();
    let mut i: usize = 0;
    while i < pairs.len()
        invariant
            i <= pairs.len(),
            r@ == pairs@.take(i as int),
        decreases pairs.len() - i,
    {
        let p = (pairs[i].0.clone(), pairs[i].1.clone());
        r.push(p);
        i = i + 1;
        assert(r@ =~= pairs@.take(i as int));
    }
    assert(pairs@.take(pairs.len() as int) =~= pairs@);
    r
}

impl Clone for DataStore {
    fn clone(&self) -> (r: Self)
        ensures
            r@ == self@,
    {
        let filaments = self.filaments.clone();
        let spools = self.spools.clone();
        let locations = self.locations.clone();
        assert(filaments@ =~= self.filaments@);
        assert(spool_views(spools@) =~= spool_views(self.spools@));
        assert(locations@ =~= self.locations@);
        DataStore {
            meta: self.meta,
            filaments,
            spools,
            locations,
            settings: clone_settings(&self.settings),
        }
    }
}

/// The pairs whose key is not `k`.
pub open spec fn other_key(k: Seq<char>) -> spec_fn((String, String)) -> bool {
    |p: (String, String)| p.0@ != k
}

/// Dropping every pair for `k` removes `k` from the settings map.
pub proof fn lemma_settings_without(pairs: Seq<(String, String)>, k: Seq<char>)
    ensures
        settings_map(pairs.filter(other_key(k))) == settings_map(pairs).remove(k),
    decreases pairs.len(),
{
    reveal(Seq::filter);
    let keep = other_key(k);
    if pairs.len() == 0 {
        assert(settings_map(pairs).remove(k) =~= Map::empty());
    } else {
        lemma_settings_without(pairs.drop_last(), k);
        let rest = pairs.drop_last().filter(keep);
        if keep(pairs.last()) {
            assert(rest.push(pairs.last()).drop_last() =~= rest);
            assert(settings_map(rest.push(pairs.last())) =~= settings_map(pairs).remove(k));
        } else {
            assert(settings_map(pairs).remove(k) =~= settings_map(pairs.drop_last()).remove(k));
        }
    }
}

} // verus!
