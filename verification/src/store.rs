//! The JSON-backed data store: every query and update on its records.
//!
//! `JsonStore` holds the store in memory. Reading the data file, writing it
//! back after each successful update, and sharing the store between request
//! handlers are done by the program around this library.
use vstd::prelude::*;
use crate::clock::{Timestamp, now, rfc3339, chrono_rfc3339};
use crate::datastore::{
    DataStore, StoreMeta, StoreView, SCHEMA_VERSION, filament_ids, spool_ids, location_ids,
    spool_views, is_first_index, is_last_index, lemma_first_index, lemma_last_index,
    lemma_index_absent, lemma_ids_cover_range, lemma_filter_step, lemma_take_all,
    lemma_filter_unique_ids, lemma_filter_keeps, lemma_filter_kept, lemma_filter_all,
    lemma_settings_without, settings_map, empty_store_view,
};
use crate::material::MaterialType;
use crate::models::{
    Filament, Location, LocationResponse, Quantity, Rgba, Spool, SpoolResponse, SpoolView,
    clone_colors, clone_opt_material, clone_opt_string,
};
use crate::random::random_id;
use crate::requests::{
    CreateFilament, CreateLocation, CreateSpool, UpdateFilament, UpdateLocation, UpdateSpool,
};
use crate::sorting::{
    is_stable_sort, key_views, paginate, sort_by_keys, spec_paginate, strictly_increasing,
};
use crate::text::{
    ascii_lower, chars_eq, chars_lt, chars_of, decimal, decimal_chars, is_blank, lemma_seq_lt_irreflexive,
    lemma_seq_lt_total, lemma_seq_lt_transitive, push_str, seq_lt, spec_is_blank, str_eq,
    string_from_chars, zero_padded, zero_padded_10,
};

verus! {

#[verifier::external_type_specification]
#[verifier::external_body]
pub struct ExIoError(std::io::Error);

#[verifier::external_type_specification]
#[verifier::external_body]
pub struct ExJsonError(serde_json::Error);

/// Why a store operation failed.
#[derive(Debug)]
pub enum StoreError {
    /// No record has the requested id.
    NotFound,
    /// The record is still referenced by other records.
    Conflict(String),
    /// The request is malformed.
    Validation(String),
    /// Reading or writing the data file failed.
    Io(std::io::Error),
    /// The data file is not valid JSON for a data store.
    Json(serde_json::Error),
}

/// Filters, sort order and page for listing spools.
pub struct SpoolFilter<'a> {
    pub filament_id: Option<u32>,
    pub location_id: Option<u32>,
    pub allow_archived: bool,
    pub sort: Option<&'a str>,
    pub order: Option<&'a str>,
    pub offset: usize,
    pub limit: Option<usize>,
}

/// The data store held in memory, with the path of its data file and the
/// runtime flags from the server configuration.
pub struct JsonStore {
    data: DataStore,
    path: String,
    automatic_backup: bool,
    debug_mode: bool,
}

impl View for JsonStore {
    type V = StoreView;

    closed spec fn view(&self) -> StoreView {
        self.data@
    }
}

// ── Spec helpers ──────────────────────────────────────────────────────────────

/// `Some(v)` replaces the field, `None` leaves it unchanged.
pub open spec fn updated<T>(field: Option<T>, value: Option<T>) -> Option<T> {
    match value {
        Some(v) => Some(v),
        None => field,
    }
}

/// Like `updated`, but an empty string clears the field.
pub open spec fn updated_nullable(field: Option<String>, value: Option<String>) -> Option<String> {
    match value {
        Some(v) => if v@.len() == 0 {
            None
        } else {
            Some(v)
        },
        None => field,
    }
}

/// The sort key of an instant: its RFC 3339 text (empty if chrono rejects it).
pub open spec fn timestamp_key(t: Timestamp) -> Seq<char> {
    match chrono_rfc3339(t.secs, t.nanos) {
        Some(s) => s,
        None => Seq::empty(),
    }
}


/// Whether `order` asks for descending order: absent, or "desc" in any ASCII case.
pub open spec fn spec_order_is_desc(order: Option<&str>) -> bool {
    match order {
        None => true,
        Some(o) => o@.len() == 4 && ascii_lower(o@[0]) == 'd' && ascii_lower(o@[1]) == 'e'
            && ascii_lower(o@[2]) == 's' && ascii_lower(o@[3]) == 'c',
    }
}

/// The sort field: `sort`, or "registered" when absent.
pub open spec fn sort_field(sort: Option<&str>) -> Seq<char> {
    match sort {
        Some(s) => s@,
        None => "registered"@,
    }
}

/// The text of `id` in a conflict message: "[1, 2]".
pub open spec fn id_list(ids: Seq<u32>) -> Seq<char> {
    seq!['['] + joined_ids(ids) + seq![']']
}

/// Decimal ids joined by ", ".
pub open spec fn joined_ids(ids: Seq<u32>) -> Seq<char>
    decreases ids.len(),
{
    if ids.len() == 0 {
        Seq::empty()
    } else if ids.len() == 1 {
        decimal(ids[0] as nat)
    } else {
        joined_ids(ids.drop_last()) + seq![',', ' '] + decimal(ids.last() as nat)
    }
}

/// The message of the conflict raised when `entity` is still referenced by the spools `refs`.
pub open spec fn conflict_message(entity: Seq<char>, refs: Seq<u32>) -> Seq<char> {
    entity + " is referenced by spools: "@ + id_list(refs)
}

// ── Exec helpers ──────────────────────────────────────────────────────────────

/// Whether `id` occurs in `ids`.
fn contains_id(ids: &Vec<u32>, id: u32) -> (r: bool)
    ensures
        r == ids@.contains(id),
{
    let mut i: usize = 0;
    while i < ids.len()
        invariant
            i <= ids.len(),
            forall|j: int| 0 <= j < i ==> ids@[j] != id,
        decreases ids.len() - i,
    {
        if ids[i] == id {
            return true;
        }
        i = i + 1;
    }
    false
}

/// A random id in `1..=u32::MAX` not already in `existing`.
///
/// Ids are drawn at random until one is free. After a long run of collisions,
/// which practically never happens, the smallest free id is taken instead, so
/// that the search is sure to end.
fn new_id(existing: &Vec<u32>) -> (r: u32)
    requires
        existing.len() < u32::MAX,
    ensures
        r >= 1,
        !existing@.contains(r),
{
    let mut tries: usize = 0;
    while tries < 64
        decreases 64 - tries,
    {
        let id = random_id();
        if !contains_id(existing, id) {
            return id;
        }
        tries = tries + 1;
    }
    let mut c: u32 = 1;
    while contains_id(existing, c)
        invariant
            1 <= c <= existing.len() + 1,
            existing.len() < u32::MAX,
            forall|j: u32| 1 <= j < c ==> #[trigger] existing@.contains(j),
        decreases existing.len() + 1 - c,
    {
        proof {
            assert forall|j: u32| 1 <= j <= c implies #[trigger] existing@.contains(j) by {}
            lemma_ids_cover_range(existing@, c as int);
        }
        c = c + 1;
    }
    c
}

/// The ids of `fs`.
fn collect_filament_ids(fs: &Vec<Filament>) -> (r: Vec<u32>)
    ensures
        r@ == filament_ids(fs@),
{
    let mut r: Vec<u32> = Vec::new();
    let mut i: usize = 0;
    while i < fs.len()
        invariant
            i <= fs.len(),
            r@ == filament_ids(fs@).take(i as int),
        decreases fs.len() - i,
    {
        r.push(fs[i].id);
        i = i + 1;
        assert(r@ =~= filament_ids(fs@).take(i as int));
    }
    assert(r@ =~= filament_ids(fs@));
    r
}

/// The ids of `ss`.
fn collect_spool_ids(ss: &Vec<Spool>) -> (r: Vec<u32>)
    ensures
        r@ == spool_ids(spool_views(ss@)),
{
    let mut r: Vec<u32> = Vec::new();
    let mut i: usize = 0;
    while i < ss.len()
        invariant
            i <= ss.len(),
            r@ == spool_ids(spool_views(ss@)).take(i as int),
        decreases ss.len() - i,
    {
        r.push(ss[i].id);
        i = i + 1;
        assert(r@ =~= spool_ids(spool_views(ss@)).take(i as int));
    }
    assert(r@ =~= spool_ids(spool_views(ss@)));
    r
}

/// The ids of `ls`.
fn collect_location_ids(ls: &Vec<Location>) -> (r: Vec<u32>)
    ensures
        r@ == location_ids(ls@),
{
    let mut r: Vec<u32> = Vec::new();
    let mut i: usize = 0;
    while i < ls.len()
        invariant
            i <= ls.len(),
            r@ == location_ids(ls@).take(i as int),
        decreases ls.len() - i,
    {
        r.push(ls[i].id);
        i = i + 1;
        assert(r@ =~= location_ids(ls@).take(i as int));
    }
    assert(r@ =~= location_ids(ls@));
    r
}

/// The first position of `id` among the ids `ids`, if any.
fn first_position(ids: &Vec<u32>, id: u32) -> (r: Option<usize>)
    ensures
        match r {
            Some(k) => is_first_index(ids@, id, k as int),
            None => !ids@.contains(id),
        },
{
    let mut i: usize = 0;
    while i < ids.len()
        invariant
            i <= ids.len(),
            forall|j: int| 0 <= j < i ==> ids@[j] != id,
        decreases ids.len() - i,
    {
        if ids[i] == id {
            return Some(i);
        }
        i = i + 1;
    }
    None
}

/// The last position of `id` among the ids `ids`, if any.
fn last_position(ids: &Vec<u32>, id: u32) -> (r: Option<usize>)
    ensures
        match r {
            Some(k) => is_last_index(ids@, id, k as int),
            None => !ids@.contains(id),
        },
{
    let mut i: usize = ids.len();
    while i > 0
        invariant
            i <= ids.len(),
            forall|j: int| i <= j < ids.len() ==> ids@[j] != id,
        decreases i,
    {
        if ids[i - 1] == id {
            return Some(i - 1);
        }
        i = i - 1;
    }
    None
}

/// Whether `order` asks for descending order (absent, or "desc" in any ASCII case).
fn order_is_desc(order: Option<&str>) -> (r: bool)
    ensures
        r == spec_order_is_desc(order),
{
    match order {
        None => true,
        Some(o) => {
            let cs = chars_of(o);
            if cs.len() != 4 {
                return false;
            }
            let lower = |c: char| -> (l: char)
                ensures
                    l == ascii_lower(c),
                {
                    if 'A' <= c && c <= 'Z' {
                        ((c as u8) + 32) as char
                    } else {
                        c
                    }
                };
            lower(cs[0]) == 'd' && lower(cs[1]) == 'e' && lower(cs[2]) == 's' && lower(cs[3])
                == 'c'
        },
    }
}

/// The sort key of an instant.
fn timestamp_key_chars(t: Timestamp) -> (r: Vec<char>)
    ensures
        r@ == timestamp_key(t),
{
    match rfc3339(t) {
        Some(s) => chars_of(s.as_str()),
        None => Vec::new(),
    }
}

/// The characters of an optional string; none when absent.
fn opt_chars(s: &Option<String>) -> (r: Vec<char>)
    ensures
        r@ == (match s {
            Some(v) => v@,
            None => Seq::<char>::empty(),
        }),
{
    match s {
        Some(v) => chars_of(v.as_str()),
        None => Vec::new(),
    }
}

/// The conflict error for `entity` referenced by the spools `refs`.
fn conflict(entity: &str, refs: &Vec<u32>) -> (r: StoreError)
    ensures
        r matches StoreError::Conflict(m) && m@ == conflict_message(entity@, refs@),
{
    let mut out: Vec<char> = Vec::new();
    push_str(&mut out, entity);
    push_str(&mut out, " is referenced by spools: ");
    let ghost prefix = out@;
    out.push('[');
    let mut i: usize = 0;
    while i < refs.len()
        invariant
            i <= refs.len(),
            out@ == prefix + seq!['['] + joined_ids(refs@.take(i as int)),
        decreases refs.len() - i,
    {
        let ghost before = out@;
        if i > 0 {
            out.push(',');
            out.push(' ');
        }
        let d = decimal_chars(refs[i]);
        let mut k: usize = 0;
        let ghost mid = out@;
        while k < d.len()
            invariant
                k <= d.len(),
                out@ == mid + d@.take(k as int),
            decreases d.len() - k,
        {
            out.push(d[k]);
            k = k + 1;
            assert(out@ =~= mid + d@.take(k as int));
        }
        assert(d@.take(d.len() as int) =~= d@);
        assert(refs@.take(i + 1).drop_last() =~= refs@.take(i as int));
        if i == 0 {
            assert(joined_ids(refs@.take(1)) == decimal(refs@[0] as nat));
        }
        assert(out@ =~= prefix + seq!['['] + joined_ids(refs@.take(i + 1)));
        i = i + 1;
    }
    out.push(']');
    assert(refs@.take(refs.len() as int) =~= refs@);
    assert(out@ =~= entity@ + " is referenced by spools: "@ + id_list(refs@));
    StoreError::Conflict(string_from_chars(&out))
}

} // verus!

verus! {

// ── Filament specs ────────────────────────────────────────────────────────────

/// The filament that `create_filament` stores for `req`.
pub open spec fn new_filament(req: CreateFilament, id: u32, registered: Timestamp) -> Filament {
    Filament {
        id: id,
        manufacturer: req.manufacturer,
        material: req.material,
        material_modifier: req.material_modifier,
        diameter: req.diameter,
        net_weight: None,
        density: req.density,
        print_temp: req.print_temp,
        bed_temp: req.bed_temp,
        spool_weight: req.spool_weight,
        min_print_temp: req.min_print_temp,
        max_print_temp: req.max_print_temp,
        min_bed_temp: req.min_bed_temp,
        max_bed_temp: req.max_bed_temp,
        registered: registered,
        comment: req.comment,
    }
}

/// `f` with the fields that `req` sets replaced.
pub open spec fn updated_filament(f: Filament, req: UpdateFilament) -> Filament {
    Filament {
        id: f.id,
        manufacturer: updated(f.manufacturer, req.manufacturer),
        material: updated(f.material, req.material),
        material_modifier: updated(f.material_modifier, req.material_modifier),
        diameter: match req.diameter {
            Some(v) => v,
            None => f.diameter,
        },
        net_weight: f.net_weight,
        density: match req.density {
            Some(v) => v,
            None => f.density,
        },
        print_temp: updated(f.print_temp, req.print_temp),
        bed_temp: updated(f.bed_temp, req.bed_temp),
        spool_weight: updated(f.spool_weight, req.spool_weight),
        min_print_temp: updated(f.min_print_temp, req.min_print_temp),
        max_print_temp: updated(f.max_print_temp, req.max_print_temp),
        min_bed_temp: updated(f.min_bed_temp, req.min_bed_temp),
        max_bed_temp: updated(f.max_bed_temp, req.max_bed_temp),
        registered: f.registered,
        comment: updated(f.comment, req.comment),
    }
}

/// The ids of the spools whose filament is `id`, in store order.
pub open spec fn spools_of_filament(spools: Seq<SpoolView>, id: u32) -> Seq<u32> {
    spool_ids(spools.filter(|s: SpoolView| s.filament_id == id))
}

/// The ids of the spools stored at location `id`, in store order.
pub open spec fn spools_at_location(spools: Seq<SpoolView>, id: u32) -> Seq<u32> {
    spool_ids(spools.filter(|s: SpoolView| s.location_id == Some(id)))
}

/// `v` with its filaments replaced.
pub open spec fn with_filaments(v: StoreView, fs: Seq<Filament>) -> StoreView {
    StoreView { filaments: fs, ..v }
}

/// `v` with its spools replaced.
pub open spec fn with_spools(v: StoreView, ss: Seq<SpoolView>) -> StoreView {
    StoreView { spools: ss, ..v }
}

/// `v` with its locations replaced.
pub open spec fn with_locations(v: StoreView, ls: Seq<Location>) -> StoreView {
    StoreView { locations: ls, ..v }
}

/// Whether filament `f` passes the material filter.
pub open spec fn filament_has_material(f: Filament, material: Option<Seq<char>>) -> bool {
    match material {
        None => true,
        Some(m) => f.material matches Some(mt) && mt.spec_abbreviation() == m,
    }
}

/// The sort key of filament `f` for `field`.
pub open spec fn filament_sort_key(f: Filament, field: Seq<char>) -> Seq<char> {
    if field == "id"@ {
        zero_padded(f.id as nat, 10)
    } else if field == "manufacturer"@ {
        match f.manufacturer {
            Some(m) => m@,
            None => Seq::empty(),
        }
    } else if field == "material"@ {
        match f.material {
            Some(m) => m.spec_abbreviation(),
            None => Seq::empty(),
        }
    } else {
        timestamp_key(f.registered)
    }
}

/// The filaments that pass the material filter, in store order.
pub open spec fn matching_filaments(v: StoreView, material: Option<Seq<char>>) -> Seq<Filament> {
    v.filaments.filter(|f: Filament| filament_has_material(f, material))
}

/// Whether the spool passes the filter's archive, filament and location conditions.
pub open spec fn spool_passes(s: SpoolView, filter: SpoolFilter) -> bool {
    &&& (filter.allow_archived || !s.archived)
    &&& (filter.filament_id matches Some(fid) ==> s.filament_id == fid)
    &&& (filter.location_id matches Some(lid) ==> s.location_id == Some(lid))
}

// ── Migration ─────────────────────────────────────────────────────────────────

/// The net weight that schema v1 recorded on filament `fid` (the last filament with that id).
pub open spec fn legacy_net_weight(fs: Seq<Filament>, fid: u32) -> Option<Quantity> {
    match crate::datastore::last_index_of(filament_ids(fs), fid) {
        Some(k) => fs[k].net_weight,
        None => None,
    }
}

/// A filament with its legacy net weight dropped.
pub open spec fn without_net_weight(f: Filament) -> Filament {
    Filament { net_weight: None, ..f }
}

/// A spool given its filament's legacy net weight when it has none of its own.
pub open spec fn with_legacy_net_weight(s: SpoolView, fs: Seq<Filament>) -> SpoolView {
    if s.net_weight is None {
        SpoolView { net_weight: legacy_net_weight(fs, s.filament_id), ..s }
    } else {
        s
    }
}

/// The store after migration to the current schema.
///
/// v1 → v2 moves `net_weight` from each filament onto its referencing spools
/// (a spool's own net weight is kept), then drops it from the filaments.
pub open spec fn migrated(v: StoreView) -> StoreView {
    if v.schema_version < SCHEMA_VERSION {
        StoreView {
            schema_version: SCHEMA_VERSION,
            filaments: v.filaments.map_values(|f: Filament| without_net_weight(f)),
            spools: v.spools.map_values(|s: SpoolView| with_legacy_net_weight(s, v.filaments)),
            ..v
        }
    } else {
        v
    }
}

impl JsonStore {
    /// The path of the data file.
    pub closed spec fn spec_path(&self) -> Seq<char> {
        self.path@
    }

    /// Whether daily backups are enabled.
    pub closed spec fn spec_automatic_backup(&self) -> bool {
        self.automatic_backup
    }

    /// Whether debug mode is enabled.
    pub closed spec fn spec_debug_mode(&self) -> bool {
        self.debug_mode
    }

    /// Migrate `data` to the current schema version if needed. Returns whether
    /// it changed, in which case the data file is to be rewritten.
    pub fn migrate(data: &mut DataStore) -> (changed: bool)
        ensures
            final(data)@ == migrated(old(data)@),
            changed == (old(data)@.schema_version < SCHEMA_VERSION),
    {
        if data.meta.schema_version >= SCHEMA_VERSION {
            return false;
        }
        let ghost old_v = data@;
        let ids = collect_filament_ids(&data.filaments);
        let mut spools: Vec<Spool> = Vec::new();
        let mut i: usize = 0;
        while i < data.spools.len()
            invariant
                i <= data.spools.len(),
                data@ == old_v,
                ids@ == filament_ids(data.filaments@),
                spool_views(spools@) == spool_views(data.spools@).take(i as int).map_values(
                    |s: SpoolView| with_legacy_net_weight(s, data.filaments@),
                ),
            decreases data.spools.len() - i,
        {
            let mut s = data.spools[i].clone();
            if s.net_weight.is_none() {
                s.net_weight = match last_position(&ids, s.filament_id) {
                    Some(k) => {
                        proof {
                            lemma_last_index(ids@, s.filament_id, k as int);
                        }
                        data.filaments[k].net_weight
                    },
                    None => {
                        proof {
                            lemma_index_absent(ids@, s.filament_id);
                        }
                        None
                    },
                };
            }
            assert(s@ == with_legacy_net_weight(spool_views(data.spools@)[i as int], data.filaments@));
            let ghost prev = spools@;
            spools.push(s);
            proof {
                assert(spool_views(spools@) =~= spool_views(prev).push(s@));
                assert(spool_views(data.spools@).take(i + 1) =~= spool_views(data.spools@).take(
                    i as int,
                ).push(spool_views(data.spools@)[i as int]));
            }
            i = i + 1;
            assert(spool_views(spools@) =~= spool_views(data.spools@).take(i as int).map_values(
                |s: SpoolView| with_legacy_net_weight(s, data.filaments@),
            ));
        }
        let mut filaments: Vec<Filament> = Vec::new();
        let mut j: usize = 0;
        while j < data.filaments.len()
            invariant
                j <= data.filaments.len(),
                data@ == old_v,
                filaments@ == data.filaments@.take(j as int).map_values(
                    |f: Filament| without_net_weight(f),
                ),
            decreases data.filaments.len() - j,
        {
            let mut f = data.filaments[j].clone();
            f.net_weight = None;
            filaments.push(f);
            j = j + 1;
            assert(filaments@ =~= data.filaments@.take(j as int).map_values(
                |f: Filament| without_net_weight(f),
            ));
        }
        assert(spool_views(data.spools@).take(data.spools.len() as int) =~= spool_views(
            data.spools@,
        ));
        assert(data.filaments@.take(data.filaments.len() as int) =~= data.filaments@);
        data.spools = spools;
        data.filaments = filaments;
        data.meta.schema_version = SCHEMA_VERSION;
        assert(data@ =~= migrated(old_v));
        true
    }
}

} // verus!

verus! {

/// The characters of an optional string slice.
pub open spec fn opt_view(s: Option<&str>) -> Option<Seq<char>> {
    match s {
        Some(v) => Some(v@),
        None => None,
    }
}

/// The sort key of `f` for `field`.
fn filament_key(f: &Filament, field: &str) -> (r: Vec<char>)
    ensures
        r@ == filament_sort_key(*f, field@),
{
    if str_eq(field, "id") {
        zero_padded_10(f.id)
    } else if str_eq(field, "manufacturer") {
        opt_chars(&f.manufacturer)
    } else if str_eq(field, "material") {
        match &f.material {
            Some(m) => chars_of(m.abbreviation()),
            None => Vec::new(),
        }
    } else {
        timestamp_key_chars(f.registered)
    }
}

/// Whether `f` passes the material filter.
fn has_material(f: &Filament, material: Option<&str>) -> (r: bool)
    ensures
        r == filament_has_material(*f, opt_view(material)),
{
    match material {
        None => true,
        Some(m) => match &f.material {
            Some(mt) => str_eq(mt.abbreviation(), m),
            None => false,
        },
    }
}

impl JsonStore {
    /// List filaments with the given material abbreviation (all when `None`),
    /// stably sorted by `sort` ("id", "manufacturer", "material"; otherwise, and
    /// by default, "registered"), descending unless `order` is given and is not
    /// "desc", then paged by `offset` and `limit`. Also returns the number of
    /// filaments that passed the filter.
    pub fn list_filaments(
        &self,
        material: Option<&str>,
        sort: Option<&str>,
        order: Option<&str>,
        offset: usize,
        limit: Option<usize>,
    ) -> (r: Result<(Vec<Filament>, usize), StoreError>)
        ensures
            r matches Ok((items, total)) && {
                let matching = matching_filaments(self@, opt_view(material));
                &&& total == matching.len()
                &&& exists|sorted: Seq<Filament>|
                    is_stable_sort(
                        matching,
                        matching.map_values(|f: Filament| filament_sort_key(f, sort_field(sort))),
                        spec_order_is_desc(order),
                        sorted,
                    ) && items@ == spec_paginate(sorted, offset as int, limit)
            },
    {
        let fs = &self.data.filaments;
        let ghost pred = |f: Filament| filament_has_material(f, opt_view(material));
        let mut items: Vec<Filament> = Vec::new();
        let mut i: usize = 0;
        while i < fs.len()
            invariant
                i <= fs.len(),
                fs@ == self@.filaments,
                pred == (|f: Filament| filament_has_material(f, opt_view(material))),
                items@ == fs@.take(i as int).filter(pred),
            decreases fs.len() - i,
        {
            proof {
                lemma_filter_step(fs@, pred, i as int);
            }
            if has_material(&fs[i], material) {
                items.push(fs[i].clone());
            }
            i = i + 1;
        }
        proof {
            lemma_take_all(fs@);
        }
        let field: &str = match sort {
            Some(s) => s,
            None => "registered",
        };
        let mut keys: Vec<Vec<char>> = Vec::new();
        let mut k: usize = 0;
        while k < items.len()
            invariant
                k <= items.len(),
                field@ == sort_field(sort),
                key_views(keys@) == items@.take(k as int).map_values(
                    |f: Filament| filament_sort_key(f, sort_field(sort)),
                ),
            decreases items.len() - k,
        {
            let key = filament_key(&items[k], field);
            let ghost old_keys = keys@;
            keys.push(key);
            proof {
                assert(key_views(keys@) =~= key_views(old_keys).push(key@));
                assert(items@.take(k + 1) =~= items@.take(k as int).push(items@[k as int]));
            }
            k = k + 1;
            assert(key_views(keys@) =~= items@.take(k as int).map_values(
                |f: Filament| filament_sort_key(f, sort_field(sort)),
            ));
        }
        assert(items@.take(items.len() as int) =~= items@);
        let desc = order_is_desc(order);
        let ghost matching = items@;
        let sorted = sort_by_keys(items, &keys, desc);
        let total = sorted.len();
        let ghost sorted_view = sorted@;
        let page = paginate(sorted, offset, limit);
        assert(is_stable_sort(
            matching,
            matching.map_values(|f: Filament| filament_sort_key(f, sort_field(sort))),
            spec_order_is_desc(order),
            sorted_view,
        ));
        Ok((page, total))
    }

    /// The first filament with `id`.
    pub fn get_filament(&self, id: u32) -> (r: Result<Filament, StoreError>)
        ensures
            match self@.find_filament(id) {
                Some(f) => r == Ok::<Filament, StoreError>(f),
                None => r matches Err(StoreError::NotFound),
            },
    {
        let ids = collect_filament_ids(&self.data.filaments);
        match first_position(&ids, id) {
            Some(k) => {
                proof {
                    lemma_first_index(ids@, id, k as int);
                }
                Ok(self.data.filaments[k].clone())
            },
            None => {
                proof {
                    lemma_index_absent(ids@, id);
                }
                Err(StoreError::NotFound)
            },
        }
    }

    /// Store a new filament made from `req`, under a fresh random id and
    /// registered now, and return it.
    pub fn create_filament(&mut self, req: CreateFilament) -> (r: Result<Filament, StoreError>)
        requires
            old(self)@.filaments.len() < u32::MAX,
        ensures
            r matches Ok(f) && {
                &&& f == new_filament(req, f.id, f.registered)
                &&& f.id >= 1
                &&& !filament_ids(old(self)@.filaments).contains(f.id)
                &&& final(self)@ == with_filaments(old(self)@, old(self)@.filaments.push(f))
            },
            final(self).spec_path() == old(self).spec_path(),
            final(self).spec_automatic_backup() == old(self).spec_automatic_backup(),
            final(self).spec_debug_mode() == old(self).spec_debug_mode(),
            old(self)@.well_formed() ==> final(self)@.well_formed(),
    {
        let existing = collect_filament_ids(&self.data.filaments);
        let id = new_id(&existing);
        let filament = Filament {
            id,
            manufacturer: req.manufacturer,
            material: req.material,
            material_modifier: req.material_modifier,
            diameter: req.diameter,
            net_weight: None,
            density: req.density,
            print_temp: req.print_temp,
            bed_temp: req.bed_temp,
            spool_weight: req.spool_weight,
            min_print_temp: req.min_print_temp,
            max_print_temp: req.max_print_temp,
            min_bed_temp: req.min_bed_temp,
            max_bed_temp: req.max_bed_temp,
            registered: now(),
            comment: req.comment,
        };
        let ghost old_v = self@;
        self.data.filaments.push(filament.clone());
        proof {
            assert(self@ =~= with_filaments(old_v, old_v.filaments.push(filament)));
            assert(filament_ids(self@.filaments) =~= filament_ids(old_v.filaments).push(id));
            if old_v.well_formed() {
                assert forall|i: int| 0 <= i < self@.spools.len() implies filament_ids(
                    self@.filaments,
                ).contains(#[trigger] self@.spools[i].filament_id) by {
                    let w = choose|w: int|
                        0 <= w < filament_ids(old_v.filaments).len() && filament_ids(
                            old_v.filaments,
                        )[w] == old_v.spools[i].filament_id;
                    assert(filament_ids(self@.filaments)[w] == old_v.spools[i].filament_id);
                }
            }
        }
        Ok(filament)
    }

    /// Update the first filament with `id` with the fields that `req` sets, and return it.
    pub fn update_filament(&mut self, id: u32, req: UpdateFilament) -> (r: Result<
        Filament,
        StoreError,
    >)
        ensures
            match old(self)@.find_filament(id) {
                Some(f) => {
                    let k = crate::datastore::first_index_of(filament_ids(old(self)@.filaments), id)->0;
                    &&& r == Ok::<Filament, StoreError>(updated_filament(f, req))
                    &&& final(self)@ == with_filaments(
                        old(self)@,
                        old(self)@.filaments.update(k, updated_filament(f, req)),
                    )
                },
                None => r matches Err(StoreError::NotFound) && final(self)@ == old(self)@,
            },
            final(self).spec_path() == old(self).spec_path(),
            final(self).spec_automatic_backup() == old(self).spec_automatic_backup(),
            final(self).spec_debug_mode() == old(self).spec_debug_mode(),
            old(self)@.well_formed() ==> final(self)@.well_formed(),
    {
        let ids = collect_filament_ids(&self.data.filaments);
        let k = match first_position(&ids, id) {
            Some(k) => k,
            None => {
                proof {
                    lemma_index_absent(ids@, id);
                }
                return Err(StoreError::NotFound);
            },
        };
        proof {
            lemma_first_index(ids@, id, k as int);
        }
        let ghost old_v = self@;
        let f = &self.data.filaments[k];
        let updated = Filament {
            id: f.id,
            manufacturer: match req.manufacturer {
                Some(v) => Some(v),
                None => clone_opt_string(&f.manufacturer),
            },
            material: match req.material {
                Some(v) => Some(v),
                None => clone_opt_material(&f.material),
            },
            material_modifier: match req.material_modifier {
                Some(v) => Some(v),
                None => clone_opt_string(&f.material_modifier),
            },
            diameter: match req.diameter {
                Some(v) => v,
                None => f.diameter,
            },
            net_weight: f.net_weight,
            density: match req.density {
                Some(v) => v,
                None => f.density,
            },
            print_temp: apply_option(f.print_temp, req.print_temp),
            bed_temp: apply_option(f.bed_temp, req.bed_temp),
            spool_weight: apply_option(f.spool_weight, req.spool_weight),
            min_print_temp: apply_option(f.min_print_temp, req.min_print_temp),
            max_print_temp: apply_option(f.max_print_temp, req.max_print_temp),
            min_bed_temp: apply_option(f.min_bed_temp, req.min_bed_temp),
            max_bed_temp: apply_option(f.max_bed_temp, req.max_bed_temp),
            registered: f.registered,
            comment: match req.comment {
                Some(v) => Some(v),
                None => clone_opt_string(&f.comment),
            },
        };
        self.data.filaments.set(k, updated.clone());
        proof {
            assert(self@ =~= with_filaments(old_v, old_v.filaments.update(k as int, updated)));
            assert(filament_ids(self@.filaments) =~= filament_ids(old_v.filaments));
        }
        Ok(updated)
    }

    /// Delete every filament with `id`. Refused with a conflict while a spool
    /// uses the filament, and with `NotFound` when no filament has that id.
    pub fn delete_filament(&mut self, id: u32) -> (r: Result<(), StoreError>)
        ensures
            ({
                let refs = spools_of_filament(old(self)@.spools, id);
                if refs.len() > 0 {
                    &&& r matches Err(StoreError::Conflict(m)) && m@ == conflict_message(
                        "filament"@,
                        refs,
                    )
                    &&& final(self)@ == old(self)@
                } else if !filament_ids(old(self)@.filaments).contains(id) {
                    r matches Err(StoreError::NotFound) && final(self)@ == old(self)@
                } else {
                    &&& r is Ok
                    &&& final(self)@ == with_filaments(
                        old(self)@,
                        old(self)@.filaments.filter(|f: Filament| f.id != id),
                    )
                }
            }),
            final(self).spec_path() == old(self).spec_path(),
            final(self).spec_automatic_backup() == old(self).spec_automatic_backup(),
            final(self).spec_debug_mode() == old(self).spec_debug_mode(),
            old(self)@.well_formed() ==> final(self)@.well_formed(),
    {
        check_no_referencing_spools(&self.data.spools, "filament", id, false)?;
        let ghost old_v = self@;
        let ghost keep = |f: Filament| f.id != id;
        let other_id = |f: &Filament| -> (b: bool)
            ensures
                b == (f.id != id),
            { f.id != id };
        match retain_or_not_found(&mut self.data.filaments, other_id, Ghost(keep)) {
            Ok(()) => {},
            Err(e) => {
                proof {
                    lemma_filter_all(old_v.filaments, keep);
                    assert(self@ =~= old_v);
                    if filament_ids(old_v.filaments).contains(id) {
                        let w = choose|w: int|
                            0 <= w < filament_ids(old_v.filaments).len() && filament_ids(
                                old_v.filaments,
                            )[w] == id;
                        assert(keep(old_v.filaments[w]));
                    }
                }
                return Err(e);
            },
        }
        proof {
            let kept = old_v.filaments.filter(keep);
            assert(self@ =~= with_filaments(old_v, kept));
            let gone = choose|i: int| 0 <= i < old_v.filaments.len() && !keep(#[trigger] old_v.filaments[i]);
            assert(filament_ids(old_v.filaments)[gone] == id);
            if old_v.well_formed() {
                lemma_filter_unique_ids(old_v.filaments, keep, |f: Filament| f.id);
                assert(kept.map_values(|f: Filament| f.id) =~= filament_ids(kept));
                assert(old_v.filaments.map_values(|f: Filament| f.id) =~= filament_ids(old_v.filaments));
                assert forall|i: int| 0 <= i < self@.spools.len() implies filament_ids(
                    self@.filaments,
                ).contains(#[trigger] self@.spools[i].filament_id) by {
                    let fid = old_v.spools[i].filament_id;
                    if fid == id {
                        lemma_filter_keeps(old_v.spools, |s: SpoolView| s.filament_id == id, i);
                    }
                    let w = choose|w: int|
                        0 <= w < filament_ids(old_v.filaments).len() && filament_ids(
                            old_v.filaments,
                        )[w] == fid;
                    lemma_filter_keeps(old_v.filaments, keep, w);
                    let f = old_v.filaments[w];
                    let k = choose|k: int| 0 <= k < kept.len() && kept[k] == f;
                    assert(filament_ids(kept)[k] == fid);
                }
            }
        }
        Ok(())
    }
}

/// The ids of the spools that reference `id`: as their location when
/// `by_location`, otherwise as their filament.
fn referencing_spools(spools: &Vec<Spool>, id: u32, by_location: bool) -> (r: Vec<u32>)
    ensures
        r@ == (if by_location {
            spools_at_location(spool_views(spools@), id)
        } else {
            spools_of_filament(spool_views(spools@), id)
        }),
{
    let ghost sv = spool_views(spools@);
    let ghost pred = if by_location {
        |s: SpoolView| s.location_id == Some(id)
    } else {
        |s: SpoolView| s.filament_id == id
    };
    let ghost kept: Seq<SpoolView> = Seq::empty();
    let mut r: Vec<u32> = Vec::new();
    let mut i: usize = 0;
    while i < spools.len()
        invariant
            i <= spools.len(),
            sv == spool_views(spools@),
            pred == (if by_location {
                |s: SpoolView| s.location_id == Some(id)
            } else {
                |s: SpoolView| s.filament_id == id
            }),
            kept == sv.take(i as int).filter(pred),
            r@ == spool_ids(kept),
        decreases spools.len() - i,
    {
        proof {
            lemma_filter_step(sv, pred, i as int);
        }
        let hit = if by_location {
            spools[i].location_id == Some(id)
        } else {
            spools[i].filament_id == id
        };
        if hit {
            r.push(spools[i].id);
            proof {
                kept = kept.push(sv[i as int]);
            }
        }
        i = i + 1;
        assert(r@ =~= spool_ids(kept));
    }
    proof {
        lemma_take_all(sv);
    }
    r
}

/// Refuse with a conflict naming `entity` while spools reference `id` (as their
/// location when `by_location`, otherwise as their filament).
fn check_no_referencing_spools(spools: &Vec<Spool>, entity: &str, id: u32, by_location: bool) -> (r:
    Result<(), StoreError>)
    ensures
        ({
            let refs = if by_location {
                spools_at_location(spool_views(spools@), id)
            } else {
                spools_of_filament(spool_views(spools@), id)
            };
            if refs.len() > 0 {
                r matches Err(StoreError::Conflict(m)) && m@ == conflict_message(entity@, refs)
            } else {
                r is Ok
            }
        }),
{
    let refs = referencing_spools(spools, id, by_location);
    if refs.len() == 0 {
        Ok(())
    } else {
        Err(conflict(entity, &refs))
    }
}

/// Keep the items for which `keep` holds; `NotFound` when that removes nothing.
fn retain_or_not_found<T, F: Fn(&T) -> bool>(
    items: &mut Vec<T>,
    keep: F,
    Ghost(spec_keep): Ghost<spec_fn(T) -> bool>,
) -> (r: Result<(), StoreError>)
    requires
        forall|x: &T| #[trigger] keep.requires((x,)),
        forall|x: &T, b: bool| #[trigger] keep.ensures((x,), b) ==> b == spec_keep(*x),
    ensures
        final(items)@ == old(items)@.filter(spec_keep),
        match r {
            Ok(()) => exists|i: int| 0 <= i < old(items)@.len() && !spec_keep(#[trigger] old(items)@[i]),
            Err(e) => e is NotFound && forall|i: int|
                0 <= i < old(items)@.len() ==> spec_keep(#[trigger] old(items)@[i]),
        },
{
    let mut rest: Vec<T> = Vec::new();
    std::mem::swap(&mut rest, items);
    let ghost orig = rest@;
    let n = rest.len();
    let mut removed = false;
    let mut i: usize = 0;
    while i < n
        invariant
            i <= n,
            n == orig.len(),
            rest@ == orig.skip(i as int),
            items@ == orig.take(i as int).filter(spec_keep),
            removed == exists|j: int| 0 <= j < i && !spec_keep(#[trigger] orig[j]),
            forall|x: &T| #[trigger] keep.requires((x,)),
            forall|x: &T, b: bool| #[trigger] keep.ensures((x,), b) ==> b == spec_keep(*x),
        decreases n - i,
    {
        proof {
            lemma_filter_step(orig, spec_keep, i as int);
        }
        assert(rest@[0] == orig[i as int]);
        let x = rest.remove(0);
        assert(rest@ =~= orig.skip(i + 1));
        if keep(&x) {
            items.push(x);
        } else {
            removed = true;
        }
        i = i + 1;
    }
    proof {
        lemma_take_all(orig);
    }
    if removed {
        Ok(())
    } else {
        Err(StoreError::NotFound)
    }
}

/// `Some(v)` replaces the field, `None` leaves it unchanged.
fn apply_option<T>(field: Option<T>, value: Option<T>) -> (r: Option<T>)
    ensures
        r == updated(field, value),
{
    match value {
        Some(v) => Some(v),
        None => field,
    }
}

} // verus!

verus! {

// ── Spool specs ───────────────────────────────────────────────────────────────

/// The spool that `create_spool` stores for `req`.
pub open spec fn new_spool(req: CreateSpool, id: u32, registered: Timestamp) -> SpoolView {
    SpoolView {
        id: id,
        filament_id: req.filament_id,
        location_id: req.location_id,
        colors: req.colors@,
        color_name: req.color_name,
        initial_weight: req.initial_weight,
        current_weight: req.initial_weight,
        net_weight: req.net_weight,
        price: req.price,
        registered: registered,
        first_used: req.first_used,
        last_used: req.last_used,
        comment: req.comment,
        archived: false,
    }
}

/// `s` with the fields that `req` sets replaced. When the weight changes and
/// `req` does not set `last_used`, `last_used` becomes `now`.
pub open spec fn updated_spool(s: SpoolView, req: UpdateSpool, now: Timestamp) -> SpoolView {
    SpoolView {
        colors: match req.colors {
            Some(c) => c@,
            None => s.colors,
        },
        color_name: updated_nullable(s.color_name, req.color_name),
        location_id: updated(s.location_id, req.location_id),
        current_weight: match req.current_weight {
            Some(w) => w,
            None => s.current_weight,
        },
        net_weight: updated(s.net_weight, req.net_weight),
        price: updated(s.price, req.price),
        first_used: updated(s.first_used, req.first_used),
        last_used: if req.current_weight is Some && req.last_used is None {
            Some(now)
        } else {
            updated(s.last_used, req.last_used)
        },
        comment: updated_nullable(s.comment, req.comment),
        archived: match req.archived {
            Some(a) => a,
            None => s.archived,
        },
        ..s
    }
}

/// The copy of `s` that `clone_spool` stores: full again, never used, not archived.
pub open spec fn cloned_spool(s: SpoolView, id: u32, registered: Timestamp) -> SpoolView {
    SpoolView {
        id: id,
        current_weight: s.initial_weight,
        registered: registered,
        first_used: None,
        last_used: None,
        archived: false,
        ..s
    }
}

/// The filament a spool listing pairs with `s`: the last filament with its id.
pub open spec fn listed_filament(fs: Seq<Filament>, s: SpoolView) -> Option<Filament> {
    match crate::datastore::last_index_of(filament_ids(fs), s.filament_id) {
        Some(k) => Some(fs[k]),
        None => None,
    }
}

/// The spools that pass `filter` and whose filament exists, each with its filament,
/// in store order.
pub open spec fn matching_spools(v: StoreView, filter: SpoolFilter) -> Seq<(SpoolView, Filament)> {
    v.spools.filter(|s: SpoolView| spool_passes(s, filter) && listed_filament(v.filaments, s) is Some)
        .map_values(|s: SpoolView| (s, listed_filament(v.filaments, s)->0))
}

/// The sort key of spool `s` for `field` ("last_used"; otherwise "registered").
pub open spec fn spool_sort_key(s: SpoolView, field: Seq<char>) -> Seq<char> {
    if field == "last_used"@ {
        match s.last_used {
            Some(t) => timestamp_key(t),
            None => Seq::empty(),
        }
    } else {
        timestamp_key(s.registered)
    }
}

/// The message of the validation error for an unknown location.
pub open spec fn unknown_location_message() -> Seq<char> {
    "location_id does not exist"@
}

/// The message of the validation error for more than four colors.
pub open spec fn too_many_colors_message() -> Seq<char> {
    "a spool may have at most 4 colors"@
}

/// The most colors a spool may have.
pub const MAX_COLORS: usize = 4;

/// The sort key of `s` for `field`.
fn spool_key(s: &Spool, field: &str) -> (r: Vec<char>)
    ensures
        r@ == spool_sort_key(s@, field@),
{
    if str_eq(field, "last_used") {
        match s.last_used {
            Some(t) => timestamp_key_chars(t),
            None => Vec::new(),
        }
    } else {
        timestamp_key_chars(s.registered)
    }
}

/// Whether `s` passes `filter`'s archive, filament and location conditions.
fn passes(s: &Spool, filter: &SpoolFilter) -> (r: bool)
    ensures
        r == spool_passes(s@, *filter),
{
    if !filter.allow_archived && s.archived {
        return false;
    }
    if let Some(fid) = filter.filament_id {
        if s.filament_id != fid {
            return false;
        }
    }
    if let Some(lid) = filter.location_id {
        if s.location_id != Some(lid) {
            return false;
        }
    }
    true
}

/// `Some("")` clears the field, `Some(v)` sets it, `None` leaves it unchanged.
fn apply_option_nullable(field: Option<String>, value: Option<String>) -> (r: Option<String>)
    ensures
        r == updated_nullable(field, value),
{
    match value {
        Some(v) => if v.as_str().is_empty() {
            None
        } else {
            Some(v)
        },
        None => field,
    }
}

/// `Some(v)` sets the location, `None` leaves it unchanged.
fn apply_option_nullable_u32(field: Option<u32>, value: Option<u32>) -> (r: Option<u32>)
    ensures
        r == updated(field, value),
{
    match value {
        Some(v) => Some(v),
        None => field,
    }
}

/// `Some(t)` sets the instant, `None` leaves it unchanged.
fn apply_option_nullable_dt(field: Option<Timestamp>, value: Option<Timestamp>) -> (r: Option<
    Timestamp,
>)
    ensures
        r == updated(field, value),
{
    match value {
        Some(v) => Some(v),
        None => field,
    }
}

/// Spools and locations of a well-formed store stay consistent when a spool is
/// replaced by one with the same id and filament and a valid location.
proof fn lemma_spool_replaced_well_formed(v: StoreView, k: int, ns: SpoolView)
    requires
        v.well_formed(),
        0 <= k < v.spools.len(),
        ns.id == v.spools[k].id,
        ns.filament_id == v.spools[k].filament_id,
        ns.location_id matches Some(l) ==> location_ids(v.locations).contains(l),
    ensures
        with_spools(v, v.spools.update(k, ns)).well_formed(),
{
    let w = with_spools(v, v.spools.update(k, ns));
    assert(spool_ids(w.spools) =~= spool_ids(v.spools));
    assert forall|i: int| 0 <= i < w.spools.len() implies filament_ids(w.filaments).contains(
        #[trigger] w.spools[i].filament_id,
    ) by {
        assert(w.spools[i].filament_id == v.spools[i].filament_id);
    }
    assert forall|i: int| 0 <= i < w.spools.len() implies (#[trigger] w.spools[i].location_id
        matches Some(l) ==> location_ids(w.locations).contains(l)) by {
        if i != k {
            assert(w.spools[i] == v.spools[i]);
        }
    }
}

/// Adding a spool with a fresh id, an existing filament and a valid location
/// keeps a well-formed store well formed.
proof fn lemma_spool_added_well_formed(v: StoreView, ns: SpoolView)
    requires
        v.well_formed(),
        !spool_ids(v.spools).contains(ns.id),
        filament_ids(v.filaments).contains(ns.filament_id),
        ns.location_id matches Some(l) ==> location_ids(v.locations).contains(l),
    ensures
        with_spools(v, v.spools.push(ns)).well_formed(),
{
    let w = with_spools(v, v.spools.push(ns));
    assert(spool_ids(w.spools) =~= spool_ids(v.spools).push(ns.id));
    assert forall|i: int| 0 <= i < w.spools.len() implies filament_ids(w.filaments).contains(
        #[trigger] w.spools[i].filament_id,
    ) by {
        if i < v.spools.len() {
            assert(w.spools[i] == v.spools[i]);
        }
    }
    assert forall|i: int| 0 <= i < w.spools.len() implies (#[trigger] w.spools[i].location_id
        matches Some(l) ==> location_ids(w.locations).contains(l)) by {
        if i < v.spools.len() {
            assert(w.spools[i] == v.spools[i]);
        }
    }
}

} // verus!

verus! {

impl JsonStore {
    /// List the spools that pass `filter` and whose filament exists, each with
    /// its filament, stably sorted by `filter.sort` ("last_used"; otherwise, and
    /// by default, "registered"), descending unless `filter.order` is given and is
    /// not "desc", then paged by `offset` and `limit`. Also returns how many passed.
    pub fn list_spools(&self, filter: SpoolFilter<'_>) -> (r: Result<
        (Vec<SpoolResponse>, usize),
        StoreError,
    >)
        ensures
            r matches Ok((items, total)) && {
                let matching = matching_spools(self@, filter);
                &&& total == matching.len()
                &&& exists|sorted: Seq<(SpoolView, Filament)>|
                    is_stable_sort(
                        matching,
                        matching.map_values(
                            |m: (SpoolView, Filament)| spool_sort_key(m.0, sort_field(filter.sort)),
                        ),
                        spec_order_is_desc(filter.order),
                        sorted,
                    ) && items@.map_values(|x: SpoolResponse| x@) == spec_paginate(
                        sorted,
                        filter.offset as int,
                        filter.limit,
                    )
            },
    {
        let ss = &self.data.spools;
        let fs = &self.data.filaments;
        let fids = collect_filament_ids(fs);
        let ghost sv = spool_views(ss@);
        let ghost pred = |s: SpoolView|
            spool_passes(s, filter) && listed_filament(fs@, s) is Some;
        let ghost to_row = |s: SpoolView| (s, listed_filament(fs@, s)->0);
        let mut items: Vec<SpoolResponse> = Vec::new();
        let mut i: usize = 0;
        while i < ss.len()
            invariant
                i <= ss.len(),
                sv == spool_views(ss@),
                ss@ == self.data.spools@,
                fs@ == self@.filaments,
                sv == self@.spools,
                fids@ == filament_ids(fs@),
                pred == (|s: SpoolView|
                    spool_passes(s, filter) && listed_filament(fs@, s) is Some),
                to_row == (|s: SpoolView| (s, listed_filament(fs@, s)->0)),
                items@.map_values(|x: SpoolResponse| x@) == sv.take(i as int).filter(pred).map_values(
                    to_row,
                ),
            decreases ss.len() - i,
        {
            proof {
                lemma_filter_step(sv, pred, i as int);
            }
            let ghost before = items@;
            if passes(&ss[i], &filter) {
                match last_position(&fids, ss[i].filament_id) {
                    Some(k) => {
                        proof {
                            lemma_last_index(fids@, ss@[i as int].filament_id, k as int);
                        }
                        items.push(SpoolResponse::new(ss[i].clone(), fs[k].clone()));
                        assert(items@.map_values(|x: SpoolResponse| x@) =~= before.map_values(
                            |x: SpoolResponse| x@,
                        ).push(to_row(sv[i as int])));
                    },
                    None => {
                        proof {
                            lemma_index_absent(fids@, ss@[i as int].filament_id);
                        }
                    },
                }
            }
            i = i + 1;
        }
        proof {
            lemma_take_all(sv);
        }
        let field: &str = match filter.sort {
            Some(s) => s,
            None => "registered",
        };
        let ghost rows = items@.map_values(|x: SpoolResponse| x@);
        let mut keys: Vec<Vec<char>> = Vec::new();
        let mut k: usize = 0;
        while k < items.len()
            invariant
                k <= items.len(),
                field@ == sort_field(filter.sort),
                rows == items@.map_values(|x: SpoolResponse| x@),
                key_views(keys@) == rows.take(k as int).map_values(
                    |m: (SpoolView, Filament)| spool_sort_key(m.0, sort_field(filter.sort)),
                ),
            decreases items.len() - k,
        {
            let key = spool_key(&items[k].spool, field);
            let ghost old_keys = keys@;
            keys.push(key);
            proof {
                assert(key_views(keys@) =~= key_views(old_keys).push(key@));
                assert(rows.take(k + 1) =~= rows.take(k as int).push(rows[k as int]));
            }
            k = k + 1;
        }
        assert(rows.take(items.len() as int) =~= rows);
        let desc = order_is_desc(filter.order);
        let ghost before_sort = items@;
        let sorted = sort_by_keys(items, &keys, desc);
        let total = sorted.len();
        let ghost sorted_items = sorted@;
        let page = paginate(sorted, filter.offset, filter.limit);
        proof {
            let p = choose|p: Seq<int>| #[trigger] crate::sorting::is_sorting_permutation(
                before_sort,
                key_views(keys@),
                desc,
                sorted_items,
                p,
            );
            let sorted_rows = sorted_items.map_values(|x: SpoolResponse| x@);
            assert(crate::sorting::is_sorting_permutation(
                rows,
                key_views(keys@),
                desc,
                sorted_rows,
                p,
            ));
            assert(page@.map_values(|x: SpoolResponse| x@) =~= spec_paginate(
                sorted_rows,
                filter.offset as int,
                filter.limit,
            ));
        }
        Ok((page, total))
    }

    /// The first spool with `id`, with the first filament of its filament id.
    pub fn get_spool(&self, id: u32) -> (r: Result<SpoolResponse, StoreError>)
        ensures
            match self@.find_spool(id) {
                Some(s) => match self@.find_filament(s.filament_id) {
                    Some(f) => r matches Ok(resp) && resp@ == (s, f),
                    None => r matches Err(StoreError::NotFound),
                },
                None => r matches Err(StoreError::NotFound),
            },
    {
        let sids = collect_spool_ids(&self.data.spools);
        let k = match first_position(&sids, id) {
            Some(k) => k,
            None => {
                proof {
                    lemma_index_absent(sids@, id);
                }
                return Err(StoreError::NotFound);
            },
        };
        proof {
            lemma_first_index(sids@, id, k as int);
        }
        let spool = &self.data.spools[k];
        let fids = collect_filament_ids(&self.data.filaments);
        match first_position(&fids, spool.filament_id) {
            Some(j) => {
                proof {
                    lemma_first_index(fids@, spool.filament_id, j as int);
                }
                Ok(SpoolResponse::new(spool.clone(), self.data.filaments[j].clone()))
            },
            None => {
                proof {
                    lemma_index_absent(fids@, spool.filament_id);
                }
                Err(StoreError::NotFound)
            },
        }
    }

    /// Store a new spool made from `req`: its filament must exist, its location,
    /// when given, must exist, and it may have at most four colors. The spool
    /// gets a fresh random id, starts full, is registered now, and is returned
    /// with its filament.
    pub fn create_spool(&mut self, req: CreateSpool) -> (r: Result<SpoolResponse, StoreError>)
        requires
            old(self)@.spools.len() < u32::MAX,
        ensures
            match old(self)@.find_filament(req.filament_id) {
                None => r matches Err(StoreError::NotFound) && final(self)@ == old(self)@,
                Some(f) => if req.location_id matches Some(l) && !location_ids(
                    old(self)@.locations,
                ).contains(l) {
                    &&& r matches Err(StoreError::Validation(m)) && m@ == unknown_location_message()
                    &&& final(self)@ == old(self)@
                } else if req.colors.len() > MAX_COLORS {
                    &&& r matches Err(StoreError::Validation(m)) && m@ == too_many_colors_message()
                    &&& final(self)@ == old(self)@
                } else {
                    r matches Ok(resp) && {
                        &&& resp@.0 == new_spool(req, resp@.0.id, resp@.0.registered)
                        &&& resp@.1 == f
                        &&& resp@.0.id >= 1
                        &&& !spool_ids(old(self)@.spools).contains(resp@.0.id)
                        &&& final(self)@ == with_spools(old(self)@, old(self)@.spools.push(resp@.0))
                    }
                },
            },
            final(self).spec_path() == old(self).spec_path(),
            final(self).spec_automatic_backup() == old(self).spec_automatic_backup(),
            final(self).spec_debug_mode() == old(self).spec_debug_mode(),
            old(self)@.well_formed() ==> final(self)@.well_formed(),
    {
        let fids = collect_filament_ids(&self.data.filaments);
        let j = match first_position(&fids, req.filament_id) {
            Some(j) => j,
            None => {
                proof {
                    lemma_index_absent(fids@, req.filament_id);
                }
                return Err(StoreError::NotFound);
            },
        };
        proof {
            lemma_first_index(fids@, req.filament_id, j as int);
        }
        let filament = self.data.filaments[j].clone();
        if let Some(lid) = req.location_id {
            let lids = collect_location_ids(&self.data.locations);
            if !contains_id(&lids, lid) {
                return Err(StoreError::Validation("location_id does not exist".to_owned()));
            }
        }
        if req.colors.len() > MAX_COLORS {
            return Err(StoreError::Validation("a spool may have at most 4 colors".to_owned()));
        }
        let existing = collect_spool_ids(&self.data.spools);
        let id = new_id(&existing);
        let spool = Spool {
            id,
            filament_id: req.filament_id,
            location_id: req.location_id,
            colors: req.colors,
            color_name: req.color_name,
            initial_weight: req.initial_weight,
            current_weight: req.initial_weight,
            net_weight: req.net_weight,
            price: req.price,
            registered: now(),
            first_used: req.first_used,
            last_used: req.last_used,
            comment: req.comment,
            archived: false,
        };
        let ghost old_v = self@;
        let ghost old_spools = self.data.spools@;
        self.data.spools.push(spool.clone());
        proof {
            assert(spool_views(self.data.spools@) =~= spool_views(old_spools).push(spool@));
            assert(self@ =~= with_spools(old_v, old_v.spools.push(spool@)));
            if old_v.well_formed() {
                assert(filament_ids(old_v.filaments)[j as int] == req.filament_id);
                lemma_spool_added_well_formed(old_v, spool@);
            }
        }
        Ok(SpoolResponse::new(spool, filament))
    }
}

} // verus!

verus! {

impl JsonStore {
    /// Update the first spool with `id` with the fields that `req` sets, and
    /// return it with its filament. A given location must exist and a given color
    /// list may hold at most four colors; both are checked before anything changes.
    /// Changing the weight without setting `last_used` sets `last_used` to now.
    /// When the spool's filament is missing, the spool stays updated and
    /// `NotFound` is returned.
    pub fn update_spool(&mut self, id: u32, req: UpdateSpool) -> (r: Result<
        SpoolResponse,
        StoreError,
    >)
        ensures
            if req.location_id matches Some(l) && !location_ids(old(self)@.locations).contains(l) {
                &&& r matches Err(StoreError::Validation(m)) && m@ == unknown_location_message()
                &&& final(self)@ == old(self)@
            } else if req.colors matches Some(c) && c.len() > MAX_COLORS {
                &&& r matches Err(StoreError::Validation(m)) && m@ == too_many_colors_message()
                &&& final(self)@ == old(self)@
            } else {
                match old(self)@.find_spool(id) {
                    None => r matches Err(StoreError::NotFound) && final(self)@ == old(self)@,
                    Some(s) => exists|t: Timestamp| {
                        let k = crate::datastore::first_index_of(spool_ids(old(self)@.spools), id)->0;
                        let ns = #[trigger] updated_spool(s, req, t);
                        &&& final(self)@ == with_spools(old(self)@, old(self)@.spools.update(k, ns))
                        &&& match old(self)@.find_filament(s.filament_id) {
                            Some(f) => r matches Ok(resp) && resp@ == (ns, f),
                            None => r matches Err(StoreError::NotFound),
                        }
                    },
                }
            },
            final(self).spec_path() == old(self).spec_path(),
            final(self).spec_automatic_backup() == old(self).spec_automatic_backup(),
            final(self).spec_debug_mode() == old(self).spec_debug_mode(),
            old(self)@.well_formed() ==> final(self)@.well_formed(),
    {
        if let Some(lid) = req.location_id {
            let lids = collect_location_ids(&self.data.locations);
            if !contains_id(&lids, lid) {
                return Err(StoreError::Validation("location_id does not exist".to_owned()));
            }
        }
        let too_many = match &req.colors {
            Some(c) => c.len() > MAX_COLORS,
            None => false,
        };
        if too_many {
            return Err(StoreError::Validation("a spool may have at most 4 colors".to_owned()));
        }
        let sids = collect_spool_ids(&self.data.spools);
        let k = match first_position(&sids, id) {
            Some(k) => k,
            None => {
                proof {
                    lemma_index_absent(sids@, id);
                }
                return Err(StoreError::NotFound);
            },
        };
        proof {
            lemma_first_index(sids@, id, k as int);
        }
        let ghost old_v = self@;
        let ghost req_v = req;
        let weight_changed = req.current_weight.is_some();
        let last_used_given = req.last_used.is_some();
        let mut spool = self.data.spools[k].clone();
        if let Some(colors) = req.colors {
            spool.colors = colors;
        }
        spool.color_name = apply_option_nullable(spool.color_name, req.color_name);
        spool.location_id = apply_option_nullable_u32(spool.location_id, req.location_id);
        if let Some(w) = req.current_weight {
            spool.current_weight = w;
        }
        if let Some(nw) = req.net_weight {
            spool.net_weight = Some(nw);
        }
        spool.price = apply_option(spool.price, req.price);
        spool.first_used = apply_option_nullable_dt(spool.first_used, req.first_used);
        spool.last_used = apply_option_nullable_dt(spool.last_used, req.last_used);
        spool.comment = apply_option_nullable(spool.comment, req.comment);
        if let Some(archived) = req.archived {
            spool.archived = archived;
        }
        let t = if weight_changed && !last_used_given {
            let t = now();
            spool.last_used = Some(t);
            t
        } else {
            spool.registered
        };
        let ghost ns = spool@;
        assert(ns == updated_spool(old_v.spools[k as int], req_v, t));
        let ghost old_spools = self.data.spools@;
        self.data.spools.set(k, spool.clone());
        proof {
            assert(spool_views(self.data.spools@) =~= spool_views(old_spools).update(k as int, ns));
            assert(self@ =~= with_spools(old_v, old_v.spools.update(k as int, ns)));
            if old_v.well_formed() {
                lemma_spool_replaced_well_formed(old_v, k as int, ns);
            }
        }
        let fids = collect_filament_ids(&self.data.filaments);
        match first_position(&fids, spool.filament_id) {
            Some(j) => {
                proof {
                    lemma_first_index(fids@, spool.filament_id, j as int);
                }
                let filament = self.data.filaments[j].clone();
                Ok(SpoolResponse::new(spool, filament))
            },
            None => {
                proof {
                    lemma_index_absent(fids@, spool.filament_id);
                }
                Err(StoreError::NotFound)
            },
        }
    }

    /// Delete every spool with `id`; `NotFound` when there is none.
    pub fn delete_spool(&mut self, id: u32) -> (r: Result<(), StoreError>)
        ensures
            if !spool_ids(old(self)@.spools).contains(id) {
                r matches Err(StoreError::NotFound) && final(self)@ == old(self)@
            } else {
                &&& r is Ok
                &&& final(self)@ == with_spools(
                    old(self)@,
                    old(self)@.spools.filter(|s: SpoolView| s.id != id),
                )
            },
            final(self).spec_path() == old(self).spec_path(),
            final(self).spec_automatic_backup() == old(self).spec_automatic_backup(),
            final(self).spec_debug_mode() == old(self).spec_debug_mode(),
            old(self)@.well_formed() ==> final(self)@.well_formed(),
    {
        let ghost old_v = self@;
        let ghost old_spools = self.data.spools@;
        let ghost keep_raw = |s: Spool| s.id != id;
        let ghost keep = |s: SpoolView| s.id != id;
        let other_id = |s: &Spool| -> (b: bool)
            ensures
                b == (s.id != id),
            { s.id != id };
        let res = retain_or_not_found(&mut self.data.spools, other_id, Ghost(keep_raw));
        proof {
            lemma_filter_map_views(old_spools, id);
        }
        match res {
            Ok(()) => {},
            Err(e) => {
                proof {
                    lemma_filter_all(old_spools, keep_raw);
                    assert(self@ =~= old_v);
                    if spool_ids(old_v.spools).contains(id) {
                        let w = choose|w: int|
                            0 <= w < spool_ids(old_v.spools).len() && spool_ids(old_v.spools)[w]
                                == id;
                        assert(keep_raw(old_spools[w]));
                    }
                }
                return Err(e);
            },
        }
        proof {
            let kept = old_v.spools.filter(keep);
            assert(self@ =~= with_spools(old_v, kept));
            let gone = choose|i: int| 0 <= i < old_spools.len() && !keep_raw(#[trigger] old_spools[i]);
            assert(spool_ids(old_v.spools)[gone] == id);
            if old_v.well_formed() {
                lemma_filter_unique_ids(old_v.spools, keep, |s: SpoolView| s.id);
                assert(kept.map_values(|s: SpoolView| s.id) =~= spool_ids(kept));
                assert(old_v.spools.map_values(|s: SpoolView| s.id) =~= spool_ids(old_v.spools));
                assert forall|i: int| 0 <= i < kept.len() implies filament_ids(
                    old_v.filaments,
                ).contains(#[trigger] kept[i].filament_id) by {
                    lemma_filter_kept(old_v.spools, keep, i);
                }
                assert forall|i: int| 0 <= i < kept.len() implies (#[trigger] kept[i].location_id
                    matches Some(l) ==> location_ids(old_v.locations).contains(l)) by {
                    lemma_filter_kept(old_v.spools, keep, i);
                }
            }
        }
        Ok(())
    }

    /// Store a copy of the first spool with `id` under a fresh random id: full
    /// again, registered now, never used, not archived. Returns it with its filament.
    pub fn clone_spool(&mut self, id: u32) -> (r: Result<SpoolResponse, StoreError>)
        requires
            old(self)@.spools.len() < u32::MAX,
        ensures
            match old(self)@.find_spool(id) {
                None => r matches Err(StoreError::NotFound) && final(self)@ == old(self)@,
                Some(s) => match old(self)@.find_filament(s.filament_id) {
                    None => r matches Err(StoreError::NotFound) && final(self)@ == old(self)@,
                    Some(f) => r matches Ok(resp) && {
                        &&& resp@.0 == cloned_spool(s, resp@.0.id, resp@.0.registered)
                        &&& resp@.1 == f
                        &&& resp@.0.id >= 1
                        &&& !spool_ids(old(self)@.spools).contains(resp@.0.id)
                        &&& final(self)@ == with_spools(old(self)@, old(self)@.spools.push(resp@.0))
                    },
                },
            },
            final(self).spec_path() == old(self).spec_path(),
            final(self).spec_automatic_backup() == old(self).spec_automatic_backup(),
            final(self).spec_debug_mode() == old(self).spec_debug_mode(),
            old(self)@.well_formed() ==> final(self)@.well_formed(),
    {
        let sids = collect_spool_ids(&self.data.spools);
        let k = match first_position(&sids, id) {
            Some(k) => k,
            None => {
                proof {
                    lemma_index_absent(sids@, id);
                }
                return Err(StoreError::NotFound);
            },
        };
        proof {
            lemma_first_index(sids@, id, k as int);
        }
        let spool = self.data.spools[k].clone();
        let fids = collect_filament_ids(&self.data.filaments);
        let j = match first_position(&fids, spool.filament_id) {
            Some(j) => j,
            None => {
                proof {
                    lemma_index_absent(fids@, spool.filament_id);
                }
                return Err(StoreError::NotFound);
            },
        };
        proof {
            lemma_first_index(fids@, spool.filament_id, j as int);
        }
        let filament = self.data.filaments[j].clone();
        let new_id = new_id(&sids);
        let cloned = Spool {
            id: new_id,
            filament_id: spool.filament_id,
            location_id: spool.location_id,
            colors: clone_colors(&spool.colors),
            color_name: clone_opt_string(&spool.color_name),
            initial_weight: spool.initial_weight,
            current_weight: spool.initial_weight,
            net_weight: spool.net_weight,
            price: spool.price,
            registered: now(),
            first_used: None,
            last_used: None,
            comment: clone_opt_string(&spool.comment),
            archived: false,
        };
        let ghost old_v = self@;
        let ghost old_spools = self.data.spools@;
        self.data.spools.push(cloned.clone());
        proof {
            assert(spool_views(self.data.spools@) =~= spool_views(old_spools).push(cloned@));
            assert(self@ =~= with_spools(old_v, old_v.spools.push(cloned@)));
            if old_v.well_formed() {
                assert(old_v.spools[k as int] == spool@);
                lemma_spool_added_well_formed(old_v, cloned@);
            }
        }
        Ok(SpoolResponse::new(cloned, filament))
    }
}

/// Filtering spools by id commutes with taking their views.
proof fn lemma_filter_map_views(s: Seq<Spool>, id: u32)
    ensures
        spool_views(s.filter(|x: Spool| x.id != id)) == spool_views(s).filter(
            |x: SpoolView| x.id != id,
        ),
    decreases s.len(),
{
    reveal(Seq::filter);
    if s.len() > 0 {
        lemma_filter_map_views(s.drop_last(), id);
        assert(spool_views(s).drop_last() =~= spool_views(s.drop_last()));
        let keep_raw = |x: Spool| x.id != id;
        let rest = s.drop_last().filter(keep_raw);
        if keep_raw(s.last()) {
            assert(spool_views(rest.push(s.last())) =~= spool_views(rest).push(s.last()@));
        }
    }
}

} // verus!

verus! {

// ── Location specs ────────────────────────────────────────────────────────────

/// The message of the validation error for a blank location name.
pub open spec fn blank_name_message() -> Seq<char> {
    "name must not be empty"@
}

/// Each location with the number of spools stored there, in store order.
pub open spec fn location_rows(v: StoreView) -> Seq<(Location, nat)> {
    v.locations.map_values(|l: Location| (l, v.spool_count(l.id)))
}

/// The names of the rows' locations.
pub open spec fn name_keys(rows: Seq<(Location, nat)>) -> Seq<Seq<char>> {
    rows.map_values(|row: (Location, nat)| row.0.name@)
}

impl View for LocationResponse {
    type V = (Location, nat);

    open spec fn view(&self) -> (Location, nat) {
        (self.location, self.spool_count as nat)
    }
}

/// The number of spools stored at location `id`.
fn count_spools_at(spools: &Vec<Spool>, id: u32) -> (r: usize)
    ensures
        r == spool_views(spools@).filter(|s: SpoolView| s.location_id == Some(id)).len(),
{
    let ghost sv = spool_views(spools@);
    let ghost pred = |s: SpoolView| s.location_id == Some(id);
    let mut n: usize = 0;
    let mut i: usize = 0;
    while i < spools.len()
        invariant
            i <= spools.len(),
            sv == spool_views(spools@),
            pred == (|s: SpoolView| s.location_id == Some(id)),
            n == sv.take(i as int).filter(pred).len(),
            n <= i,
        decreases spools.len() - i,
    {
        proof {
            lemma_filter_step(sv, pred, i as int);
        }
        if spools[i].location_id == Some(id) {
            n = n + 1;
        }
        i = i + 1;
    }
    proof {
        lemma_take_all(sv);
    }
    n
}

impl JsonStore {
    /// All locations with their spool counts, stably sorted by name (ascending).
    pub fn list_locations(&self) -> (r: Result<Vec<LocationResponse>, StoreError>)
        ensures
            r matches Ok(items) && exists|sorted: Seq<(Location, nat)>|
                #[trigger] is_stable_sort(
                    location_rows(self@),
                    name_keys(location_rows(self@)),
                    false,
                    sorted,
                ) && items@.map_values(|x: LocationResponse| x@) == sorted,
    {
        let ls = &self.data.locations;
        let mut items: Vec<LocationResponse> = Vec::new();
        let mut keys: Vec<Vec<char>> = Vec::new();
        let mut i: usize = 0;
        while i < ls.len()
            invariant
                i <= ls.len(),
                ls@ == self@.locations,
                spool_views(self.data.spools@) == self@.spools,
                items@.map_values(|x: LocationResponse| x@) == location_rows(self@).take(i as int),
                key_views(keys@) == location_rows(self@).take(i as int).map_values(
                    |row: (Location, nat)| row.0.name@,
                ),
                items.len() == keys.len(),
            decreases ls.len() - i,
        {
            let count = count_spools_at(&self.data.spools, ls[i].id);
            let ghost old_items = items@;
            let ghost old_keys = keys@;
            keys.push(chars_of(ls[i].name.as_str()));
            items.push(LocationResponse { location: ls[i].clone(), spool_count: count });
            proof {
                assert(location_rows(self@).take(i + 1) =~= location_rows(self@).take(i as int).push(
                    location_rows(self@)[i as int],
                ));
                assert(items@.map_values(|x: LocationResponse| x@) =~= old_items.map_values(
                    |x: LocationResponse| x@,
                ).push(location_rows(self@)[i as int]));
                assert(key_views(keys@) =~= key_views(old_keys).push(ls@[i as int].name@));
            }
            i = i + 1;
        }
        let ghost rows = location_rows(self@);
        assert(rows.take(ls.len() as int) =~= rows);
        let ghost before = items@;
        let sorted = sort_by_keys(items, &keys, false);
        proof {
            let p = choose|p: Seq<int>| #[trigger] crate::sorting::is_sorting_permutation(
                before,
                key_views(keys@),
                false,
                sorted@,
                p,
            );
            assert(key_views(keys@) =~= name_keys(rows));
            assert(crate::sorting::is_sorting_permutation(
                rows,
                name_keys(rows),
                false,
                sorted@.map_values(|x: LocationResponse| x@),
                p,
            ));
            assert(is_stable_sort(
                rows,
                name_keys(rows),
                false,
                sorted@.map_values(|x: LocationResponse| x@),
            ));
        }
        Ok(sorted)
    }

    /// The first location with `id`, with its spool count.
    pub fn get_location(&self, id: u32) -> (r: Result<LocationResponse, StoreError>)
        ensures
            match self@.find_location(id) {
                Some(l) => r matches Ok(resp) && resp@ == (l, self@.spool_count(id)),
                None => r matches Err(StoreError::NotFound),
            },
    {
        let lids = collect_location_ids(&self.data.locations);
        match first_position(&lids, id) {
            Some(k) => {
                proof {
                    lemma_first_index(lids@, id, k as int);
                }
                let count = count_spools_at(&self.data.spools, id);
                Ok(LocationResponse { location: self.data.locations[k].clone(), spool_count: count })
            },
            None => {
                proof {
                    lemma_index_absent(lids@, id);
                }
                Err(StoreError::NotFound)
            },
        }
    }

    /// Store a new location named `req.name` under a fresh random id; refused
    /// when the name is blank.
    pub fn create_location(&mut self, req: CreateLocation) -> (r: Result<
        LocationResponse,
        StoreError,
    >)
        requires
            old(self)@.locations.len() < u32::MAX,
        ensures
            if spec_is_blank(req.name@) {
                &&& r matches Err(StoreError::Validation(m)) && m@ == blank_name_message()
                &&& final(self)@ == old(self)@
            } else {
                r matches Ok(resp) && {
                    &&& resp@.0.name == req.name
                    &&& resp@.1 == 0
                    &&& resp@.0.id >= 1
                    &&& !location_ids(old(self)@.locations).contains(resp@.0.id)
                    &&& final(self)@ == with_locations(old(self)@, old(self)@.locations.push(resp@.0))
                }
            },
            final(self).spec_path() == old(self).spec_path(),
            final(self).spec_automatic_backup() == old(self).spec_automatic_backup(),
            final(self).spec_debug_mode() == old(self).spec_debug_mode(),
            old(self)@.well_formed() ==> final(self)@.well_formed(),
    {
        if is_blank(req.name.as_str()) {
            return Err(StoreError::Validation("name must not be empty".to_owned()));
        }
        let existing = collect_location_ids(&self.data.locations);
        let id = new_id(&existing);
        let location = Location { id, name: req.name };
        let ghost old_v = self@;
        self.data.locations.push(location.clone());
        proof {
            assert(self@ =~= with_locations(old_v, old_v.locations.push(location)));
            assert(location_ids(self@.locations) =~= location_ids(old_v.locations).push(id));
            if old_v.well_formed() {
                assert forall|i: int| 0 <= i < self@.spools.len() implies (
                #[trigger] self@.spools[i].location_id matches Some(l) ==> location_ids(
                    self@.locations,
                ).contains(l)) by {
                    if let Some(l) = self@.spools[i].location_id {
                        let w = choose|w: int|
                            0 <= w < location_ids(old_v.locations).len() && location_ids(
                                old_v.locations,
                            )[w] == l;
                        assert(location_ids(self@.locations)[w] == l);
                    }
                }
            }
        }
        Ok(LocationResponse { location, spool_count: 0 })
    }

    /// Rename the first location with `id` to `req.name`; refused when the name
    /// is blank, `NotFound` when no location has that id.
    pub fn update_location(&mut self, id: u32, req: UpdateLocation) -> (r: Result<
        LocationResponse,
        StoreError,
    >)
        ensures
            if spec_is_blank(req.name@) {
                &&& r matches Err(StoreError::Validation(m)) && m@ == blank_name_message()
                &&& final(self)@ == old(self)@
            } else {
                match old(self)@.find_location(id) {
                    None => r matches Err(StoreError::NotFound) && final(self)@ == old(self)@,
                    Some(l) => {
                        let k = crate::datastore::first_index_of(location_ids(old(self)@.locations), id)->0;
                        let nl = Location { id: l.id, name: req.name };
                        &&& r matches Ok(resp) && resp@ == (nl, old(self)@.spool_count(id))
                        &&& final(self)@ == with_locations(
                            old(self)@,
                            old(self)@.locations.update(k, nl),
                        )
                    },
                }
            },
            final(self).spec_path() == old(self).spec_path(),
            final(self).spec_automatic_backup() == old(self).spec_automatic_backup(),
            final(self).spec_debug_mode() == old(self).spec_debug_mode(),
            old(self)@.well_formed() ==> final(self)@.well_formed(),
    {
        if is_blank(req.name.as_str()) {
            return Err(StoreError::Validation("name must not be empty".to_owned()));
        }
        let lids = collect_location_ids(&self.data.locations);
        let k = match first_position(&lids, id) {
            Some(k) => k,
            None => {
                proof {
                    lemma_index_absent(lids@, id);
                }
                return Err(StoreError::NotFound);
            },
        };
        proof {
            lemma_first_index(lids@, id, k as int);
        }
        let ghost old_v = self@;
        let loc = Location { id: self.data.locations[k].id, name: req.name };
        self.data.locations.set(k, loc.clone());
        proof {
            assert(self@ =~= with_locations(old_v, old_v.locations.update(k as int, loc)));
            assert(location_ids(self@.locations) =~= location_ids(old_v.locations));
        }
        let count = count_spools_at(&self.data.spools, id);
        Ok(LocationResponse { location: loc, spool_count: count })
    }

    /// Delete every location with `id`. Refused with a conflict while spools
    /// are stored there, and with `NotFound` when no location has that id.
    pub fn delete_location(&mut self, id: u32) -> (r: Result<(), StoreError>)
        ensures
            ({
                let refs = spools_at_location(old(self)@.spools, id);
                if refs.len() > 0 {
                    &&& r matches Err(StoreError::Conflict(m)) && m@ == conflict_message(
                        "location"@,
                        refs,
                    )
                    &&& final(self)@ == old(self)@
                } else if !location_ids(old(self)@.locations).contains(id) {
                    r matches Err(StoreError::NotFound) && final(self)@ == old(self)@
                } else {
                    &&& r is Ok
                    &&& final(self)@ == with_locations(
                        old(self)@,
                        old(self)@.locations.filter(|l: Location| l.id != id),
                    )
                }
            }),
            final(self).spec_path() == old(self).spec_path(),
            final(self).spec_automatic_backup() == old(self).spec_automatic_backup(),
            final(self).spec_debug_mode() == old(self).spec_debug_mode(),
            old(self)@.well_formed() ==> final(self)@.well_formed(),
    {
        check_no_referencing_spools(&self.data.spools, "location", id, true)?;
        let ghost old_v = self@;
        let ghost keep = |l: Location| l.id != id;
        let other_id = |l: &Location| -> (b: bool)
            ensures
                b == (l.id != id),
            { l.id != id };
        match retain_or_not_found(&mut self.data.locations, other_id, Ghost(keep)) {
            Ok(()) => {},
            Err(e) => {
                proof {
                    lemma_filter_all(old_v.locations, keep);
                    assert(self@ =~= old_v);
                    if location_ids(old_v.locations).contains(id) {
                        let w = choose|w: int|
                            0 <= w < location_ids(old_v.locations).len() && location_ids(
                                old_v.locations,
                            )[w] == id;
                        assert(keep(old_v.locations[w]));
                    }
                }
                return Err(e);
            },
        }
        proof {
            let kept = old_v.locations.filter(keep);
            assert(self@ =~= with_locations(old_v, kept));
            let gone = choose|i: int| 0 <= i < old_v.locations.len() && !keep(#[trigger] old_v.locations[i]);
            assert(location_ids(old_v.locations)[gone] == id);
            if old_v.well_formed() {
                lemma_filter_unique_ids(old_v.locations, keep, |l: Location| l.id);
                assert(kept.map_values(|l: Location| l.id) =~= location_ids(kept));
                assert(old_v.locations.map_values(|l: Location| l.id) =~= location_ids(old_v.locations));
                assert forall|i: int| 0 <= i < self@.spools.len() implies (
                #[trigger] self@.spools[i].location_id matches Some(l) ==> location_ids(
                    self@.locations,
                ).contains(l)) by {
                    if let Some(l) = old_v.spools[i].location_id {
                        if l == id {
                            lemma_filter_keeps(old_v.spools, |s: SpoolView| s.location_id == Some(id), i);
                        }
                        let w = choose|w: int|
                            0 <= w < location_ids(old_v.locations).len() && location_ids(
                                old_v.locations,
                            )[w] == l;
                        lemma_filter_keeps(old_v.locations, keep, w);
                        let loc = old_v.locations[w];
                        let k = choose|k: int| 0 <= k < kept.len() && kept[k] == loc;
                        assert(location_ids(kept)[k] == l);
                    }
                }
            }
        }
        Ok(())
    }
}

} // verus!

verus! {

// ── Materials, settings, whole-store operations ──────────────────────────────


/// Some filament among `fs` has a material whose abbreviation is `a`.
pub open spec fn has_material_abbreviation(fs: Seq<Filament>, a: Seq<char>) -> bool {
    exists|i: int| 0 <= i < fs.len() && #[trigger] material_is(fs[i], a)
}

/// Filament `f` has a material whose abbreviation is `a`.
pub open spec fn material_is(f: Filament, a: Seq<char>) -> bool {
    f.material matches Some(m) && m.spec_abbreviation() == a
}

/// The message of the validation error for a data store newer than this library.
pub open spec fn unsupported_schema_message(v: u32) -> Seq<char> {
    "unsupported schema_version "@ + decimal(v as nat) + " (server supports up to "@ + decimal(
        SCHEMA_VERSION as nat,
    ) + ")"@
}

/// `v` with the setting `k` set to `val`.
pub open spec fn with_setting(v: StoreView, k: Seq<char>, val: Seq<char>) -> StoreView {
    StoreView { settings: v.settings.insert(k, val), ..v }
}

/// The view a store starts from: the file's contents, or an empty store when there is no file.
pub open spec fn loaded_view(contents: Option<DataStore>) -> StoreView {
    match contents {
        Some(d) => d@,
        None => empty_store_view(),
    }
}

impl JsonStore {
    /// The distinct material abbreviations used by filaments, in ascending order.
    pub fn find_materials(&self) -> (r: Vec<String>)
        ensures
            strictly_increasing(r@.map_values(|s: String| s@)),
            forall|a: Seq<char>|
                r@.map_values(|s: String| s@).contains(a) <==> has_material_abbreviation(
                    self@.filaments,
                    a,
                ),
    {
        let fs = &self.data.filaments;
        let mut found: Vec<Vec<char>> = Vec::new();
        let mut i: usize = 0;
        while i < fs.len()
            invariant
                i <= fs.len(),
                fs@ == self@.filaments,
                strictly_increasing(key_views(found@)),
                forall|a: Seq<char>|
                    key_views(found@).contains(a) <==> has_material_abbreviation(
                        fs@.take(i as int),
                        a,
                    ),
            decreases fs.len() - i,
        {
            let ghost before = key_views(found@);
            if let Some(m) = &fs[i].material {
                let key = chars_of(m.abbreviation());
                let mut pos: usize = 0;
                while pos < found.len() && chars_lt(&found[pos], &key)
                    invariant
                        pos <= found.len(),
                        before == key_views(found@),
                        forall|j: int| 0 <= j < pos ==> seq_lt(#[trigger] before[j], key@),
                    decreases found.len() - pos,
                {
                    pos = pos + 1;
                }
                let present = pos < found.len() && chars_eq(&found[pos], &key);
                if !present {
                    found.insert(pos, key);
                    proof {
                        let after = key_views(found@);
                        assert(after =~= before.insert(pos as int, key@));
                        assert forall|x: int, y: int| 0 <= x < y < after.len() implies seq_lt(
                            #[trigger] after[x],
                            #[trigger] after[y],
                        ) by {
                            if y == pos {
                                assert(after[x] == before[x]);
                            } else if x == pos {
                                assert(after[y] == before[y - 1]);
                                lemma_seq_lt_total(before[pos as int], key@);
                                if y - 1 > pos {
                                    lemma_seq_lt_transitive(key@, before[pos as int], before[y - 1]);
                                }
                            } else {
                                let ox = if x < pos { x } else { x - 1 };
                                let oy = if y < pos { y } else { y - 1 };
                                assert(after[x] == before[ox]);
                                assert(after[y] == before[oy]);
                            }
                        }
                    }
                }
                proof {
                    let after = key_views(found@);
                    let prev = fs@.take(i as int);
                    let cur = fs@.take(i + 1);
                    assert(cur[i as int] == fs@[i as int]);
                    assert(material_is(cur[i as int], key@));
                    if present {
                        assert(after == before);
                        assert(before[pos as int] == key@);
                    } else {
                        assert(after[pos as int] == key@);
                    }
                    assert forall|a: Seq<char>| #[trigger] after.contains(a) implies has_material_abbreviation(
                        cur,
                        a,
                    ) by {
                        let q = choose|q: int| 0 <= q < after.len() && after[q] == a;
                        if !present && q == pos {
                        } else {
                            let oq = if !present && q > pos { q - 1 } else { q };
                            assert(before[oq] == a);
                            assert(before.contains(a));
                            let w = choose|w: int| 0 <= w < prev.len() && #[trigger] material_is(prev[w], a);
                            assert(cur[w] == prev[w]);
                            assert(material_is(cur[w], a));
                        }
                    }
                    assert forall|a: Seq<char>| has_material_abbreviation(cur, a) implies #[trigger] after.contains(a) by {
                        let w = choose|w: int| 0 <= w < cur.len() && #[trigger] material_is(cur[w], a);
                        if w < i {
                            assert(cur[w] == prev[w]);
                            assert(material_is(prev[w], a));
                            assert(has_material_abbreviation(prev, a));
                            assert(before.contains(a));
                            let q = choose|q: int| 0 <= q < before.len() && before[q] == a;
                            if !present {
                                if q < pos {
                                    assert(after[q] == a);
                                } else {
                                    assert(after[q + 1] == a);
                                }
                            } else {
                                assert(after[q] == a);
                            }
                        } else {
                            assert(a == key@);
                            assert(after[pos as int] == a);
                        }
                    }
                }
            } else {
                proof {
                    assert forall|a: Seq<char>| before.contains(a) <==> has_material_abbreviation(
                        fs@.take(i + 1),
                        a,
                    ) by {
                        if has_material_abbreviation(fs@.take(i + 1), a) {
                            let w = choose|w: int|
                                0 <= w < fs@.take(i + 1).len() && #[trigger] material_is(fs@.take(i + 1)[w], a);
                            assert(fs@.take(i as int)[w] == fs@.take(i + 1)[w]);
                        }
                        if has_material_abbreviation(fs@.take(i as int), a) {
                            let w = choose|w: int|
                                0 <= w < fs@.take(i as int).len() && #[trigger] material_is(fs@.take(i as int)[w], a);
                            assert(fs@.take(i + 1)[w] == fs@.take(i as int)[w]);
                        }
                    }
                }
            }
            i = i + 1;
        }
        proof {
            lemma_take_all(fs@);
        }
        let mut r: Vec<String> = Vec::new();
        let mut k: usize = 0;
        while k < found.len()
            invariant
                k <= found.len(),
                r@.map_values(|s: String| s@) == key_views(found@).take(k as int),
            decreases found.len() - k,
        {
            let s = string_from_chars(&found[k]);
            let ghost old_r = r@;
            r.push(s);
            proof {
                assert(r@.map_values(|s: String| s@) =~= old_r.map_values(|s: String| s@).push(
                    found@[k as int]@,
                ));
                assert(key_views(found@).take(k + 1) =~= key_views(found@).take(k as int).push(
                    found@[k as int]@,
                ));
            }
            k = k + 1;
        }
        assert(key_views(found@).take(found.len() as int) =~= key_views(found@));
        r
    }

    /// Lot numbers are not recorded; always empty.
    pub fn find_lot_numbers(&self) -> (r: Vec<String>)
        ensures
            r@.len() == 0,
    {
        Vec::new()
    }

    /// The settings as key-value pairs (a later pair for a key overrides an earlier one).
    pub fn get_settings(&self) -> (r: Vec<(String, String)>)
        ensures
            settings_map(r@) == self@.settings,
    {
        crate::datastore::clone_settings(&self.data.settings)
    }

    /// Set the setting `key` to `value`.
    pub fn put_setting(&mut self, key: String, value: String) -> (r: Result<(), StoreError>)
        ensures
            (r is Ok),
            final(self)@ == with_setting(old(self)@, key@, value@),
            final(self).spec_path() == old(self).spec_path(),
            final(self).spec_automatic_backup() == old(self).spec_automatic_backup(),
            final(self).spec_debug_mode() == old(self).spec_debug_mode(),
            old(self)@.well_formed() ==> final(self)@.well_formed(),
    {
        let ghost old_v = self@;
        let pairs = &self.data.settings;
        assert(old_v.settings == settings_map(pairs@));
        let ghost keep = crate::datastore::other_key(key@);
        let mut kept: Vec<(String, String)> = Vec::new();
        let mut i: usize = 0;
        while i < pairs.len()
            invariant
                i <= pairs.len(),
                keep == crate::datastore::other_key(key@),
                kept@ == pairs@.take(i as int).filter(keep),
            decreases pairs.len() - i,
        {
            proof {
                lemma_filter_step(pairs@, keep, i as int);
            }
            if !(pairs[i].0 == key) {
                kept.push((pairs[i].0.clone(), pairs[i].1.clone()));
            }
            i = i + 1;
        }
        proof {
            lemma_take_all(pairs@);
            lemma_settings_without(pairs@, key@);
        }
        let ghost without = kept@;
        let ghost kv = (key@, value@);
        kept.push((key, value));
        proof {
            assert(kept@.drop_last() =~= without);
            assert(settings_map(kept@) == settings_map(without).insert(kv.0, kv.1));
            assert(settings_map(without) == old_v.settings.remove(kv.0));
            assert(settings_map(kept@) =~= old_v.settings.insert(kv.0, kv.1));
        }
        self.data.settings = kept;
        assert(self@.settings =~= old_v.settings.insert(key@, value@));
        assert(self@ =~= with_setting(old_v, key@, value@));
        Ok(())
    }

    /// A copy of the whole store.
    pub fn get_full_store(&self) -> (r: DataStore)
        ensures
            r@ == self@,
    {
        self.data.clone()
    }

    /// Replace the whole store with `data` (e.g. from a previously exported
    /// backup), migrated to the current schema. A store from a newer schema
    /// version is refused and nothing changes.
    pub fn import(&mut self, data: DataStore) -> (r: Result<(), StoreError>)
        ensures
            if data@.schema_version > SCHEMA_VERSION {
                &&& r matches Err(StoreError::Validation(m)) && m@ == unsupported_schema_message(
                    data@.schema_version,
                )
                &&& final(self)@ == old(self)@
            } else {
                r is Ok && final(self)@ == migrated(data@)
            },
            final(self).spec_path() == old(self).spec_path(),
            final(self).spec_automatic_backup() == old(self).spec_automatic_backup(),
            final(self).spec_debug_mode() == old(self).spec_debug_mode(),
    {
        let mut data = data;
        if data.meta.schema_version > SCHEMA_VERSION {
            let mut out: Vec<char> = Vec::new();
            push_str(&mut out, "unsupported schema_version ");
            let v = decimal_chars(data.meta.schema_version);
            let ghost o1 = out@;
            let mut k: usize = 0;
            while k < v.len()
                invariant
                    k <= v.len(),
                    out@ == o1 + v@.take(k as int),
                decreases v.len() - k,
            {
                out.push(v[k]);
                k = k + 1;
                assert(out@ =~= o1 + v@.take(k as int));
            }
            assert(v@.take(v.len() as int) =~= v@);
            push_str(&mut out, " (server supports up to ");
            let c = decimal_chars(SCHEMA_VERSION);
            let ghost o2 = out@;
            let mut j: usize = 0;
            while j < c.len()
                invariant
                    j <= c.len(),
                    out@ == o2 + c@.take(j as int),
                decreases c.len() - j,
            {
                out.push(c[j]);
                j = j + 1;
                assert(out@ =~= o2 + c@.take(j as int));
            }
            assert(c@.take(c.len() as int) =~= c@);
            push_str(&mut out, ")");
            assert(out@ =~= unsupported_schema_message(data@.schema_version));
            return Err(StoreError::Validation(string_from_chars(&out)));
        }
        let ghost given = data@;
        JsonStore::migrate(&mut data);
        self.data = data;
        assert(self@ == migrated(given));
        Ok(())
    }

    /// Read the data file: the store is the file's contents (an empty store
    /// when there is no file), migrated to the current schema. Also returns
    /// whether migration changed it, in which case the file is to be rewritten.
    /// Daily backups start enabled, debug mode disabled.
    pub fn load(path: String, contents: Option<DataStore>) -> (r: (JsonStore, bool))
        ensures
            r.0@ == migrated(loaded_view(contents)),
            r.1 == (loaded_view(contents).schema_version < SCHEMA_VERSION),
            r.0.spec_path() == path@,
            r.0.spec_automatic_backup(),
            !r.0.spec_debug_mode(),
    {
        let mut data = match contents {
            Some(d) => d,
            None => DataStore::default(),
        };
        let changed = JsonStore::migrate(&mut data);
        (JsonStore { data, path, automatic_backup: true, debug_mode: false }, changed)
    }

    /// Replace the store with the data file's contents read again (an empty
    /// store when there is no file), migrated. Returns whether migration changed it.
    pub fn reload(&mut self, contents: Option<DataStore>) -> (changed: bool)
        ensures
            final(self)@ == migrated(loaded_view(contents)),
            changed == (loaded_view(contents).schema_version < SCHEMA_VERSION),
            final(self).spec_path() == old(self).spec_path(),
            final(self).spec_automatic_backup() == old(self).spec_automatic_backup(),
            final(self).spec_debug_mode() == old(self).spec_debug_mode(),
    {
        let mut data = match contents {
            Some(d) => d,
            None => DataStore::default(),
        };
        let changed = JsonStore::migrate(&mut data);
        self.data = data;
        changed
    }

    /// Configure runtime flags from the server config.
    pub fn with_config(self, automatic_backup: bool, debug_mode: bool) -> (r: Self)
        ensures
            r@ == self@,
            r.spec_path() == self.spec_path(),
            r.spec_automatic_backup() == automatic_backup,
            r.spec_debug_mode() == debug_mode,
    {
        let mut s = self;
        s.automatic_backup = automatic_backup;
        s.debug_mode = debug_mode;
        s
    }

    /// The path of the data file.
    pub fn get_data_file_path(&self) -> (r: &str)
        ensures
            r@ == self.spec_path(),
    {
        self.path.as_str()
    }

    /// The path of the data file.
    pub fn data_file_path(&self) -> (r: &str)
        ensures
            r@ == self.spec_path(),
    {
        self.path.as_str()
    }

    /// Whether daily backups are enabled.
    pub fn automatic_backup(&self) -> (r: bool)
        ensures
            r == self.spec_automatic_backup(),
    {
        self.automatic_backup
    }

    /// The numbers of filaments, spools and locations held.
    pub fn record_counts(&self) -> (r: (usize, usize, usize))
        ensures
            r.0 == self@.filaments.len(),
            r.1 == self@.spools.len(),
            r.2 == self@.locations.len(),
    {
        (self.data.filaments.len(), self.data.spools.len(), self.data.locations.len())
    }

    /// Whether debug mode is enabled.
    pub fn debug_mode(&self) -> (r: bool)
        ensures
            r == self.spec_debug_mode(),
    {
        self.debug_mode
    }
}

impl Clone for JsonStore {
    fn clone(&self) -> (r: Self)
        ensures
            r@ == self@,
            r.spec_path() == self.spec_path(),
            r.spec_automatic_backup() == self.spec_automatic_backup(),
            r.spec_debug_mode() == self.spec_debug_mode(),
    {
        JsonStore {
            data: self.data.clone(),
            path: self.path.clone(),
            automatic_backup: self.automatic_backup,
            debug_mode: self.debug_mode,
        }
    }
}

} // verus!
