//! Properties that relate the store's operations to one another.
use vstd::prelude::*;
use crate::color::{hex_pair, hex_value, spec_hex_to_rgba, spec_threshold_hundredths, ColorAlgorithm};
use crate::datastore::{
    StoreView, empty_store_view, filament_ids, first_index_of, is_first_index, lemma_filter_kept,
    lemma_first_index, lemma_first_index_exists, lemma_index_absent, location_ids, spool_ids,
};
use crate::models::{Filament, Location, Rgba, SpoolView};
use crate::clock::Timestamp;
use crate::requests::{UpdateFilament, UpdateSpool};
use crate::spoolmandb::{dash_suffixes, ends_with, split_material};
use crate::store::{
    cloned_spool, filament_sort_key, sort_field, spool_sort_key, loaded_view, migrated, updated_filament, updated_spool, with_filaments, with_locations, with_setting, with_spools,
    without_net_weight, with_legacy_net_weight,
};
use crate::text::{digit_char, seq_lt, differs_first_at, zero_padded};
use crate::clock::chrono_rfc3339;
use crate::sorting::{is_sorting_permutation, is_stable_sort, key_before, spec_paginate};

verus! {

/// After a filament with a fresh id is added, looking that id up finds it.
pub proof fn law_created_filament_is_found(v: StoreView, f: Filament)
    requires
        !filament_ids(v.filaments).contains(f.id),
    ensures
        with_filaments(v, v.filaments.push(f)).find_filament(f.id) == Some(f),
{
    let w = with_filaments(v, v.filaments.push(f));
    let k = v.filaments.len() as int;
    assert(filament_ids(w.filaments)[k] == f.id);
    assert forall|j: int| 0 <= j < k implies filament_ids(w.filaments)[j] != f.id by {
        assert(filament_ids(w.filaments)[j] == filament_ids(v.filaments)[j]);
    }
    lemma_first_index(filament_ids(w.filaments), f.id, k);
}

/// After a spool with a fresh id is added, looking that id up finds it.
pub proof fn law_created_spool_is_found(v: StoreView, s: SpoolView)
    requires
        !spool_ids(v.spools).contains(s.id),
    ensures
        with_spools(v, v.spools.push(s)).find_spool(s.id) == Some(s),
{
    let w = with_spools(v, v.spools.push(s));
    let k = v.spools.len() as int;
    assert(spool_ids(w.spools)[k] == s.id);
    assert forall|j: int| 0 <= j < k implies spool_ids(w.spools)[j] != s.id by {
        assert(spool_ids(w.spools)[j] == spool_ids(v.spools)[j]);
    }
    lemma_first_index(spool_ids(w.spools), s.id, k);
}

/// After a location with a fresh id is added, looking that id up finds it.
pub proof fn law_created_location_is_found(v: StoreView, l: Location)
    requires
        !location_ids(v.locations).contains(l.id),
    ensures
        with_locations(v, v.locations.push(l)).find_location(l.id) == Some(l),
{
    let w = with_locations(v, v.locations.push(l));
    let k = v.locations.len() as int;
    assert(location_ids(w.locations)[k] == l.id);
    assert forall|j: int| 0 <= j < k implies location_ids(w.locations)[j] != l.id by {
        assert(location_ids(w.locations)[j] == location_ids(v.locations)[j]);
    }
    lemma_first_index(location_ids(w.locations), l.id, k);
}

/// After the filaments with `id` are deleted, looking `id` up finds nothing.
pub proof fn law_deleted_filament_is_gone(v: StoreView, id: u32)
    ensures
        with_filaments(v, v.filaments.filter(|f: Filament| f.id != id)).find_filament(id) is None,
{
    let kept = v.filaments.filter(|f: Filament| f.id != id);
    if filament_ids(kept).contains(id) {
        let k = choose|k: int| 0 <= k < filament_ids(kept).len() && filament_ids(kept)[k] == id;
        lemma_filter_kept(v.filaments, |f: Filament| f.id != id, k);
    }
    lemma_index_absent(filament_ids(kept), id);
}

/// After the spools with `id` are deleted, looking `id` up finds nothing.
pub proof fn law_deleted_spool_is_gone(v: StoreView, id: u32)
    ensures
        with_spools(v, v.spools.filter(|s: SpoolView| s.id != id)).find_spool(id) is None,
{
    let kept = v.spools.filter(|s: SpoolView| s.id != id);
    if spool_ids(kept).contains(id) {
        let k = choose|k: int| 0 <= k < spool_ids(kept).len() && spool_ids(kept)[k] == id;
        lemma_filter_kept(v.spools, |s: SpoolView| s.id != id, k);
    }
    lemma_index_absent(spool_ids(kept), id);
}

/// After the locations with `id` are deleted, looking `id` up finds nothing.
pub proof fn law_deleted_location_is_gone(v: StoreView, id: u32)
    ensures
        with_locations(v, v.locations.filter(|l: Location| l.id != id)).find_location(id) is None,
{
    let kept = v.locations.filter(|l: Location| l.id != id);
    if location_ids(kept).contains(id) {
        let k = choose|k: int| 0 <= k < location_ids(kept).len() && location_ids(kept)[k] == id;
        lemma_filter_kept(v.locations, |l: Location| l.id != id, k);
    }
    lemma_index_absent(location_ids(kept), id);
}

/// After the filament with `id` is updated, looking `id` up finds the updated filament.
pub proof fn law_updated_filament_is_found(v: StoreView, id: u32, req: UpdateFilament)
    requires
        v.find_filament(id) is Some,
    ensures
        ({
            let f = v.find_filament(id)->0;
            let k = first_index_of(filament_ids(v.filaments), id)->0;
            with_filaments(v, v.filaments.update(k, updated_filament(f, req))).find_filament(id)
                == Some(updated_filament(f, req))
        }),
{
    let f = v.find_filament(id)->0;
    let ids = filament_ids(v.filaments);
    let k = first_index_of(ids, id)->0;
    let c = choose|c: int| is_first_index(ids, id, c);
    let nf = updated_filament(f, req);
    let w = with_filaments(v, v.filaments.update(k, nf));
    assert(filament_ids(w.filaments) =~= ids);
}

/// After the spool with `id` is updated, looking `id` up finds the updated spool.
pub proof fn law_updated_spool_is_found(v: StoreView, id: u32, req: UpdateSpool, now: Timestamp)
    requires
        v.find_spool(id) is Some,
    ensures
        ({
            let s = v.find_spool(id)->0;
            let k = first_index_of(spool_ids(v.spools), id)->0;
            with_spools(v, v.spools.update(k, updated_spool(s, req, now))).find_spool(id) == Some(
                updated_spool(s, req, now),
            )
        }),
{
    let s = v.find_spool(id)->0;
    let ids = spool_ids(v.spools);
    let k = first_index_of(ids, id)->0;
    let c = choose|c: int| is_first_index(ids, id, c);
    let ns = updated_spool(s, req, now);
    let w = with_spools(v, v.spools.update(k, ns));
    assert(spool_ids(w.spools) =~= ids);
}

/// After the location with `id` is renamed, looking `id` up finds it under the new name.
pub proof fn law_updated_location_is_found(v: StoreView, id: u32, name: String)
    requires
        v.find_location(id) is Some,
    ensures
        ({
            let k = first_index_of(location_ids(v.locations), id)->0;
            with_locations(v, v.locations.update(k, Location { id: id, name: name })).find_location(
                id,
            ) == Some(Location { id: id, name: name })
        }),
{
    let ids = location_ids(v.locations);
    let k = first_index_of(ids, id)->0;
    let c = choose|c: int| is_first_index(ids, id, c);
    let nl = Location { id: id, name: name };
    let w = with_locations(v, v.locations.update(k, nl));
    assert(location_ids(w.locations) =~= ids);
}

/// After a setting is put, the settings map it to the value put.
pub proof fn law_setting_is_read_back(v: StoreView, key: Seq<char>, value: Seq<char>)
    ensures
        with_setting(v, key, value).settings[key] == value,
        with_setting(v, key, value).settings.contains_key(key),
        forall|other: Seq<char>|
            other != key ==> with_setting(v, key, value).settings.contains_key(other)
                == v.settings.contains_key(other),
{
}

/// Migrating twice is migrating once, and a store at the current schema is left as is.
pub proof fn law_migration_is_idempotent(v: StoreView)
    ensures
        migrated(migrated(v)) == migrated(v),
        v.schema_version >= crate::datastore::SCHEMA_VERSION ==> migrated(v) == v,
{
}

/// A store read from a file of a supported schema is at the current schema, so
/// exporting it and importing the export back leaves it exactly as it was.
pub proof fn law_export_import_roundtrip(v: StoreView)
    requires
        v.schema_version <= crate::datastore::SCHEMA_VERSION,
    ensures
        migrated(v).schema_version == crate::datastore::SCHEMA_VERSION,
        migrated(migrated(v)) == migrated(v),
{
}

/// Every store the library builds is at the current schema or a newer one: a
/// loaded, reloaded or imported store is migrated, and no operation touches the
/// schema version.
pub proof fn law_stores_stay_at_current_schema(
    v: StoreView,
    fs: Seq<Filament>,
    ss: Seq<SpoolView>,
    ls: Seq<Location>,
    key: Seq<char>,
    value: Seq<char>,
)
    ensures
        migrated(v).schema_version >= crate::datastore::SCHEMA_VERSION,
        with_filaments(v, fs).schema_version == v.schema_version,
        with_spools(v, ss).schema_version == v.schema_version,
        with_locations(v, ls).schema_version == v.schema_version,
        with_setting(v, key, value).schema_version == v.schema_version,
{
}

/// Importing a store's own export changes nothing: an export at a newer schema
/// is refused (and the store stays as it is), and one at the current schema is
/// taken exactly as it is.
pub proof fn law_import_of_export_changes_nothing(v: StoreView)
    requires
        v.schema_version >= crate::datastore::SCHEMA_VERSION,
    ensures
        v.schema_version <= crate::datastore::SCHEMA_VERSION ==> migrated(v) == v,
{
}

/// Loading when there is no data file gives the empty store at the current schema.
pub proof fn law_load_without_file_is_empty()
    ensures
        migrated(loaded_view(None)) == empty_store_view(),
        empty_store_view().schema_version == crate::datastore::SCHEMA_VERSION,
        empty_store_view().filaments.len() == 0,
        empty_store_view().spools.len() == 0,
        empty_store_view().locations.len() == 0,
        empty_store_view().settings == Map::<Seq<char>, Seq<char>>::empty(),
{
}

/// In a well-formed store, every spool's filament can be found.
pub proof fn law_spool_filament_exists(v: StoreView, id: u32)
    requires
        v.well_formed(),
        v.find_spool(id) is Some,
    ensures
        v.find_filament(v.find_spool(id)->0.filament_id) is Some,
{
    let ids = spool_ids(v.spools);
    let c = choose|c: int| is_first_index(ids, id, c);
    let s = v.spools[c];
    let fids = filament_ids(v.filaments);
    assert(fids.contains(v.spools[c].filament_id));
    let w = choose|w: int| 0 <= w < fids.len() && fids[w] == s.filament_id;
    lemma_first_index_exists(fids, s.filament_id, w);
}

/// The empty store is well formed, and migration keeps a store well formed.
pub proof fn law_well_formed_from_the_start(v: StoreView)
    ensures
        empty_store_view().well_formed(),
        v.well_formed() ==> migrated(v).well_formed(),
{
    if v.well_formed() && v.schema_version < crate::datastore::SCHEMA_VERSION {
        let m = migrated(v);
        assert(filament_ids(m.filaments) =~= filament_ids(v.filaments));
        assert(spool_ids(m.spools) =~= spool_ids(v.spools));
        assert forall|i: int| 0 <= i < m.spools.len() implies filament_ids(m.filaments).contains(
            #[trigger] m.spools[i].filament_id,
        ) by {
            assert(m.spools[i] == with_legacy_net_weight(v.spools[i], v.filaments));
        }
        assert forall|i: int| 0 <= i < m.spools.len() implies (#[trigger] m.spools[i].location_id
            matches Some(l) ==> location_ids(m.locations).contains(l)) by {
            assert(m.spools[i] == with_legacy_net_weight(v.spools[i], v.filaments));
        }
    }
}

/// A split material reassembles to the original string: base, then `-` and
/// the modifier for a dash suffix, or `+` for a plus suffix.
pub proof fn law_split_material_reassembles(s: Seq<char>)
    ensures
        ({
            let (base, modifier) = split_material(s);
            match modifier {
                None => base == s,
                Some(m) => if m == seq!['+'] {
                    base + seq!['+'] == s
                } else {
                    base + seq!['-'] + m == s
                },
            }
        }),
{
    let (base, modifier) = split_material(s);
    if let Some(m) = modifier {
        if ends_with(s, dash_suffixes()[0]) {
            assert(base + seq!['-'] + m =~= s);
        } else if ends_with(s, dash_suffixes()[1]) {
            assert(base + seq!['-'] + m =~= s);
        } else if ends_with(s, dash_suffixes()[2]) {
            assert(base + seq!['-'] + m =~= s);
        } else if ends_with(s, dash_suffixes()[3]) {
            assert(base + seq!['-'] + m =~= s);
        } else {
            assert(base + seq!['+'] =~= s);
        }
    }
}

/// The lowercase hexadecimal digit byte for `d` (`d < 16`).
pub open spec fn hex_lower_byte(d: int) -> u8 {
    if d < 10 {
        (48 + d) as u8
    } else {
        (87 + d) as u8
    }
}

/// The UTF-8 bytes of `#rrggbb` in lowercase hexadecimal, as `format!("#{:02x}{:02x}{:02x}")` writes them.
pub open spec fn hex_bytes(c: Rgba) -> Seq<u8> {
    seq![
        35u8,
        hex_lower_byte((c.r / 16) as int),
        hex_lower_byte((c.r % 16) as int),
        hex_lower_byte((c.g / 16) as int),
        hex_lower_byte((c.g % 16) as int),
        hex_lower_byte((c.b / 16) as int),
        hex_lower_byte((c.b % 16) as int),
    ]
}

proof fn lemma_hex_pair_of_byte(x: u8)
    ensures
        hex_pair(hex_lower_byte((x / 16) as int), hex_lower_byte((x % 16) as int)) == Some(x),
{
    assert(hex_value(hex_lower_byte((x / 16) as int)) == Some((x / 16) as u8));
    assert(hex_value(hex_lower_byte((x % 16) as int)) == Some((x % 16) as u8));
    assert(hex_lower_byte((x / 16) as int) != 43);
    assert((x / 16) * 16 + x % 16 == x);
}

/// A color written as `#rrggbb` parses back to itself, fully opaque.
pub proof fn law_hex_color_roundtrip(c: Rgba)
    ensures
        spec_hex_to_rgba(hex_bytes(c)) == Some(Rgba { a: 255, ..c }),
{
    lemma_hex_pair_of_byte(c.r);
    lemma_hex_pair_of_byte(c.g);
    lemma_hex_pair_of_byte(c.b);
}

/// For every algorithm the search levels widen: same < close < ballpark.
pub proof fn law_thresholds_widen(algo: ColorAlgorithm)
    ensures
        spec_threshold_hundredths("same"@, algo)->0 < spec_threshold_hundredths("close"@, algo)->0,
        spec_threshold_hundredths("close"@, algo)->0 < spec_threshold_hundredths("ballpark"@, algo)->0,
{
    reveal_strlit("same");
    reveal_strlit("close");
    reveal_strlit("ballpark");
    assert("close"@.len() != "same"@.len());
    assert("ballpark"@.len() != "same"@.len());
    assert("ballpark"@.len() != "close"@.len());
}

} // verus!

verus! {

/// `10^w`.
pub open spec fn pow10(w: nat) -> nat
    decreases w,
{
    if w == 0 {
        1
    } else {
        10 * pow10((w - 1) as nat)
    }
}

proof fn lemma_padded_len(n: nat, w: nat)
    ensures
        zero_padded(n, w).len() == w,
    decreases w,
{
    if w > 0 {
        lemma_padded_len(n / 10, (w - 1) as nat);
    }
}

proof fn lemma_padded_lt(a: nat, b: nat, w: nat)
    requires
        a < b < pow10(w),
    ensures
        seq_lt(zero_padded(a, w), zero_padded(b, w)),
    decreases w,
{
    let pa = zero_padded(a / 10, (w - 1) as nat);
    let pb = zero_padded(b / 10, (w - 1) as nat);
    lemma_padded_len(a / 10, (w - 1) as nat);
    lemma_padded_len(b / 10, (w - 1) as nat);
    let da = digit_char((a % 10) as int);
    let db = digit_char((b % 10) as int);
    if a / 10 < b / 10 {
        lemma_padded_lt(a / 10, b / 10, (w - 1) as nat);
        let i = choose|i: int| #[trigger] differs_first_at(pa, pb, i);
        assert(differs_first_at(pa.push(da), pb.push(db), i));
    } else {
        assert(pa == pb);
        assert(differs_first_at(pa.push(da), pb.push(db), (w - 1) as int));
    }
}

/// Ten-digit zero-padded ids, the keys of the sort by "id", order exactly as the ids do.
pub proof fn law_id_keys_order_numerically(a: u32, b: u32)
    ensures
        a < b <==> seq_lt(zero_padded(a as nat, 10), zero_padded(b as nat, 10)),
{
    reveal_with_fuel(pow10, 11);
    assert(pow10(10) == 10000000000);
    if a < b {
        lemma_padded_lt(a as nat, b as nat, 10);
    } else if b < a {
        lemma_padded_lt(b as nat, a as nat, 10);
        crate::text::lemma_seq_lt_irreflexive(zero_padded(b as nat, 10));
        if seq_lt(zero_padded(a as nat, 10), zero_padded(b as nat, 10)) {
            crate::text::lemma_seq_lt_transitive(
                zero_padded(b as nat, 10),
                zero_padded(a as nat, 10),
                zero_padded(b as nat, 10),
            );
        }
    } else {
        crate::text::lemma_seq_lt_irreflexive(zero_padded(a as nat, 10));
    }
}

} // verus!

verus! {

/// Updating a spool replaces exactly the fields the request sets: colors,
/// location, current weight, net weight, price, first and last use and the
/// archived flag take the requested value; a requested color name or comment
/// replaces the old one, an empty one clears it; a new weight without a
/// requested last use stamps last use with the time of the update. Everything
/// the request leaves unset, and the spool's id, filament, initial weight and
/// registration, stay as they were.
pub proof fn law_update_spool_sets_requested_fields(s: SpoolView, req: UpdateSpool, now: Timestamp)
    ensures
        ({
            let n = updated_spool(s, req, now);
            &&& n.id == s.id && n.filament_id == s.filament_id
            &&& n.initial_weight == s.initial_weight && n.registered == s.registered
            &&& (req.location_id matches Some(l) ==> n.location_id == Some(l))
            &&& (req.location_id is None ==> n.location_id == s.location_id)
            &&& (req.colors matches Some(c) ==> n.colors == c@)
            &&& (req.colors is None ==> n.colors == s.colors)
            &&& (req.current_weight matches Some(w) ==> n.current_weight == w)
            &&& (req.current_weight is None ==> n.current_weight == s.current_weight)
            &&& (req.net_weight matches Some(w) ==> n.net_weight == Some(w))
            &&& (req.net_weight is None ==> n.net_weight == s.net_weight)
            &&& (req.price matches Some(p) ==> n.price == Some(p))
            &&& (req.price is None ==> n.price == s.price)
            &&& (req.first_used matches Some(t) ==> n.first_used == Some(t))
            &&& (req.first_used is None ==> n.first_used == s.first_used)
            &&& (req.last_used matches Some(t) ==> n.last_used == Some(t))
            &&& (req.last_used is None && req.current_weight is Some ==> n.last_used == Some(now))
            &&& (req.last_used is None && req.current_weight is None ==> n.last_used == s.last_used)
            &&& (req.archived matches Some(a) ==> n.archived == a)
            &&& (req.archived is None ==> n.archived == s.archived)
            &&& (req.color_name matches Some(c) ==> n.color_name == (if c@.len() == 0 {
                None
            } else {
                Some(c)
            }))
            &&& (req.color_name is None ==> n.color_name == s.color_name)
            &&& (req.comment matches Some(c) ==> n.comment == (if c@.len() == 0 {
                None
            } else {
                Some(c)
            }))
            &&& (req.comment is None ==> n.comment == s.comment)
        }),
{
}

/// A cloned spool is a new full spool of the same kind: it starts at its
/// initial weight (the source's initial weight, whatever the source weighs
/// now), has never been used, is not archived, and keeps the source's filament,
/// location, colors, color name, net weight, price and comment.
pub proof fn law_clone_starts_full(s: SpoolView, id: u32, registered: Timestamp)
    ensures
        ({
            let c = cloned_spool(s, id, registered);
            &&& c.id == id && c.registered == registered
            &&& c.initial_weight == s.initial_weight
            &&& c.current_weight == s.initial_weight
            &&& c.first_used is None && c.last_used is None
            &&& !c.archived
            &&& c.filament_id == s.filament_id && c.location_id == s.location_id
            &&& c.colors == s.colors && c.color_name == s.color_name
            &&& c.net_weight == s.net_weight && c.price == s.price && c.comment == s.comment
        }),
{
}

/// Updating a filament replaces exactly the fields the request sets and keeps
/// the others, together with the id, the registration and the legacy net weight.
pub proof fn law_update_filament_sets_requested_fields(f: Filament, req: UpdateFilament)
    ensures
        ({
            let n = updated_filament(f, req);
            &&& n.id == f.id && n.registered == f.registered && n.net_weight == f.net_weight
            &&& (req.material matches Some(m) ==> n.material == Some(m))
            &&& (req.material is None ==> n.material == f.material)
            &&& (req.manufacturer matches Some(m) ==> n.manufacturer == Some(m))
            &&& (req.manufacturer is None ==> n.manufacturer == f.manufacturer)
            &&& (req.material_modifier matches Some(m) ==> n.material_modifier == Some(m))
            &&& (req.material_modifier is None ==> n.material_modifier == f.material_modifier)
            &&& (req.diameter matches Some(d) ==> n.diameter == d)
            &&& (req.diameter is None ==> n.diameter == f.diameter)
            &&& (req.density matches Some(d) ==> n.density == d)
            &&& (req.density is None ==> n.density == f.density)
            &&& (req.print_temp matches Some(t) ==> n.print_temp == Some(t))
            &&& (req.print_temp is None ==> n.print_temp == f.print_temp)
            &&& (req.bed_temp matches Some(t) ==> n.bed_temp == Some(t))
            &&& (req.bed_temp is None ==> n.bed_temp == f.bed_temp)
            &&& (req.spool_weight matches Some(w) ==> n.spool_weight == Some(w))
            &&& (req.spool_weight is None ==> n.spool_weight == f.spool_weight)
            &&& (req.min_print_temp matches Some(t) ==> n.min_print_temp == Some(t))
            &&& (req.min_print_temp is None ==> n.min_print_temp == f.min_print_temp)
            &&& (req.max_print_temp matches Some(t) ==> n.max_print_temp == Some(t))
            &&& (req.max_print_temp is None ==> n.max_print_temp == f.max_print_temp)
            &&& (req.min_bed_temp matches Some(t) ==> n.min_bed_temp == Some(t))
            &&& (req.min_bed_temp is None ==> n.min_bed_temp == f.min_bed_temp)
            &&& (req.max_bed_temp matches Some(t) ==> n.max_bed_temp == Some(t))
            &&& (req.max_bed_temp is None ==> n.max_bed_temp == f.max_bed_temp)
            &&& (req.comment matches Some(c) ==> n.comment == Some(c))
            &&& (req.comment is None ==> n.comment == f.comment)
        }),
{
}

/// A filament's material abbreviation, empty when it has no material.
pub open spec fn abbreviation_or_empty(f: Filament) -> Seq<char> {
    match f.material {
        Some(m) => m.spec_abbreviation(),
        None => Seq::empty(),
    }
}

/// The RFC 3339 text of a spool's last use, empty when it was never used.
pub open spec fn last_used_text(s: SpoolView) -> Seq<char> {
    match s.last_used {
        Some(t) => match chrono_rfc3339(t.secs, t.nanos) {
            Some(x) => x,
            None => Seq::empty(),
        },
        None => Seq::empty(),
    }
}

/// The page `spec_paginate(s, offset, limit)` holds consecutive items of `s`.
proof fn lemma_page_items<T>(s: Seq<T>, offset: int, limit: Option<usize>, k: int)
    requires
        0 <= offset,
        0 <= k < spec_paginate(s, offset, limit).len(),
    ensures
        offset + k < s.len(),
        spec_paginate(s, offset, limit)[k] == s[offset + k],
{
}

/// Listing filaments sorted by "material" orders them by material abbreviation
/// (ascending, or descending when `desc`), a filament without a material
/// sorting as the empty text: no item of a page comes before an earlier one.
pub proof fn law_filaments_sorted_by_material(
    items: Seq<Filament>,
    sort: Option<&str>,
    desc: bool,
    sorted: Seq<Filament>,
    offset: int,
    limit: Option<usize>,
)
    requires
        sort_field(sort) == "material"@,
        0 <= offset,
        is_stable_sort(
            items,
            items.map_values(|f: Filament| filament_sort_key(f, sort_field(sort))),
            desc,
            sorted,
        ),
    ensures
        forall|k1: int, k2: int|
            0 <= k1 < k2 < spec_paginate(sorted, offset, limit).len() ==> !key_before(
                abbreviation_or_empty(#[trigger] spec_paginate(sorted, offset, limit)[k2]),
                abbreviation_or_empty(#[trigger] spec_paginate(sorted, offset, limit)[k1]),
                desc,
            ),
{
    reveal_strlit("material");
    reveal_strlit("id");
    reveal_strlit("manufacturer");
    assert("material"@.len() == 8);
    assert("id"@.len() == 2);
    assert("manufacturer"@.len() == 12);
    assert("material"@ != "id"@);
    assert("material"@ != "manufacturer"@);
    let keys = items.map_values(|f: Filament| filament_sort_key(f, sort_field(sort)));
    let p = choose|p: Seq<int>| #[trigger] is_sorting_permutation(items, keys, desc, sorted, p);
    let page = spec_paginate(sorted, offset, limit);
    assert forall|k1: int, k2: int| 0 <= k1 < k2 < page.len() implies !key_before(
        abbreviation_or_empty(#[trigger] page[k2]),
        abbreviation_or_empty(#[trigger] page[k1]),
        desc,
    ) by {
        lemma_page_items(sorted, offset, limit, k1);
        lemma_page_items(sorted, offset, limit, k2);
        let j1 = offset + k1;
        let j2 = offset + k2;
        assert(sorted[j1] == items[p[j1]]);
        assert(sorted[j2] == items[p[j2]]);
        assert(!key_before(keys[p[j2]], keys[p[j1]], desc));
        assert(keys[p[j1]] == abbreviation_or_empty(items[p[j1]]));
        assert(keys[p[j2]] == abbreviation_or_empty(items[p[j2]]));
    }
}

/// Listing spools sorted by "last_used" orders them by the RFC 3339 text of
/// their last use (descending when `desc`, the default), a spool never used
/// sorting as the empty text: no item of a page comes before an earlier one.
pub proof fn law_spools_sorted_by_last_use(
    items: Seq<(SpoolView, Filament)>,
    sort: Option<&str>,
    desc: bool,
    sorted: Seq<(SpoolView, Filament)>,
    offset: int,
    limit: Option<usize>,
)
    requires
        sort_field(sort) == "last_used"@,
        0 <= offset,
        is_stable_sort(
            items,
            items.map_values(|m: (SpoolView, Filament)| spool_sort_key(m.0, sort_field(sort))),
            desc,
            sorted,
        ),
    ensures
        forall|k1: int, k2: int|
            0 <= k1 < k2 < spec_paginate(sorted, offset, limit).len() ==> !key_before(
                last_used_text((#[trigger] spec_paginate(sorted, offset, limit)[k2]).0),
                last_used_text((#[trigger] spec_paginate(sorted, offset, limit)[k1]).0),
                desc,
            ),
{
    let keys = items.map_values(|m: (SpoolView, Filament)| spool_sort_key(m.0, sort_field(sort)));
    let p = choose|p: Seq<int>| #[trigger] is_sorting_permutation(items, keys, desc, sorted, p);
    let page = spec_paginate(sorted, offset, limit);
    assert forall|k1: int, k2: int| 0 <= k1 < k2 < page.len() implies !key_before(
        last_used_text((#[trigger] page[k2]).0),
        last_used_text((#[trigger] page[k1]).0),
        desc,
    ) by {
        lemma_page_items(sorted, offset, limit, k1);
        lemma_page_items(sorted, offset, limit, k2);
        let j1 = offset + k1;
        let j2 = offset + k2;
        assert(sorted[j1] == items[p[j1]]);
        assert(sorted[j2] == items[p[j2]]);
        assert(!key_before(keys[p[j2]], keys[p[j1]], desc));
        assert(keys[p[j1]] == last_used_text(items[p[j1]].0));
        assert(keys[p[j2]] == last_used_text(items[p[j2]].0));
    }
}

} // verus!
