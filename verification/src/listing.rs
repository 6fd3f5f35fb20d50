//! What the list pages show: their search filters, the material filter, the
//! sort-column toggle, and page arithmetic.
use vstd::prelude::*;
use crate::clock::Timestamp;
use crate::material::MaterialType;
use crate::models::{Filament, Location, SpoolResponse, SpoolView, join_words, name_words};
use crate::sorting::{insert_distinct, key_views, paginate, spec_paginate, strictly_increasing};
use crate::text::{
    chars_contain, chars_eq, chars_lt, seq_lt, chars_of, lemma_seq_lt_irreflexive,
    lemma_seq_lt_total, lemma_seq_lt_transitive, contains_seq, str_eq, str_to_lowercase, string_from_chars, to_lowercase,
};

verus! {

/// `q` occurs in `text` once `text` is lowercased.
pub open spec fn lower_contains(text: Seq<char>, q: Seq<char>) -> bool {
    contains_seq(str_to_lowercase(text), q)
}

/// The text of an optional string, empty when absent.
pub open spec fn text_or_empty(s: Option<String>) -> Seq<char> {
    match s {
        Some(v) => v@,
        None => Seq::empty(),
    }
}

/// The abbreviation of an optional material, empty when absent.
pub open spec fn material_text(m: Option<MaterialType>) -> Seq<char> {
    match m {
        Some(v) => v.spec_abbreviation(),
        None => Seq::empty(),
    }
}

/// A filament passes the filament list's search box: the lowercased filter is
/// empty, or occurs in the lowercased display name.
pub open spec fn spec_filament_matches_search(filter: Seq<char>, f: Filament) -> bool {
    let q = str_to_lowercase(filter);
    q.len() == 0 || lower_contains(join_words(name_words(f)), q)
}

/// A location with `id` whose lowercased name holds `q`.
pub open spec fn location_name_matches(locations: Seq<Location>, id: Option<u32>, q: Seq<char>) -> bool {
    match id {
        Some(lid) => exists|i: int|
            0 <= i < locations.len() && #[trigger] locations[i].id == lid && lower_contains(
                locations[i].name@,
                q,
            ),
        None => false,
    }
}

/// A spool passes the spool list's search box: the lowercased filter is empty,
/// or occurs in the lowercased filament display name, color name, material
/// abbreviation, or the name of the spool's location.
pub open spec fn spec_spool_matches_search(
    filter: Seq<char>,
    s: SpoolView,
    f: Filament,
    locations: Seq<Location>,
) -> bool {
    let q = str_to_lowercase(filter);
    q.len() == 0 || lower_contains(join_words(name_words(f)), q) || lower_contains(
        text_or_empty(s.color_name),
        q,
    ) || lower_contains(material_text(f.material), q) || location_name_matches(
        locations,
        s.location_id,
        q,
    )
}

/// The spool search holds exactly when one of its alternatives does.
proof fn lemma_spool_search_cases(filter: Seq<char>, s: SpoolView, f: Filament, locations: Seq<Location>)
    ensures
        ({
            let q = str_to_lowercase(filter);
            spec_spool_matches_search(filter, s, f, locations) == (q.len() == 0 || lower_contains(
                join_words(name_words(f)),
                q,
            ) || lower_contains(text_or_empty(s.color_name), q) || lower_contains(
                material_text(f.material),
                q,
            ) || location_name_matches(locations, s.location_id, q))
        }),
{
}

/// Whether `text`, lowercased, contains `q`.
fn lower_text_contains(text: &str, q: &Vec<char>) -> (r: bool)
    ensures
        r == lower_contains(text@, q@),
{
    let t = to_lowercase(text);
    let tc = chars_of(t.as_str());
    chars_contain(&tc, q)
}

/// Whether a filament passes the filament list's search box.
pub fn filament_matches_search(filter: &str, f: &Filament) -> (r: bool)
    ensures
        r == spec_filament_matches_search(filter@, *f),
{
    let q = to_lowercase(filter);
    let qc = chars_of(q.as_str());
    if qc.len() == 0 {
        return true;
    }
    let name = f.display_name();
    lower_text_contains(name.as_str(), &qc)
}

/// Whether a spool passes the spool list's search box; `locations` are the
/// known locations, whose names are searched too.
pub fn spool_matches_search(filter: &str, item: &SpoolResponse, locations: &Vec<Location>) -> (r:
    bool)
    ensures
        r == spec_spool_matches_search(filter@, item@.0, item@.1, locations@),
{
    proof {
        lemma_spool_search_cases(filter@, item@.0, item@.1, locations@);
    }
    let q = to_lowercase(filter);
    let qc = chars_of(q.as_str());
    if qc.len() == 0 {
        return true;
    }
    let name = item.filament.display_name();
    if lower_text_contains(name.as_str(), &qc) {
        return true;
    }
    let color_hit = match &item.spool.color_name {
        Some(c) => lower_text_contains(c.as_str(), &qc),
        None => {
            let empty = String::new();
            lower_text_contains(empty.as_str(), &qc)
        },
    };
    if color_hit {
        assert(lower_contains(text_or_empty(item@.0.color_name), qc@));
        return true;
    }
    let material_hit = match &item.filament.material {
        Some(m) => lower_text_contains(m.abbreviation(), &qc),
        None => {
            let empty = String::new();
            lower_text_contains(empty.as_str(), &qc)
        },
    };
    if material_hit {
        assert(lower_contains(material_text(item@.1.material), qc@));
        return true;
    }
    match item.spool.location_id {
        Some(lid) => {
            let mut i: usize = 0;
            while i < locations.len()
                invariant
                    i <= locations.len(),
                    item.spool.location_id == Some(lid),
                    qc@ == str_to_lowercase(filter@),
                    forall|j: int|
                        0 <= j < i ==> !(#[trigger] locations@[j].id == lid && lower_contains(
                            locations@[j].name@,
                            qc@,
                        )),
                decreases locations.len() - i,
            {
                if locations[i].id == lid && lower_text_contains(locations[i].name.as_str(), &qc) {
                    assert(location_name_matches(locations@, item@.0.location_id, qc@));
                    proof {
                        lemma_spool_search_cases(filter@, item@.0, item@.1, locations@);
                    }
                    return true;
                }
                i = i + 1;
            }
            false
        },
        None => false,
    }
}

/// The material filter: nothing selected lets every spool through; otherwise
/// the spool's material must be one of the selected abbreviations.
pub open spec fn spec_material_selected(selected: Seq<String>, m: Option<MaterialType>) -> bool {
    selected.len() == 0 || match m {
        Some(v) => exists|i: int| 0 <= i < selected.len() && #[trigger] selected[i]@ == v.spec_abbreviation(),
        None => false,
    }
}

/// Whether the material `m` passes the material filter `selected`.
pub fn material_selected(selected: &Vec<String>, m: &Option<MaterialType>) -> (r: bool)
    ensures
        r == spec_material_selected(selected@, *m),
{
    if selected.len() == 0 {
        return true;
    }
    match m {
        Some(v) => {
            let abbr = v.abbreviation();
            let mut i: usize = 0;
            while i < selected.len()
                invariant
                    i <= selected.len(),
                    selected.len() > 0,
                    *m == Some(*v),
                    abbr@ == v.spec_abbreviation(),
                    forall|j: int| 0 <= j < i ==> #[trigger] selected@[j]@ != v.spec_abbreviation(),
                decreases selected.len() - i,
            {
                if str_eq(selected[i].as_str(), abbr) {
                    assert(selected@[i as int]@ == v.spec_abbreviation());
                    return true;
                }
                i = i + 1;
            }
            false
        },
        None => false,
    }
}

/// A SpoolmanDB entry passes the form's database search: the query is not
/// empty and, lowercased, occurs in the lowercased manufacturer, material or name.
pub open spec fn spec_db_entry_matches(
    query: Seq<char>,
    manufacturer: Seq<char>,
    material: Seq<char>,
    name: Seq<char>,
) -> bool {
    let q = str_to_lowercase(query);
    query.len() > 0 && (lower_contains(manufacturer, q) || lower_contains(material, q)
        || lower_contains(name, q))
}

/// Whether a SpoolmanDB entry passes the database search of the spool form.
pub fn db_entry_matches(query: &str, manufacturer: &str, material: &str, name: &str) -> (r: bool)
    ensures
        r == spec_db_entry_matches(query@, manufacturer@, material@, name@),
{
    if query.unicode_len() == 0 {
        return false;
    }
    let q = to_lowercase(query);
    let qc = chars_of(q.as_str());
    lower_text_contains(manufacturer, &qc) || lower_text_contains(material, &qc)
        || lower_text_contains(name, &qc)
}

/// Clicking the header of column `clicked` while the table is sorted by `field`
/// (ascending when `asc`): the same column flips the direction, another column
/// becomes the sort column, ascending.
pub fn toggle_sort(field: &str, asc: bool, clicked: &str) -> (r: (String, bool))
    ensures
        field@ == clicked@ ==> r.0@ == field@ && r.1 == !asc,
        field@ != clicked@ ==> r.0@ == clicked@ && r.1,
{
    if str_eq(field, clicked) {
        (field.to_owned(), !asc)
    } else {
        (clicked.to_owned(), true)
    }
}

/// The number of pages that `total` items fill at `page_size` per page; one
/// page when the page size is zero.
pub open spec fn spec_total_pages(total: int, page_size: int) -> int {
    if page_size == 0 {
        1
    } else {
        (total + page_size - 1) / page_size
    }
}

/// The number of pages of the list.
pub fn total_pages(total: usize, page_size: usize) -> (r: usize)
    requires
        page_size == 0 || total + page_size <= usize::MAX,
    ensures
        r == spec_total_pages(total as int, page_size as int),
{
    if page_size == 0 {
        1
    } else {
        (total + page_size - 1) / page_size
    }
}

/// Whether a page follows page `page` (counted from zero).
pub fn has_next_page(page: usize, total: usize, page_size: usize) -> (r: bool)
    requires
        page < usize::MAX,
        page_size == 0 || total + page_size <= usize::MAX,
    ensures
        r == (page + 1 < spec_total_pages(total as int, page_size as int)),
{
    page + 1 < total_pages(total, page_size)
}

/// The items on page `page` (counted from zero) at `page_size` items per page.
pub fn page_items<T>(items: Vec<T>, page: usize, page_size: usize) -> (r: Vec<T>)
    requires
        page * page_size <= usize::MAX,
    ensures
        r@ == spec_paginate(items@, page * page_size, Some(page_size)),
{
    let start = page * page_size;
    paginate(items, start, Some(page_size))
}

} // verus!

verus! {

/// `k` is the first filament whose lowercased display name holds `q`.
pub open spec fn is_first_name_match(fs: Seq<Filament>, q: Seq<char>, k: int) -> bool {
    &&& 0 <= k < fs.len()
    &&& lower_contains(join_words(name_words(fs[k])), q)
    &&& forall|j: int| 0 <= j < k ==> !lower_contains(join_words(name_words(#[trigger] fs[j])), q)
}

/// No filament's lowercased display name holds `q`.
pub open spec fn no_name_match(fs: Seq<Filament>, q: Seq<char>) -> bool {
    forall|j: int| 0 <= j < fs.len() ==> !lower_contains(join_words(name_words(#[trigger] fs[j])), q)
}

/// The position of the first filament whose display name contains `query`,
/// both lowercased; the spool form selects that filament when the database
/// search finds nothing.
pub fn first_filament_matching(filaments: &Vec<Filament>, query: &str) -> (r: Option<usize>)
    ensures
        match r {
            Some(k) => is_first_name_match(filaments@, str_to_lowercase(query@), k as int),
            None => no_name_match(filaments@, str_to_lowercase(query@)),
        },
{
    let q = to_lowercase(query);
    let qc = chars_of(q.as_str());
    let mut i: usize = 0;
    while i < filaments.len()
        invariant
            i <= filaments.len(),
            qc@ == str_to_lowercase(query@),
            forall|j: int|
                0 <= j < i ==> !lower_contains(join_words(name_words(#[trigger] filaments@[j])), qc@),
        decreases filaments.len() - i,
    {
        let name = filaments[i].display_name();
        if lower_text_contains(name.as_str(), &qc) {
            return Some(i);
        }
        i = i + 1;
    }
    None
}

/// The spool form disables its filament selector when a search text matched
/// neither the database (`has_db_results`) nor any known filament's display name.
pub open spec fn spec_selector_disabled(query: Seq<char>, has_db_results: bool, fs: Seq<Filament>) -> bool {
    query.len() > 0 && !has_db_results && no_name_match(fs, str_to_lowercase(query))
}

/// Whether the spool form's filament selector is disabled.
pub fn filament_selector_disabled(query: &str, has_db_results: bool, filaments: &Vec<Filament>) -> (r:
    bool)
    ensures
        r == spec_selector_disabled(query@, has_db_results, filaments@),
{
    if query.unicode_len() == 0 || has_db_results {
        return false;
    }
    match first_filament_matching(filaments, query) {
        Some(k) => {
            assert(!no_name_match(filaments@, str_to_lowercase(query@))) by {
                assert(lower_contains(join_words(name_words(filaments@[k as int])), str_to_lowercase(query@)));
            }
            false
        },
        None => true,
    }
}

} // verus!

verus! {

/// The texts of a sequence of strings.
pub open spec fn texts(s: Seq<String>) -> Seq<Seq<char>> {
    s.map_values(|x: String| x@)
}

/// The material `m` is present and has the abbreviation `a`.
pub open spec fn has_abbreviation(m: Option<MaterialType>, a: Seq<char>) -> bool {
    match m {
        Some(x) => x.spec_abbreviation() == a,
        None => false,
    }
}

/// Some listed spool's filament has the material abbreviation `a`.
pub open spec fn lists_material(items: Seq<(SpoolView, Filament)>, a: Seq<char>) -> bool {
    exists|i: int| 0 <= i < items.len() && #[trigger] has_abbreviation(items[i].1.material, a)
}

/// The materials offered by the spool list's material filter: the distinct
/// abbreviations of the listed spools' filament materials, in ascending order.
pub fn available_materials(items: &Vec<SpoolResponse>) -> (r: Vec<String>)
    ensures
        strictly_increasing(texts(r@)),
        forall|a: Seq<char>|
            #[trigger] texts(r@).contains(a) <==> lists_material(
                items@.map_values(|x: SpoolResponse| x@),
                a,
            ),
{
    let ghost views = items@.map_values(|x: SpoolResponse| x@);
    let mut found: Vec<Vec<char>> = Vec::new();
    let mut i: usize = 0;
    while i < items.len()
        invariant
            i <= items.len(),
            views == items@.map_values(|x: SpoolResponse| x@),
            strictly_increasing(key_views(found@)),
            forall|a: Seq<char>|
                #[trigger] key_views(found@).contains(a) <==> lists_material(
                    views.take(i as int),
                    a,
                ),
        decreases items.len() - i,
    {
        let ghost prev = views.take(i as int);
        let ghost cur = views.take(i + 1);
        assert(cur[i as int] == items@[i as int]@);
        let ghost kept = key_views(found@);
        let material = &items[i].filament.material;
        assert(cur[i as int].1.material == *material);
        match material {
            Some(m) => {
                let key = chars_of(m.abbreviation());
                insert_distinct(&mut found, key);
            },
            None => {},
        }
        proof {
            assert forall|a: Seq<char>| #[trigger] key_views(found@).contains(a) <==> lists_material(
                cur,
                a,
            ) by {
                if has_abbreviation(*material, a) {
                    assert(has_abbreviation(cur[i as int].1.material, a));
                }
                if lists_material(cur, a) {
                    let w = choose|w: int|
                        0 <= w < cur.len() && #[trigger] has_abbreviation(cur[w].1.material, a);
                    if w < i {
                        assert(prev[w] == cur[w]);
                        assert(lists_material(prev, a));
                    }
                }
                if lists_material(prev, a) {
                    let w = choose|w: int|
                        0 <= w < prev.len() && #[trigger] has_abbreviation(prev[w].1.material, a);
                    assert(prev[w] == cur[w]);
                }
            }
        }
        i = i + 1;
    }
    assert(views.take(items.len() as int) =~= views);
    let mut r: Vec<String> = Vec::new();
    let mut k: usize = 0;
    while k < found.len()
        invariant
            k <= found.len(),
            texts(r@) == key_views(found@).take(k as int),
        decreases found.len() - k,
    {
        let s = string_from_chars(&found[k]);
        let ghost old_r = r@;
        r.push(s);
        proof {
            assert(texts(r@) =~= texts(old_r).push(
                found@[k as int]@,
            ));
            assert(key_views(found@).take(k + 1) =~= key_views(found@).take(k as int).push(
                found@[k as int]@,
            ));
        }
        k = k + 1;
    }
    assert(key_views(found@).take(found.len() as int) =~= key_views(found@));
    r
}

/// Which list the spool page shows.
#[derive(Clone, Copy, Debug, PartialEq, Eq, Structural)]
pub enum ViewMode {
    /// The spool table.
    Spool,
    /// The color swatch grid.
    Color,
}

/// Whether any filter of the spool page is in effect, which shows the
/// "Clear filters" button: a search text, a material selection other than all
/// available materials, a location or color filter (table only), "pinned
/// only" (grid only), or showing archived spools.
pub open spec fn spec_filters_active(
    search: Seq<char>,
    selected_materials: nat,
    available_materials: nat,
    mode: ViewMode,
    location_filter: Option<u32>,
    color_level: Seq<char>,
    pinned_only: bool,
    show_archived: bool,
) -> bool {
    ||| search.len() > 0
    ||| selected_materials != available_materials
    ||| (mode == ViewMode::Spool && location_filter is Some)
    ||| (mode == ViewMode::Spool && color_level != "off"@)
    ||| (mode == ViewMode::Color && pinned_only)
    ||| show_archived
}

/// Whether any filter of the spool page is in effect.
pub fn filters_active(
    search: &str,
    selected_materials: usize,
    available_materials: usize,
    mode: ViewMode,
    location_filter: Option<u32>,
    color_level: &str,
    pinned_only: bool,
    show_archived: bool,
) -> (r: bool)
    ensures
        r == spec_filters_active(
            search@,
            selected_materials as nat,
            available_materials as nat,
            mode,
            location_filter,
            color_level@,
            pinned_only,
            show_archived,
        ),
{
    search.unicode_len() > 0 || selected_materials != available_materials || (mode
        == ViewMode::Spool && location_filter.is_some()) || (mode == ViewMode::Spool && !str_eq(
        color_level,
        "off",
    )) || (mode == ViewMode::Color && pinned_only) || show_archived
}

} // verus!

verus! {

/// -1, 0 or 1 as `x` is below, equal to or above `y`.
pub open spec fn int_order(x: int, y: int) -> int {
    if x < y {
        -1
    } else if x == y {
        0
    } else {
        1
    }
}

/// The order of two texts by code points, as `String` orders them.
pub open spec fn text_order(x: Seq<char>, y: Seq<char>) -> int {
    if seq_lt(x, y) {
        -1
    } else if x == y {
        0
    } else {
        1
    }
}

/// The chronological order of two instants: by seconds, then nanoseconds, which
/// is how chrono orders the instants it holds.
pub open spec fn instant_order(a: Timestamp, b: Timestamp) -> int {
    if a.secs != b.secs {
        int_order(a.secs as int, b.secs as int)
    } else {
        int_order(a.nanos as int, b.nanos as int)
    }
}

/// An order kept when ascending, reversed otherwise.
pub open spec fn directed(o: int, asc: bool) -> int {
    if asc {
        o
    } else {
        -o
    }
}

/// How the spool table orders two rows by the column `field`: by id, by
/// lowercased filament display name, by location id with spools without a
/// location last in either direction, or by registration time; ascending when
/// `asc`. Unknown columns leave rows in place (0). The columns of remaining
/// weight, price per kilogram and hue compare floating-point values and are not
/// ordered here (`None`).
pub open spec fn spec_spool_column_order(
    a: (SpoolView, Filament),
    b: (SpoolView, Filament),
    field: Seq<char>,
    asc: bool,
) -> Option<int> {
    if field == "id"@ {
        Some(directed(int_order(a.0.id as int, b.0.id as int), asc))
    } else if field == "filament"@ {
        Some(
            directed(
                text_order(
                    str_to_lowercase(join_words(name_words(a.1))),
                    str_to_lowercase(join_words(name_words(b.1))),
                ),
                asc,
            ),
        )
    } else if field == "location"@ {
        Some(
            match (a.0.location_id, b.0.location_id) {
                (None, None) => 0,
                (None, Some(_)) => 1,
                (Some(_), None) => -1,
                (Some(x), Some(y)) => directed(int_order(x as int, y as int), asc),
            },
        )
    } else if field == "registered"@ {
        Some(directed(instant_order(a.0.registered, b.0.registered), asc))
    } else if field == "remaining_weight"@ || field == "price_per_kg"@ || field == "hue"@ {
        None
    } else {
        Some(0)
    }
}

/// -1, 0 or 1 as `x` is below, equal to or above `y`.
fn u64_order(x: u64, y: u64) -> (r: i8)
    ensures
        r == int_order(x as int, y as int),
{
    if x < y {
        -1
    } else if x == y {
        0
    } else {
        1
    }
}

/// An order kept when ascending, reversed otherwise.
fn direct(o: i8, asc: bool) -> (r: i8)
    requires
        -1 <= o <= 1,
    ensures
        r == directed(o as int, asc),
{
    if asc {
        o
    } else {
        -o
    }
}

/// The lowercased display name of a filament, as characters.
fn lowered_name(f: &Filament) -> (r: Vec<char>)
    ensures
        r@ == str_to_lowercase(join_words(name_words(*f))),
{
    let name = f.display_name();
    let lowered = to_lowercase(name.as_str());
    chars_of(lowered.as_str())
}

/// How the spool table orders the rows `a` and `b` by the column `field`
/// (see `spec_spool_column_order`).
pub fn spool_column_order(a: &SpoolResponse, b: &SpoolResponse, field: &str, asc: bool) -> (r:
    Option<i8>)
    ensures
        match spec_spool_column_order(a@, b@, field@, asc) {
            Some(o) => r == Some(o as i8) && -1 <= o <= 1,
            None => r is None,
        },
{
    if str_eq(field, "id") {
        Some(direct(u64_order(a.spool.id as u64, b.spool.id as u64), asc))
    } else if str_eq(field, "filament") {
        let x = lowered_name(&a.filament);
        let y = lowered_name(&b.filament);
        let o: i8 = if chars_lt(&x, &y) {
            -1
        } else if chars_eq(&x, &y) {
            0
        } else {
            1
        };
        Some(direct(o, asc))
    } else if str_eq(field, "location") {
        Some(
            match (a.spool.location_id, b.spool.location_id) {
                (None, None) => 0,
                (None, Some(_)) => 1,
                (Some(_), None) => -1,
                (Some(x), Some(y)) => direct(u64_order(x as u64, y as u64), asc),
            },
        )
    } else if str_eq(field, "registered") {
        let ta = a.spool.registered;
        let tb = b.spool.registered;
        let o: i8 = if ta.secs != tb.secs {
            if ta.secs < tb.secs {
                -1
            } else {
                1
            }
        } else {
            u64_order(ta.nanos as u64, tb.nanos as u64)
        };
        Some(direct(o, asc))
    } else if str_eq(field, "remaining_weight") || str_eq(field, "price_per_kg") || str_eq(
        field,
        "hue",
    ) {
        None
    } else {
        Some(0)
    }
}

} // verus!

verus! {

/// The positions of the SpoolmanDB entries (manufacturer, material, name) that
/// pass the database search for `query`, in order.
pub open spec fn db_match_positions(query: Seq<char>, entries: Seq<(String, String, String)>) -> Seq<int>
    decreases entries.len(),
{
    if entries.len() == 0 {
        Seq::empty()
    } else {
        let e = entries.last();
        db_match_positions(query, entries.drop_last()) + if spec_db_entry_matches(
            query,
            e.0@,
            e.1@,
            e.2@,
        ) {
            seq![entries.len() - 1]
        } else {
            Seq::empty()
        }
    }
}

/// At most the first ten items of `s`.
pub open spec fn first_ten(s: Seq<int>) -> Seq<int> {
    if s.len() <= 10 {
        s
    } else {
        s.take(10)
    }
}

/// The results the spool form's database search lists: the positions of the
/// first ten entries that match `query`, in order (none for an empty query).
pub fn db_search_results(query: &str, entries: &Vec<(String, String, String)>) -> (r: Vec<usize>)
    ensures
        r@.map_values(|i: usize| i as int) == first_ten(db_match_positions(query@, entries@)),
{
    let mut r: Vec<usize> = Vec::new();
    let mut i: usize = 0;
    while i < entries.len()
        invariant
            i <= entries.len(),
            r@.map_values(|k: usize| k as int) == first_ten(
                db_match_positions(query@, entries@.take(i as int)),
            ),
        decreases entries.len() - i,
    {
        let ghost before = db_match_positions(query@, entries@.take(i as int));
        let ghost old_r = r@;
        assert(entries@.take(i + 1).drop_last() =~= entries@.take(i as int));
        assert(entries@.take(i + 1).last() == entries@[i as int]);
        let hit = db_entry_matches(
            query,
            entries[i].0.as_str(),
            entries[i].1.as_str(),
            entries[i].2.as_str(),
        );
        if hit && r.len() < 10 {
            r.push(i);
            assert(r@.map_values(|k: usize| k as int) =~= old_r.map_values(|k: usize| k as int).push(
                i as int,
            ));
        }
        proof {
            let after = db_match_positions(query@, entries@.take(i + 1));
            if hit {
                assert(after == before + seq![i as int]);
                if before.len() >= 10 {
                    assert(first_ten(after) =~= first_ten(before));
                } else {
                    assert(first_ten(after) =~= before.push(i as int));
                }
            } else {
                assert(after =~= before);
            }
        }
        i = i + 1;
    }
    assert(entries@.take(entries.len() as int) =~= entries@);
    r
}

} // verus!

verus! {

/// The columns whose order is not floating point.
pub open spec fn orderable_column(field: Seq<char>) -> bool {
    !(field == "remaining_weight"@ || field == "price_per_kg"@ || field == "hue"@)
}

/// The order of two rows by an orderable column.
pub open spec fn column_order(
    a: (SpoolView, Filament),
    b: (SpoolView, Filament),
    field: Seq<char>,
    asc: bool,
) -> int {
    match spec_spool_column_order(a, b, field, asc) {
        Some(o) => o,
        None => 0,
    }
}

/// The text order is a total order.
proof fn lemma_text_order(x: Seq<char>, y: Seq<char>, z: Seq<char>)
    ensures
        text_order(x, x) == 0,
        text_order(x, y) == -text_order(y, x),
        text_order(x, y) < 0 && text_order(y, z) <= 0 ==> text_order(x, z) < 0,
        text_order(x, y) > 0 && text_order(y, z) >= 0 ==> text_order(x, z) > 0,
{
    lemma_seq_lt_irreflexive(x);
    lemma_seq_lt_irreflexive(y);
    lemma_seq_lt_irreflexive(z);
    lemma_seq_lt_total(x, y);
    lemma_seq_lt_total(y, z);
    lemma_seq_lt_total(x, z);
    if seq_lt(x, y) && seq_lt(y, x) {
        lemma_seq_lt_transitive(x, y, x);
    }
    if seq_lt(x, y) && seq_lt(y, z) {
        lemma_seq_lt_transitive(x, y, z);
    }
    if seq_lt(y, x) && seq_lt(z, y) {
        lemma_seq_lt_transitive(z, y, x);
    }
    if seq_lt(x, z) && seq_lt(z, x) {
        lemma_seq_lt_transitive(x, z, x);
    }
    if seq_lt(y, z) && seq_lt(z, y) {
        lemma_seq_lt_transitive(y, z, y);
    }
}

/// An orderable column orders rows totally: each row ties with itself, swapping
/// two rows negates their order, and a row before a second that does not come
/// after a third is before the third.
pub proof fn lemma_column_order(
    a: (SpoolView, Filament),
    b: (SpoolView, Filament),
    c: (SpoolView, Filament),
    field: Seq<char>,
    asc: bool,
)
    requires
        orderable_column(field),
    ensures
        spec_spool_column_order(a, b, field, asc) is Some,
        -1 <= column_order(a, b, field, asc) <= 1,
        column_order(a, a, field, asc) == 0,
        column_order(a, b, field, asc) == -column_order(b, a, field, asc),
        column_order(a, b, field, asc) < 0 && column_order(b, c, field, asc) <= 0 ==> column_order(
            a,
            c,
            field,
            asc,
        ) < 0,
{
    if field == "filament"@ && field != "id"@ {
        lemma_text_order(
            str_to_lowercase(join_words(name_words(a.1))),
            str_to_lowercase(join_words(name_words(b.1))),
            str_to_lowercase(join_words(name_words(c.1))),
        );
    }
}

/// The row views of a sequence of spool responses.
pub open spec fn row_views(rows: Seq<SpoolResponse>) -> Seq<(SpoolView, Filament)> {
    rows.map_values(|x: SpoolResponse| x@)
}

/// `p` witnesses that `result` is `items` stably sorted by the column `field`.
pub open spec fn is_column_sort_permutation(
    items: Seq<(SpoolView, Filament)>,
    field: Seq<char>,
    asc: bool,
    result: Seq<(SpoolView, Filament)>,
    p: Seq<int>,
) -> bool {
    &&& crate::sorting::is_index_permutation(p, items.len() as int)
    &&& result.len() == items.len()
    &&& forall|k: int| 0 <= k < result.len() ==> #[trigger] result[k] == items[p[k]]
    &&& forall|k1: int, k2: int|
        #![trigger result[k1], result[k2]]
        0 <= k1 < k2 < result.len() ==> column_order(result[k1], result[k2], field, asc) <= 0 && (
        column_order(result[k1], result[k2], field, asc) == 0 ==> p[k1] < p[k2])
}

/// `result` is `items` stably sorted by the column `field`: rows in column
/// order, tied rows in their original order.
pub open spec fn is_column_sort(
    items: Seq<(SpoolView, Filament)>,
    field: Seq<char>,
    asc: bool,
    result: Seq<(SpoolView, Filament)>,
) -> bool {
    exists|p: Seq<int>| #[trigger] is_column_sort_permutation(items, field, asc, result, p)
}

/// Whether row `a` goes before row `b` (strictly) in the column order.
fn row_before(a: &SpoolResponse, b: &SpoolResponse, field: &str, asc: bool) -> (r: bool)
    requires
        orderable_column(field@),
    ensures
        r == (column_order(a@, b@, field@, asc) < 0),
{
    proof {
        lemma_column_order(a@, b@, b@, field@, asc);
    }
    match spool_column_order(a, b, field, asc) {
        Some(o) => o < 0,
        None => false,
    }
}

/// Stably sort the rows by the column `field`, as the spool table does.
#[verifier::rlimit(60)]
#[verifier::spinoff_prover]
pub fn sort_rows(items: Vec<SpoolResponse>, field: &str, asc: bool) -> (r: Vec<SpoolResponse>)
    requires
        orderable_column(field@),
    ensures
        is_column_sort(row_views(items@), field@, asc, row_views(r@)),
{
    let n = items.len();
    let ghost iv = row_views(items@);
    let mut rest = items;
    let mut out: Vec<SpoolResponse> = Vec::new();
    let mut order: Vec<usize> = Vec::new();
    let mut i: usize = 0;
    while i < n
        invariant
            n == iv.len(),
            iv == row_views(items@),
            orderable_column(field@),
            i <= n,
            row_views(rest@) == iv.skip(i as int),
            out@.len() == i,
            order@.len() == i,
            forall|k: int| 0 <= k < i ==> #[trigger] order@[k] < i,
            forall|k1: int, k2: int|
                0 <= k1 < k2 < i ==> #[trigger] order@[k1] != #[trigger] order@[k2],
            forall|k: int| 0 <= k < i ==> #[trigger] row_views(out@)[k] == iv[order@[k] as int],
            forall|k1: int, k2: int|
                #![trigger row_views(out@)[k1], row_views(out@)[k2]]
                0 <= k1 < k2 < i ==> column_order(row_views(out@)[k1], row_views(out@)[k2], field@, asc)
                    <= 0 && (column_order(row_views(out@)[k1], row_views(out@)[k2], field@, asc) == 0
                    ==> order@[k1] < order@[k2]),
        decreases n - i,
    {
        let ghost old_out = row_views(out@);
        let ghost old_order = order@;
        assert(row_views(rest@).len() == rest@.len());
        assert(row_views(rest@)[0] == iv[i as int]);
        assert(row_views(rest@)[0] == rest@[0]@);
        let ghost old_rest = rest@;
        let t = rest.remove(0);
        assert(rest@ =~= old_rest.drop_first());
        assert forall|k: int| 0 <= k < row_views(rest@).len() implies #[trigger] row_views(rest@)[k]
            == iv.skip(i + 1)[k] by {
            assert(row_views(rest@)[k] == old_rest[k + 1]@);
            assert(row_views(old_rest)[k + 1] == iv.skip(i as int)[k + 1]);
        }
        let ghost tv = t@;
        assert(tv == iv[i as int]);
        assert(row_views(rest@) =~= iv.skip(i + 1));
        let mut pos: usize = 0;
        while pos < out.len() && !row_before(&t, &out[pos], field, asc)
            invariant
                pos <= out@.len(),
                out@.len() == i,
                old_out == row_views(out@),
                orderable_column(field@),
                tv == t@,
                forall|k: int| 0 <= k < pos ==> column_order(tv, #[trigger] old_out[k], field@, asc) >= 0,
            decreases out@.len() - pos,
        {
            assert(old_out[pos as int] == out@[pos as int]@);
            pos = pos + 1;
        }
        proof {
            if pos < out@.len() {
                assert(old_out[pos as int] == out@[pos as int]@);
            }
        }
        out.insert(pos, t);
        order.insert(pos, i);
        proof {
            let nv = row_views(out@);
            assert(nv =~= old_out.insert(pos as int, tv));
            assert forall|k1: int, k2: int|
                #![trigger nv[k1], nv[k2]]
                0 <= k1 < k2 < i + 1 implies column_order(nv[k1], nv[k2], field@, asc) <= 0 && (
                column_order(nv[k1], nv[k2], field@, asc) == 0 ==> order@[k1] < order@[k2]) by {
                if k1 == pos as int {
                    let o2 = k2 - 1;
                    assert(nv[k2] == old_out[o2]);
                    assert(column_order(tv, old_out[pos as int], field@, asc) < 0);
                    if o2 > pos as int {
                        assert(column_order(old_out[pos as int], old_out[o2], field@, asc) <= 0);
                    }
                    lemma_column_order(tv, old_out[pos as int], old_out[o2], field@, asc);
                    lemma_column_order(old_out[pos as int], old_out[pos as int], old_out[o2], field@, asc);
                } else if k2 == pos as int {
                    assert(nv[k1] == old_out[k1]);
                    assert(column_order(tv, old_out[k1], field@, asc) >= 0);
                    lemma_column_order(old_out[k1], tv, tv, field@, asc);
                    assert(order@[k1] == old_order[k1]);
                } else {
                    let o1 = if k1 < pos { k1 } else { k1 - 1 };
                    let o2 = if k2 < pos { k2 } else { k2 - 1 };
                    assert(nv[k1] == old_out[o1]);
                    assert(nv[k2] == old_out[o2]);
                    assert(order@[k1] == old_order[o1]);
                    assert(order@[k2] == old_order[o2]);
                }
            }
            assert forall|k: int| 0 <= k < i + 1 implies #[trigger] nv[k] == iv[order@[k] as int] by {
                if k < pos {
                    assert(nv[k] == old_out[k]);
                    assert(order@[k] == old_order[k]);
                } else if k > pos {
                    assert(nv[k] == old_out[k - 1]);
                    assert(order@[k] == old_order[k - 1]);
                }
            }
            assert forall|k1: int, k2: int| 0 <= k1 < k2 < i + 1 implies #[trigger] order@[k1]
                != #[trigger] order@[k2] by {
                if k1 != pos && k2 != pos {
                    let o1 = if k1 < pos { k1 } else { k1 - 1 };
                    let o2 = if k2 < pos { k2 } else { k2 - 1 };
                    assert(order@[k1] == old_order[o1]);
                    assert(order@[k2] == old_order[o2]);
                } else if k1 == pos {
                    assert(order@[k2] == old_order[k2 - 1]);
                } else {
                    assert(order@[k1] == old_order[k1]);
                }
            }
            assert forall|k: int| 0 <= k < i + 1 implies #[trigger] order@[k] < i + 1 by {
                if k < pos {
                    assert(order@[k] == old_order[k]);
                } else if k > pos {
                    assert(order@[k] == old_order[k - 1]);
                }
            }
        }
        i = i + 1;
    }
    proof {
        let p = order@.map_values(|x: usize| x as int);
        let rv = row_views(out@);
        assert(is_column_sort_permutation(iv, field@, asc, rv, p));
    }
    out
}

} // verus!

verus! {

/// A row is shown by the spool page: it passes the search box and the material
/// filter; in the table, the color filter (`color_ok`, which the caller works
/// out in floating point, true when the filter is off); in the color grid,
/// "pinned only" keeps the pinned spools.
pub open spec fn row_shown(
    item: (SpoolView, Filament),
    color_ok: bool,
    locations: Seq<Location>,
    search: Seq<char>,
    materials: Seq<String>,
    mode: ViewMode,
    pinned_only: bool,
    pinned: Seq<u32>,
) -> bool {
    &&& spec_spool_matches_search(search, item.0, item.1, locations)
    &&& spec_material_selected(materials, item.1.material)
    &&& (mode == ViewMode::Color || color_ok)
    &&& (mode != ViewMode::Color || !pinned_only || pinned.contains(item.0.id))
}

/// The rows the spool page shows, in list order.
pub open spec fn shown_rows(
    items: Seq<(SpoolView, Filament)>,
    color_ok: Seq<bool>,
    locations: Seq<Location>,
    search: Seq<char>,
    materials: Seq<String>,
    mode: ViewMode,
    pinned_only: bool,
    pinned: Seq<u32>,
) -> Seq<(SpoolView, Filament)>
    decreases items.len(),
{
    if items.len() == 0 {
        Seq::empty()
    } else {
        shown_rows(
            items.drop_last(),
            color_ok.take(items.len() - 1),
            locations,
            search,
            materials,
            mode,
            pinned_only,
            pinned,
        ) + if row_shown(
            items.last(),
            color_ok[items.len() - 1],
            locations,
            search,
            materials,
            mode,
            pinned_only,
            pinned,
        ) {
            seq![items.last()]
        } else {
            Seq::empty()
        }
    }
}

/// Whether `id` is among `pinned`.
fn is_pinned(pinned: &Vec<u32>, id: u32) -> (r: bool)
    ensures
        r == pinned@.contains(id),
{
    let mut i: usize = 0;
    while i < pinned.len()
        invariant
            i <= pinned.len(),
            forall|j: int| 0 <= j < i ==> pinned@[j] != id,
        decreases pinned.len() - i,
    {
        if pinned[i] == id {
            return true;
        }
        i = i + 1;
    }
    false
}

/// Whether the spool page shows the row `item`.
fn shows_row(
    item: &SpoolResponse,
    color_ok: bool,
    locations: &Vec<Location>,
    search: &str,
    materials: &Vec<String>,
    mode: ViewMode,
    pinned_only: bool,
    pinned: &Vec<u32>,
) -> (r: bool)
    ensures
        r == row_shown(item@, color_ok, locations@, search@, materials@, mode, pinned_only, pinned@),
{
    spool_matches_search(search, item, locations) && material_selected(
        materials,
        &item.filament.material,
    ) && (mode == ViewMode::Color || color_ok) && (mode != ViewMode::Color || !pinned_only
        || is_pinned(pinned, item.spool.id))
}

/// One page of the spool table and how many rows it has in all: the rows the
/// page shows (see `row_shown`; `color_ok[i]` is the color filter's verdict on
/// `items[i]`), stably sorted by the column `field`, then page `page` of
/// `page_size` rows. `None` for the columns that order by floating-point values.
#[verifier::spinoff_prover]
pub fn spool_table(
    items: Vec<SpoolResponse>,
    color_ok: &Vec<bool>,
    locations: &Vec<Location>,
    search: &str,
    materials: &Vec<String>,
    mode: ViewMode,
    pinned_only: bool,
    pinned: &Vec<u32>,
    field: &str,
    asc: bool,
    page: usize,
    page_size: usize,
) -> (r: Option<(Vec<SpoolResponse>, usize)>)
    requires
        items.len() == color_ok.len(),
        page * page_size <= usize::MAX,
    ensures
        !orderable_column(field@) ==> r is None,
        orderable_column(field@) ==> (r matches Some((rows, total)) && {
            let shown = shown_rows(
                row_views(items@),
                color_ok@,
                locations@,
                search@,
                materials@,
                mode,
                pinned_only,
                pinned@,
            );
            &&& total == shown.len()
            &&& exists|sorted: Seq<(SpoolView, Filament)>|
                is_column_sort(shown, field@, asc, sorted) && row_views(rows@) == spec_paginate(
                    sorted,
                    page * page_size,
                    Some(page_size),
                )
        }),
{
    if str_eq(field, "remaining_weight") || str_eq(field, "price_per_kg") || str_eq(field, "hue") {
        return None;
    }
    let n = items.len();
    let ghost iv = row_views(items@);
    let mut rest = items;
    let mut kept: Vec<SpoolResponse> = Vec::new();
    let mut i: usize = 0;
    while i < n
        invariant
            n == iv.len(),
            n == color_ok@.len(),
            i <= n,
            row_views(rest@) == iv.skip(i as int),
            row_views(kept@) == shown_rows(
                iv.take(i as int),
                color_ok@.take(i as int),
                locations@,
                search@,
                materials@,
                mode,
                pinned_only,
                pinned@,
            ),
        decreases n - i,
    {
        assert(row_views(rest@).len() == rest@.len());
        assert(row_views(rest@)[0] == rest@[0]@);
        let ghost old_rest = rest@;
        let ghost old_kept = row_views(kept@);
        let t = rest.remove(0);
        assert(rest@ =~= old_rest.drop_first());
        assert forall|k: int| 0 <= k < row_views(rest@).len() implies #[trigger] row_views(rest@)[k]
            == iv.skip(i + 1)[k] by {
            assert(row_views(rest@)[k] == old_rest[k + 1]@);
            assert(row_views(old_rest)[k + 1] == iv.skip(i as int)[k + 1]);
        }
        assert(t@ == iv[i as int]);
        let show = shows_row(&t, color_ok[i], locations, search, materials, mode, pinned_only, pinned);
        proof {
            let pre = iv.take(i + 1);
            assert(pre.drop_last() =~= iv.take(i as int));
            assert(pre.last() == iv[i as int]);
            assert(color_ok@.take(i + 1).take(i as int) =~= color_ok@.take(i as int));
            assert(color_ok@.take(i + 1)[i as int] == color_ok@[i as int]);
        }
        if show {
            kept.push(t);
            assert(row_views(kept@) =~= old_kept.push(iv[i as int]));
        } else {
            assert(row_views(kept@) =~= old_kept);
        }
        i = i + 1;
    }
    assert(iv.take(n as int) =~= iv);
    assert(color_ok@.take(n as int) =~= color_ok@);
    let total = kept.len();
    let sorted = sort_rows(kept, field, asc);
    let ghost sv = row_views(sorted@);
    let rows = page_items(sorted, page, page_size);
    assert(row_views(rows@) =~= spec_paginate(sv, page * page_size, Some(page_size))) by {
        let start = page * page_size;
        let rest_v = if start <= sv.len() {
            sv.skip(start as int)
        } else {
            Seq::empty()
        };
        assert forall|k: int| 0 <= k < row_views(rows@).len() implies #[trigger] row_views(rows@)[k]
            == spec_paginate(sv, page * page_size, Some(page_size))[k] by {
            assert(row_views(rows@)[k] == rows@[k]@);
        }
    }
    Some((rows, total))
}

/// The location sent with the spool list request: the location filter in the
/// table, none in the color grid (which has no location control).
pub fn list_location_param(mode: ViewMode, location_filter: Option<u32>) -> (r: Option<u32>)
    ensures
        r == (if mode == ViewMode::Color {
            None
        } else {
            location_filter
        }),
{
    match mode {
        ViewMode::Color => None,
        ViewMode::Spool => location_filter,
    }
}

} // verus!

verus! {

/// `s` cut at its commas: the pieces between them, in order (one piece when
/// there is no comma, empty pieces included).
pub open spec fn comma_pieces(s: Seq<char>) -> Seq<Seq<char>>
    decreases s.len(),
{
    if s.len() == 0 {
        seq![Seq::empty()]
    } else {
        let parts = comma_pieces(s.drop_last());
        if s.last() == ',' {
            parts.push(Seq::empty())
        } else {
            parts.update(parts.len() - 1, parts.last().push(s.last()))
        }
    }
}

/// The non-empty ones of `parts`, in order.
pub open spec fn non_empty(parts: Seq<Seq<char>>) -> Seq<Seq<char>>
    decreases parts.len(),
{
    if parts.len() == 0 {
        Seq::empty()
    } else {
        non_empty(parts.drop_last()) + if parts.last().len() > 0 {
            seq![parts.last()]
        } else {
            Seq::empty()
        }
    }
}

/// `comma_pieces` always yields at least one piece.
proof fn lemma_comma_pieces_len(s: Seq<char>)
    ensures
        comma_pieces(s).len() >= 1,
    decreases s.len(),
{
    if s.len() > 0 {
        lemma_comma_pieces_len(s.drop_last());
    }
}

/// The stored material filter ("PLA,PETG"): the non-empty comma-separated parts.
#[verifier::spinoff_prover]
pub fn material_filter_from_text(s: &str) -> (r: Vec<String>)
    ensures
        texts(r@) == non_empty(comma_pieces(s@)),
{
    let cs = chars_of(s);
    let mut out: Vec<String> = Vec::new();
    let mut cur: Vec<char> = Vec::new();
    let mut i: usize = 0;
    while i < cs.len()
        invariant
            i <= cs.len(),
            cs@ == s@,
            comma_pieces(cs@.take(i as int)).len() >= 1,
            texts(out@) == non_empty(comma_pieces(cs@.take(i as int)).drop_last()),
            cur@ == comma_pieces(cs@.take(i as int)).last(),
        decreases cs.len() - i,
    {
        let ghost parts = comma_pieces(cs@.take(i as int));
        let ghost old_out = texts(out@);
        proof {
            assert(cs@.take(i + 1).drop_last() =~= cs@.take(i as int));
            assert(cs@.take(i + 1).last() == cs@[i as int]);
        }
        if cs[i] == ',' {
            let piece = string_from_chars(&cur);
            if cur.len() > 0 {
                out.push(piece);
                assert(texts(out@) =~= old_out.push(cur@));
            }
            proof {
                let np = parts.push(Seq::empty());
                assert(np.drop_last() =~= parts);
                assert(parts =~= parts.drop_last().push(parts.last()));
                if cur@.len() > 0 {
                    assert(texts(out@) =~= non_empty(parts.drop_last()) + seq![parts.last()]);
                } else {
                    assert(texts(out@) =~= non_empty(parts.drop_last()) + Seq::empty());
                }
            }
            cur = Vec::new();
        } else {
            cur.push(cs[i]);
            proof {
                let np = parts.update(parts.len() - 1, parts.last().push(cs@[i as int]));
                assert(np.drop_last() =~= parts.drop_last());
            }
        }
        i = i + 1;
        proof {
            lemma_comma_pieces_len(cs@.take(i as int));
        }
    }
    assert(cs@.take(cs.len() as int) =~= cs@);
    let ghost parts = comma_pieces(cs@);
    let ghost old_out = texts(out@);
    if cur.len() > 0 {
        let piece = string_from_chars(&cur);
        out.push(piece);
        assert(texts(out@) =~= old_out.push(cur@));
    }
    proof {
        assert(parts =~= parts.drop_last().push(parts.last()));
        if cur@.len() > 0 {
            assert(texts(out@) =~= non_empty(parts.drop_last()) + seq![parts.last()]);
        } else {
            assert(texts(out@) =~= non_empty(parts.drop_last()) + Seq::empty());
        }
    }
    out
}

/// The stored location filter: the id it holds, none when it is empty or not a
/// `u32`, as `parse::<u32>().ok()` reads it.
pub fn location_filter_from_text(s: &str) -> (r: Option<u32>)
    ensures
        r == crate::forms::spec_parse_u32(s@),
{
    crate::forms::parse_u32(s)
}

} // verus!
