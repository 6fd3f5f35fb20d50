//! The records kept in the data store.
use vstd::prelude::*;
use crate::clock::Timestamp;
use crate::material::MaterialType;
use crate::text::{chars_of, push_str, string_from_chars};

verus! {

/// RGBA color in sRGB color space, compatible with OpenTag3D / OpenPrintTag NFC tag standards.
#[derive(Clone, Copy, Debug, PartialEq, Eq, Structural)]
pub struct Rgba {
    pub r: u8,
    pub g: u8,
    pub b: u8,
    pub a: u8,
}

/// A measured quantity (millimetres, grams, g/cm³, a price) held as the IEEE-754
/// bit pattern of the binary32 number that the data file stores. The store only
/// carries these values; arithmetic on them happens where the responses are built.
#[derive(Clone, Copy, Debug, PartialEq, Eq, Structural)]
pub struct Quantity {
    pub bits: u32,
}

/// Copy of an optional string.
pub fn clone_opt_string(s: &Option<String>) -> (r: Option<String>)
    ensures
        r == *s,
{
    match s {
        Some(v) => Some(v.clone()),
        None => None,
    }
}

/// Copy of an optional material.
pub fn clone_opt_material(m: &Option<MaterialType>) -> (r: Option<MaterialType>)
    ensures
        r == *m,
{
    match m {
        Some(v) => Some(v.clone()),
        None => None,
    }
}

/// A filament material specification. Colors belong to spools, not filaments.
/// Fields align with OpenTag3D / OpenPrintTag NFC tag core and extended spec.
#[derive(Debug)]
pub struct Filament {
    pub id: u32,
    pub manufacturer: Option<String>,
    /// Material type per the OpenPrintTag `material_type_enum` spec (e.g. `PLA`, `PETG`).
    pub material: Option<MaterialType>,
    pub material_modifier: Option<String>,
    /// Filament diameter in mm.
    pub diameter: Quantity,
    /// Legacy field of schema v1 files: read during migration only, never written.
    pub net_weight: Option<Quantity>,
    /// Density in g/cm³.
    pub density: Quantity,
    /// Nominal print temperature in °C.
    pub print_temp: Option<i32>,
    /// Nominal bed temperature in °C.
    pub bed_temp: Option<i32>,
    /// Empty spool weight in grams (informational, not used for tracking).
    pub spool_weight: Option<Quantity>,
    pub min_print_temp: Option<i32>,
    pub max_print_temp: Option<i32>,
    pub min_bed_temp: Option<i32>,
    pub max_bed_temp: Option<i32>,
    pub registered: Timestamp,
    pub comment: Option<String>,
}

impl Clone for Filament {
    fn clone(&self) -> (r: Self)
        ensures
            r == *self,
    {
        Filament {
            id: self.id,
            manufacturer: clone_opt_string(&self.manufacturer),
            material: clone_opt_material(&self.material),
            material_modifier: clone_opt_string(&self.material_modifier),
            diameter: self.diameter,
            net_weight: self.net_weight,
            density: self.density,
            print_temp: self.print_temp,
            bed_temp: self.bed_temp,
            spool_weight: self.spool_weight,
            min_print_temp: self.min_print_temp,
            max_print_temp: self.max_print_temp,
            min_bed_temp: self.min_bed_temp,
            max_bed_temp: self.max_bed_temp,
            registered: self.registered,
            comment: clone_opt_string(&self.comment),
        }
    }
}

/// A physical spool of filament. Carries color information and weight tracking.
#[derive(Debug)]
pub struct Spool {
    pub id: u32,
    pub filament_id: u32,
    pub location_id: Option<u32>,
    /// Colors of this spool (1–4 RGBA values).
    pub colors: Vec<Rgba>,
    /// Human-readable color name (e.g. "Galaxy Black").
    pub color_name: Option<String>,
    /// Total weight at creation time (spool + filament), in grams (scale reading).
    pub initial_weight: Quantity,
    /// Latest scale reading (spool + filament), in grams.
    pub current_weight: Quantity,
    /// Net weight of filament only (no spool tare), in grams.
    pub net_weight: Option<Quantity>,
    /// Purchase price of the spool.
    pub price: Option<Quantity>,
    pub registered: Timestamp,
    pub first_used: Option<Timestamp>,
    pub last_used: Option<Timestamp>,
    pub comment: Option<String>,
    pub archived: bool,
}

/// Copy of a color list.
pub fn clone_colors(c: &Vec<Rgba>) -> (r: Vec<Rgba>)
    ensures
        r@ == c@,
{
    let mut r: Vec<Rgba> = Vec::new();
    let mut i: usize = 0;
    while i < c.len()
        invariant
            i <= c.len(),
            r@ == c@.take(i as int),
        decreases c.len() - i,
    {
        r.push(c[i]);
        i = i + 1;
        assert(r@ =~= c@.take(i as int));
    }
    assert(c@.take(c.len() as int) =~= c@);
    r
}

/// A spool as a mathematical value: the colors as a sequence.
pub struct SpoolView {
    pub id: u32,
    pub filament_id: u32,
    pub location_id: Option<u32>,
    pub colors: Seq<Rgba>,
    pub color_name: Option<String>,
    pub initial_weight: Quantity,
    pub current_weight: Quantity,
    pub net_weight: Option<Quantity>,
    pub price: Option<Quantity>,
    pub registered: Timestamp,
    pub first_used: Option<Timestamp>,
    pub last_used: Option<Timestamp>,
    pub comment: Option<String>,
    pub archived: bool,
}

impl View for Spool {
    type V = SpoolView;

    open spec fn view(&self) -> SpoolView {
        SpoolView {
            id: self.id,
            filament_id: self.filament_id,
            location_id: self.location_id,
            colors: self.colors@,
            color_name: self.color_name,
            initial_weight: self.initial_weight,
            current_weight: self.current_weight,
            net_weight: self.net_weight,
            price: self.price,
            registered: self.registered,
            first_used: self.first_used,
            last_used: self.last_used,
            comment: self.comment,
            archived: self.archived,
        }
    }
}

impl Clone for Spool {
    fn clone(&self) -> (r: Self)
        ensures
            r@ == self@,
    {
        Spool {
            id: self.id,
            filament_id: self.filament_id,
            location_id: self.location_id,
            colors: clone_colors(&self.colors),
            color_name: clone_opt_string(&self.color_name),
            initial_weight: self.initial_weight,
            current_weight: self.current_weight,
            net_weight: self.net_weight,
            price: self.price,
            registered: self.registered,
            first_used: self.first_used,
            last_used: self.last_used,
            comment: clone_opt_string(&self.comment),
            archived: self.archived,
        }
    }
}

/// A storage location for spools.
#[derive(Debug)]
pub struct Location {
    pub id: u32,
    /// Non-empty display name.
    pub name: String,
}

impl Clone for Location {
    fn clone(&self) -> (r: Self)
        ensures
            r == *self,
    {
        Location { id: self.id, name: self.name.clone() }
    }
}

} // verus!

verus! {

/// A spool together with its filament, as the API returns it.
#[derive(Debug)]
pub struct SpoolResponse {
    pub spool: Spool,
    /// The associated filament (embedded for convenience).
    pub filament: Filament,
}

impl View for SpoolResponse {
    type V = (SpoolView, Filament);

    open spec fn view(&self) -> (SpoolView, Filament) {
        (self.spool@, self.filament)
    }
}

impl SpoolResponse {
    /// Pair a spool with its filament.
    pub fn new(spool: Spool, filament: Filament) -> (r: Self)
        ensures
            r@ == (spool@, filament),
    {
        SpoolResponse { spool, filament }
    }
}

/// A location with the number of spools stored there.
#[derive(Debug)]
pub struct LocationResponse {
    pub location: Location,
    pub spool_count: usize,
}

/// A page of items with the total number of items that matched.
#[derive(Debug)]
pub struct ListResponse<T> {
    pub items: Vec<T>,
    pub total: usize,
}

/// Server info: version and data file.
#[derive(Debug)]
pub struct InfoResponse {
    pub version: String,
    pub data_file: String,
}

} // verus!

verus! {

/// Words joined with single spaces.
pub open spec fn join_words(ws: Seq<Seq<char>>) -> Seq<char>
    decreases ws.len(),
{
    if ws.len() == 0 {
        Seq::empty()
    } else if ws.len() == 1 {
        ws[0]
    } else {
        join_words(ws.drop_last()) + seq![' '] + ws.last()
    }
}

/// The present one of an optional word, as a sequence of zero or one words.
pub open spec fn word_if_present(w: Option<Seq<char>>) -> Seq<Seq<char>> {
    match w {
        Some(x) => seq![x],
        None => Seq::empty(),
    }
}

/// The words of a filament's display name: manufacturer, material, modifier, when present.
pub open spec fn name_words(f: Filament) -> Seq<Seq<char>> {
    word_if_present(
        match f.manufacturer {
            Some(m) => Some(m@),
            None => None,
        },
    ) + word_if_present(
        match f.material {
            Some(m) => Some(m.spec_abbreviation()),
            None => None,
        },
    ) + word_if_present(
        match f.material_modifier {
            Some(m) => Some(m@),
            None => None,
        },
    )
}

impl Filament {
    /// Derived display name: "{manufacturer} {material} {material_modifier}" with absent fields omitted.
    pub fn display_name(&self) -> (r: String)
        ensures
            r@ == join_words(name_words(*self)),
    {
        let mut words: Vec<&str> = Vec::new();
        if let Some(m) = &self.manufacturer {
            words.push(m.as_str());
        }
        if let Some(m) = &self.material {
            words.push(m.abbreviation());
        }
        if let Some(m) = &self.material_modifier {
            words.push(m.as_str());
        }
        let ghost ws = words@.map_values(|w: &str| w@);
        assert(ws =~= name_words(*self));
        let mut out: Vec<char> = Vec::new();
        let mut i: usize = 0;
        while i < words.len()
            invariant
                i <= words.len(),
                ws == words@.map_values(|w: &str| w@),
                out@ == join_words(ws.take(i as int)),
            decreases words.len() - i,
        {
            if i > 0 {
                out.push(' ');
            }
            push_str(&mut out, words[i]);
            assert(ws.take(i + 1).drop_last() =~= ws.take(i as int));
            if i == 0 {
                assert(join_words(ws.take(1)) == ws[0]);
            }
            assert(out@ =~= join_words(ws.take(i + 1)));
            i = i + 1;
        }
        assert(ws.take(words.len() as int) =~= ws);
        string_from_chars(&out)
    }
}

} // verus!
