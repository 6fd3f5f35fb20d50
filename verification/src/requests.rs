//! Request bodies of the REST API.
use vstd::prelude::*;
use crate::clock::Timestamp;
use crate::material::MaterialType;
use crate::models::{Quantity, Rgba};

verus! {

/// Body of `POST /api/v1/filament`.
#[derive(Debug)]
pub struct CreateFilament {
    pub manufacturer: Option<String>,
    pub material: Option<MaterialType>,
    pub material_modifier: Option<String>,
    /// 1.75 mm when the request leaves it out.
    pub diameter: Quantity,
    /// Accepted and ignored: net weight belongs to spools.
    pub net_weight: Option<Quantity>,
    pub density: Quantity,
    pub print_temp: Option<i32>,
    pub bed_temp: Option<i32>,
    pub spool_weight: Option<Quantity>,
    pub min_print_temp: Option<i32>,
    pub max_print_temp: Option<i32>,
    pub min_bed_temp: Option<i32>,
    pub max_bed_temp: Option<i32>,
    pub comment: Option<String>,
}

/// Body of `PATCH /api/v1/filament/{id}`: `None` leaves a field unchanged.
#[derive(Debug, Default)]
pub struct UpdateFilament {
    pub manufacturer: Option<String>,
    pub material: Option<MaterialType>,
    pub material_modifier: Option<String>,
    pub diameter: Option<Quantity>,
    /// Accepted and ignored: net weight belongs to spools.
    pub net_weight: Option<Quantity>,
    pub density: Option<Quantity>,
    pub print_temp: Option<i32>,
    pub bed_temp: Option<i32>,
    pub spool_weight: Option<Quantity>,
    pub min_print_temp: Option<i32>,
    pub max_print_temp: Option<i32>,
    pub min_bed_temp: Option<i32>,
    pub max_bed_temp: Option<i32>,
    pub comment: Option<String>,
}

/// Body of `POST /api/v1/spool`.
#[derive(Debug)]
pub struct CreateSpool {
    pub filament_id: u32,
    pub colors: Vec<Rgba>,
    pub color_name: Option<String>,
    pub location_id: Option<u32>,
    pub initial_weight: Quantity,
    pub net_weight: Option<Quantity>,
    pub price: Option<Quantity>,
    pub first_used: Option<Timestamp>,
    pub last_used: Option<Timestamp>,
    pub comment: Option<String>,
}

/// Body of `PATCH /api/v1/spool/{id}`: `None` leaves a field unchanged, and an
/// empty `color_name` or `comment` clears it.
#[derive(Debug, Default)]
pub struct UpdateSpool {
    pub colors: Option<Vec<Rgba>>,
    pub color_name: Option<String>,
    pub location_id: Option<u32>,
    pub current_weight: Option<Quantity>,
    pub net_weight: Option<Quantity>,
    pub price: Option<Quantity>,
    pub first_used: Option<Timestamp>,
    pub last_used: Option<Timestamp>,
    pub comment: Option<String>,
    pub archived: Option<bool>,
}

/// Body of `POST /api/v1/location`.
#[derive(Debug)]
pub struct CreateLocation {
    pub name: String,
}

/// Body of `PATCH /api/v1/location/{id}`.
#[derive(Debug)]
pub struct UpdateLocation {
    pub name: String,
}

/// Body of `PUT /api/v1/setting/{key}`.
#[derive(Debug)]
pub struct PutSetting {
    pub value: String,
}

} // verus!
