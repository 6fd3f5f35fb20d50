//! Spoolman: a lightweight filament tracker for home 3D printing.
//!
//! This crate holds the verified core: the data model, the JSON store's
//! in-memory operations, the server's configuration and error answers, and
//! the decisions of the web pages (search filters, paging, the SpoolmanDB
//! cache, material and color parsing, the forms).
//!
//! Verified functions do not panic on any input their `requires` admits, with
//! two faults of the environment excepted, as in any program that reads the
//! clock or draws random numbers: creating or updating a record reads the clock
//! with chrono's `Utc::now`, which panics when the system clock reads before
//! 1970, and drawing an id uses `rand::rng()`, which panics when the operating
//! system's random source fails.
pub mod text;

pub mod material;
pub mod sorting;
pub mod clock;
pub mod random;
pub mod models;
pub mod requests;
pub mod datastore;
pub mod store;
pub mod spoolmandb;
pub mod color;
pub mod client;
pub mod config;
pub mod api;
pub mod listing;
pub mod dbcache;
pub mod datapath;
pub mod preferences;
pub mod forms;
pub mod laws;
