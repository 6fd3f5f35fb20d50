# spoolman

A filament tracker for home 3D printing: filaments, spools and storage
locations kept in one JSON data file and served over a REST API.

- `src/` is the verified library (Verus). `store.rs` holds the store's
  operations with their contracts over the mathematical view in
  `datastore.rs`; `laws.rs` states and proves how the operations relate
  (what a lookup finds after a create, update or delete, migration, export and
  import). The other modules cover materials, sorting and paging, server
  configuration, error answers, and the logic of the web pages.
- `app/` is the server program: environment, data file, HTTP routes, JSON
  shapes, and the floating-point color and weight computations.
- `tests/` exercises the library on concrete values.
