# ref_data

Versioned reference data for a residential-mortgage pricing and eligibility
engine: FHA and conforming loan limits, USDA rural and income eligibility,
area median income by tract, agency program rules and lender overlays, FHA
MIP, VA funding fees and entitlement, conventional MI coverage and premium
rate cards, LLPA grids, rate sheets, HOI estimates, state MCC and
down-payment-assistance catalogs, and seller-concession caps.

Every lookup, rule and calculation is written in Verus and proved against
its contract: what a table lookup answers is the first matching record,
how year fallback picks a file, how overlays may only tighten agency rules,
how premiums and fees are computed and floored, and the exact derivation
trail that each `Derived` answer carries.

## Layout

- `src/` — the verified library. `store.rs` holds the store's decisions
  (year resolution, file naming, record selection, the assembled
  geo-eligibility record, error messages); `lookup.rs` the keyed record
  lookups; `sql_rows.rs` the conversion of stored SQL rows into records;
  the other modules one dataset or calculation each. `money.rs` and
  `provenance.rs` hold the money types and the provenance/derivation
  model shared by all of them.
- `app/` — the I/O around the library: the JSON-file store that reads the
  data directory, the SQLite store (rusqlite) seeded from it, and the serde
  copies of the library's types.
- `tests/` — scenario tests on the library, each with the datasets it needs
  built in memory.
