# zones-core

Checks, reports, and plan construction for time-zone plans drawn along civic
boundaries, verified with Verus.

`src/` is the verified library:

- `sources`, `gates`, `limitations`, `county`, `points`: source manifests,
  acquisition gates, claim-support matrices, module boundaries, county
  assignment sets, reconciliation rows, and representative points, each with
  its validation and its report.
- `temporal`, `dataset`: temporal extents, offset rules, regimes, evaluation
  contexts, and the temporal dataset that ties them together.
- `zones`, `plans`, `evaluation`: zone catalogs, scenarios, plan-shape checks,
  movement against a reference assignment, and source-reference coverage.
- `candidates`, `baseline`, `rplan`, `geojoin`, `scores`: candidate plans on
  offset grids, county baseline plans, RPLAN context intake, GeoJSON feature
  joins, and per-unit and per-zone tallies.
- `render`, `format`, `text`, `messages`: escaping, offset labels, page text,
  and error messages.
- `laws`: properties that relate several functions.

`app/` is the `zones` command line. It reads and writes files, computes the
floating-point solar-time error measures and maps, calls the graph and
context crates, and hands the library plain values.
