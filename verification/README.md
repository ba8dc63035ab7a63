# rise_of_industry

Tools for the game Rise of Industry: an importer that reads the game's
exported Unity assets and writes the game data (`data.json`), and a
calculator that plans production chains from that data. The library in
`src/` is verified with Verus; `app/` is the command line around it.

## Layout

- `src/index_types.rs`, `src/typed_index.rs`: compact index types that never
  hold their type's maximum, and the `TypedIndex` trait.
- `src/collection.rs`, `src/iter.rs`: vectors, boxed slices and slices
  indexed by a typed index, and iterators that pair each value with its
  typed index.
- `src/calculator/`: the serialized game data, the loaded tables (column by
  column, sorted by name, references resolved to indices), queries that
  follow references between tables, lookups by name, and the planning
  decisions that need no prices.
- `src/importer/`: Unity references and MonoBehaviours, the YAML tag
  rewrite, YAML documents as plain nodes, reading a gatherer from its
  prefab, asset paths, gathering MonoBehaviours into tables keyed by guid,
  and the export of the standard game's data.
- `app/`: `calculate` (default), `import`, `import-gatherers` and
  `list-assets`. File and directory access, serde, logging and all
  floating-point arithmetic (costs, rates, return on investment) live here.
- `tests/`: tests of the library on concrete values.
