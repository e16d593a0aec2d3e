# greentic_config

Layered configuration resolution for Greentic hosts, verified with Verus.

A configuration is merged from five layers in strict precedence order,
`CLI > environment > project > user > defaults`, with the source (and, in the detailed
form, the origin: file path, environment variable or `cli`) of every leaf recorded. The
merged layer is resolved into a complete `GreenticConfig` and validated.

## Layout

- `src/` — the verified library.
  - `layers.rs`, `overlay.rs`: partial layers, how one overrides another, and the merge
    laws (identity, associativity, idempotence, later layer wins).
  - `precedence.rs`: across many layers, each leaf holds the value of the last layer that
    sets it.
  - `provenance.rs`, `merge.rs`: provenance maps and the merge state machines.
  - `resolve.rs`, `defaults.rs`, `paths.rs`: resolution of a merged layer into a complete
    configuration, the defaults layer and the directory layout.
  - `env.rs`, `numbers.rs`: `GREENTIC_*` environment variables and value parsing.
  - `validate.rs`, `domain.rs`: validation errors and warnings.
  - `overrides.rs`, `resolver.rs`: typed CLI overrides and the resolver.
  - `explain.rs`: the explain report text.
  - `weburl.rs`, `text.rs`, `types.rs`: URLs, strings and the configuration schema.
- `tests/` — tests run against the compiled library.
- `app/` — the `greentic-config` command: reading files and the environment, TOML/JSON
  and serde forms of the types, and the command-line interface.
