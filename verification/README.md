# blast

The code-generation core of the `blast` web-application tool, verified with
Verus. From the resource states of a project (tables, fields, verbs, levels
of generation) it produces the generated sources of a Leptos/Axum backend and
a Vue frontend: SQL enum types, TypeScript types and API clients, Vue
composables and components, Leptos data helpers, forms, navigation and admin
menus, HTTP handlers and routers, flow stubs, auth scaffolding and
`.env.example`. It also indexes a project's public functions and routes (the
"arsenal") and answers tool queries about that index.

## Maps keyed by names

Two maps keyed by strings are vectors here. A resource's fields and verbs
(`ResourceState::fields`, `ResourceState::verbs`) are an insertion-ordered
map from name to state (an `indexmap::IndexMap` in a state file's model);
here each is a `Vec` in declaration order whose invariant is that each name
occurs once (`unique_names`, `unique_verbs`). The navigation pass's route
table, a `BTreeMap<String, ResolvedRoute>` that is only ever looked up by
route name, is a `RouteTable`: a `Vec` with one entry per name, where a
later insert replaces the earlier path. vstd gives no specification a proof
can use for a map with `String` keys, and the vector with its invariant
states exactly what the passes rely on: declaration order, and one entry
per name.

The edits of `Cargo.toml` keep `toml::Table` itself, hidden in `Manifest`,
and state what each edit keeps over three views of it: the dependencies
table's entries in order, whether that table exists, and the other
top-level entries in order.

## Layout

- `src/` — the verified library. Every renderer states the exact text it
  produces as a specification over sequences of characters; every generator
  pass has a `plan_files` function that states which files it writes and
  with what contents. `src/codegen/pipeline.rs` holds what the passes share
  (which resources a pass covers, when a file is rewritten, how a barrel is
  extended) and the laws that make reruns idempotent.
  - `state/` — resource, navigation, page and environment states.
  - `codegen/` — one module per generator.
  - `arsenal/` — the source index (`scanner`, with `rust_items` reading a
    file's items through `syn`) and the tool server's decisions (`mcp`,
    which reads each request line through `serde_json`).
  - `assets.rs`, `cargo.rs`, `release.rs` — the decisions of the asset,
    dependency and release commands (which files are published and under
    what name, CSS minification through `css-minify`, the picker lines and
    the edits of `Cargo.toml` through `toml`, the archive's contents) and
    what the user is told (`notice.rs`).
  - `text.rs` — string primitives with their specifications.
  - `matching.rs` — regular-expression matching through the `regex` crate.
- `app/` — the plumbing Verus does not check: reading and writing files,
  walking directories, writing JSON replies with `serde_json`, the JSON-RPC
  loop on stdio, downloads and the crates.io search with `reqwest`, SCSS
  with `sass-rs`, the terminal pickers of `dialoguer`, and the `cargo` and
  `tar` commands.
- `tests/` — tests of the library on concrete inputs.
