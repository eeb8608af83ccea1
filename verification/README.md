# flint_build

A build tool for Dart packages: it reads `flint.yaml` (or, without one, `build.yaml` and
`pubspec.yaml`), parses the Dart sources under `lib/` with tree-sitter, selects the annotated
classes and enums, prepares their JSON (de)serialisation expressions, and renders a
`.g.dart` file per source with a Tera template.

The library in `src/` is written in Verus: every function carries a contract, and the
properties that span functions are proved in `src/laws.rs` and `src/parser/type_laws.rs`.

- `config/` — `flint.yaml`, `build.yaml`, `pubspec.yaml` and how they combine.
- `parser/` — the Dart model, type parsing, and reading declarations from the syntax tree.
- `generators/` — selection of declarations and the per-field JSON expressions.
- `basic/` — the minimal `@JsonSerializable` model and its code emitter.
- `discovery.rs`, `builder.rs`, `registry.rs` — which files count, and the build's decisions.
- `text.rs`, `named_map.rs`, `casing.rs` — strings, an insertion-ordered map, case styles.

Calls into `serde_yaml`, `tree-sitter` and `heck` sit behind small trusted wrappers whose
contracts name what those crates return.

`app/` is the command-line program: argument handling, file-system walks and I/O, template
rendering with Tera, and watch mode. `tests/` runs the library on concrete inputs.
