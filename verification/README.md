# nca_cli

The verified core of `nca`, a terminal coding assistant: command-line parsing, the
composer and its completion menus, pickers and popups, the transcript view and its
selection, session listings, exports and report text. Every function under `src/` is
checked by Verus against its `requires`/`ensures` contract; calls into outside crates
(`unicode-width`, `chrono`, `similar`, `base64`, `serde_json`, `ratatui`) sit behind small
trusted wrappers whose contracts say what those crates' sources show.

- `src/` — the library, one module per concern (`cli*` for the command line, `composer*`
  for the input line, `*_picker`/`popup_views` for popups, `transcript*`/`viewport` for
  the transcript pane, `session*`/`export` for saved sessions).
- `tests/` — scenarios and the laws, checked on concrete values.
- `app/` — the `nca` program: argument handling, shell completion and self-upgrade. The
  agent runtime that the other commands drive is not part of this crate.
