# stickymd

The decision logic of StickyMD, a Markdown sticky note for the Windows
desktop, as a verified library. Verus proves every function in `src/`
against its contract; the clipboard methods that the shell implements are
the ones left without one.

- `model` — generations, selections, fingerprints and observations of the
  note file.
- `flow` — autosave debounce, persistence and external-change
  reconciliation, recovery choices, Preview scheduling, the clipboard port,
  and what each completed persistence job makes the shell do.
- `config` — runtime configuration values, the single configuration writer,
  window preferences, and what loading `config.toml` decides.
- `window` — integer window geometry, the window shell reducer (docking,
  auto-collapse, hide to tray, ordered quit barriers) and its laws.
- `interaction` — the editor session with its IME composition state, and the
  find/replace session.
- `text` — grapheme navigation, UTF-8 splicing, newline normalization and
  small encodings.
- `assets`, `export` — local image destinations, managed-image decisions,
  image-paste budget and Markdown, the convergence of a paste's publication
  ledger, export file names.
- `shell` — input gating, key aliases and the routing of every pressed key,
  the opacity control, monitor identities and the tray icon.
- `export_plan` — the per-image decisions of an export (reuse by source,
  reuse by SHA-256 content digest, or a new content-addressed name).

`app/` holds what the library leaves to the program: reading and writing
`config.toml`, the floating-point placement and pointer geometry, and a
headless entry point. `tests/` exercises the library on concrete values.

The editor coordinator (the document buffer with undo, cut, copy, paste and
math-delimiter conversion) is not part of this library: it is built on the
StickyMD document core crate, which is not available to this build. The
editor's composition and navigation rules that sit above that buffer are in
`interaction` and `text`.
