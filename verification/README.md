# lethe

A note keeper in which every note is a directory named by its identifier, holding a
`meta.toml` (identifier, creation and modification time, aliases, and free-form keys) and a
`body.md`.

- `src/` is the library, verified with Verus: identifiers and their text form
  (`identifier.rs`), timestamps (`time.rs`), the free-form TOML table as the library sees it
  (`table.rs`), notes, their batched edits, and the steps of reading and writing them
  (`note.rs`), the command line as data (`cli.rs`), and the laws that hold across these
  operations (`laws.rs`).
- `app/` is the command-line program around it: argument parsing, the files, the TOML text of
  the metadata, and the error messages.
- `tests/` runs the library on concrete notes.
