# qubit-local-files

A policy-aware local filesystem library whose decisions are proved with Verus.

The library separates what a filesystem operation decides from the native
calls that carry it out. Path resolution, option validation, error
classification, atomic-write and persistence outcomes, file-name handling and
the lossless path codec live in `src/` and are verified against their
contracts. Each native step (opening, renaming, synchronizing, removing) is
performed by the caller, which hands its outcome back to the verified decision
that gives it meaning.

## Layout

- `src/` — the verified library.
  - `path_model.rs`, `local_relative_path.rs`, `local_paths.rs`,
    `local_path_codec.rs` — byte-level path model, rooted relative paths,
    lexical path helpers and the canonical text form of native paths.
  - `local_namespace.rs` — Host and Rooted namespaces and path resolution
    against a current directory.
  - `local_file_system.rs`, `local_file_system_validation.rs`,
    `local_fs_options.rs` — the stateful filesystem service: configuration,
    defaults, and the preparation of every operation.
  - `local_atomic_writer.rs`, `local_root_atomic_writer.rs` — the decisions of
    path-based and root-anchored atomic replacement.
  - `local_temp_dir.rs`, `local_temp_file.rs`, `local_persist_error.rs` —
    temporary resources and their persistence.
  - `local_filenames.rs` — file-name helpers and random names.
  - the remaining modules hold errors, options, metadata and display text.
- `tests/` — tests of the library on concrete values.
- `app/` — the native side: operating-system calls, conversions between
  native values and their models, and the standard error traits.
