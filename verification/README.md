# archivindex

Verified core logic of the Archivindex web archiving and indexing tools, written in Verus.

- `src/` is the library. Every function of it is verified against its contract, except the
  small `#[verifier::external_body]` wrappers that call `std`, `data-encoding`, `toml_edit` and
  `serde_json`, whose contracts are trusted:
  - `field`, `query`: CDX field names and the CDX server query model;
  - `digest`: digest text formats over the `data-encoding` encodings;
  - `lines`: the decisions of a bounded, line-numbering line reader;
  - `http`: request framing and response building of the scripted test servers;
  - `cli`: exit statuses, verbosity levels, plurals and configuration formats;
  - `publication`: the decisions behind publishing a complete file;
  - `properties`: extension properties of JSON-backed models;
  - `workspace`: the workspace policy check of `cargo archivindex-build`, over TOML documents
    parsed by `toml_edit`;
  - `text`: the string and number helpers the others share.
- `tests/` runs the library on concrete inputs.
- `app/` is the `cargo archivindex-build` program and the I/O around the library: reading files
  and running `cargo metadata`, the line reader's reads, the loopback HTTP servers, publishing
  files, logging, progress bars, configuration files and serde forms.

The `cargo archivindex-build` program here checks a workspace (`check`); it does not provide the
`sync` command, which would rewrite manifests to repair what can be repaired mechanically.
