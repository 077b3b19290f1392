# signet (verified core)

Signet signs, explains and checks self-signed desktop and mobile app releases. This crate
holds its logic as Verus-verified Rust: the functions in `src/` carry contracts that Verus
proves, except the small wrappers around outside crates (marked `external_body`), whose
contracts are trusted: their doc comments say what each one claims of the crate it calls.

- `src/` — the library: framework adapters and artifact discovery over a file-tree
  snapshot (`fs.rs`), project config and targets, identities and certificate
  fingerprints, release asset collection and `SHA256SUMS` coverage, the `verify` /
  `inspect` / `doctor` verdicts, Android / iOS / graduation argument lists, and the
  Tauri-only `selfsign` flow. Calls into `sha2`, `hex`, `x509-parser`, `rcgen`, `time` and
  `which` go through those wrappers.
- `tests/` — tests run against the compiled library.
- `app/` — the `signet` program: command line (`clap`), TOML files (`serde` / `toml`),
  reading the disk into the snapshot, running host tools, and printing.
