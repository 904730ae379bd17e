# governance-app

The rules of a software governance application, written in Verus and proved
against their contracts: tamper-evident audit logs with hash chains and Merkle
anchoring, server authorization, multisignature thresholds, merge blocking
and status checks, time locks, emergency tiers, economic node vetoes, ruleset
versioning and fork transitions, the security gate's reports, release
checksums, Nostr zap parsing and the governance review policy.

Layout:

- `src/` — the verified library. Each module states its model as spec
  functions and proves every public function against it; laws that relate
  several functions are public proof functions named `lemma_*`. Calls into
  outside crates (`sha2`, `secp256k1`, `chrono`, `serde_json`, `base64`,
  `hex`) go through small trusted wrappers whose doc comments say what is
  assumed of them.
- `tests/` — tests run against the compiled library with the real outside
  crates.
- `app/` — the command-line front end: file and network I/O, argument
  parsing, YAML and JSON reading, and the computations on decimal numbers.
