# xmip_core

Core Xmip identifiers and the identity vocabulary, verified with Verus.

- `src/ids.rs`, `src/uuid_text.rs`: the identifier newtypes, their canonical
  UUID text and reading it back (`parse_uuid`), with the proof that the text
  of every identifier reads back as that identifier.
- `src/mechanism.rs`, `src/mechanism/declared.rs`: mechanisms and the fixed
  class, layer and assurance of each one Xmip implements.
- `src/isolation.rs`: identity contexts, their facts, and whether two may
  share a host process.
- `src/text.rs`: trimming, hexadecimal reading and the order fact names sort in.
- `app/`: serde support for the identifiers, as their canonical text.
