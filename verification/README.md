# arca

Arca is a local-first password vault. Its core is a Verus library whose behaviour is
stated in `requires`/`ensures` contracts and proved:

- `src/types.rs`, `src/entry.rs`: vault entries, patches, bounded revision history and
  search.
- `src/generator.rs`: the password generator (length clamping, character classes,
  ambiguous-character exclusion).
- `src/crypto.rs`: Argon2id key derivation and XChaCha20-Poly1305 sealing; decryption
  inverts encryption, and a payload whose tag was altered is refused.
- `src/history.rs`, `src/json.rs`: the JSON form of an entry's revision history.
- `src/kdbx.rs`, `src/vault.rs`: KDBX 4 storage through the `keepass` crate, with the pinned
  ChaCha20/Argon2id parameters. The database a vault is stored in reads back to the same
  entries (times as printed from the parsed instant); saved bytes are the file keepass
  writes for that database under the given password, and they reopen under that password
  to the saved name and entries, times kept to the second, for vaults whose texts the
  format keeps.
- `src/api.rs`: the client contract (capabilities per client kind, DTOs, stable errors).
- `src/mobile_session.rs`: the mobile vault session state machine.
- `src/desktop/`: the decisions behind the desktop commands (session, settings, path
  suggestions, remembered vault).

Calls into outside crates sit behind small trusted items, each with a doc comment saying
what its contract claims.

`app/` is the desktop shell: it owns the files, the preferences file, the directory
listings and the frontend protocol (one JSON command per line on standard input, one
JSON answer per line on standard output), and calls the library for every decision.
