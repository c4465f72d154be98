# Manta signer

The signer holds a root seed and answers the requests of a wallet: it derives addresses and assets
from the seed, and it signs private transfers and reclaims once the user has authorized them.

- `src/` decides. It is verified with Verus: the functions of the library are event-driven steps,
  and what a whole request comes to is proved from their contracts. For instance, data for a
  private transfer are generated only after the user was shown the summary of the batch that the
  request decodes to, and gave a password that unlocks the seed that is used.
- `app/` acts. It runs an HTTP server, performs the actions that the library returns, and hands
  their outcomes back. It decodes requests: that the summary that is shown and the details that
  data are generated from come from the same decoded value is its part. The dialog with the user,
  the seed file and the zero-knowledge proofs come from the application that embeds it, through the
  traits in `app/backend.rs`; it also calls the Manta ledger's crates `manta_api` and
  `manta_crypto`.
- `tests/` runs the library.

The outside functions that the library calls are the Base58 encoder of the `bs58` crate, in
`src/base58.rs`, and the secrets of the `secrecy` crate, which are wiped when they are dropped, in
`src/secret.rs`.
