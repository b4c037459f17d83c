# phala-registry

A registry of off-chain workers and gatekeepers, verified with Verus.

Workers prove by remote attestation that they run an accepted runtime, and the registry keeps their
public keys. Gatekeepers are workers that share a master key; the registry keeps their list, takes
in the first master key, and manages its rotation. What the registry has to tell is left as messages
for the off-chain side and as events for the chain.

## Layout

* `src/model.rs`: the registry as a mathematical state. Every operation is a function from the state
  before to the state after, or to the error with which it is refused.
* `src/registry.rs`: the executable registry. Each operation is proved to take the step of the model,
  and to change nothing when it is refused.
* `src/laws.rs`: theorems about the model: what every operation and every history keeps, what one
  operation undoes of another, and what cannot be forged.
* `src/attestation.rs`, `src/messaging.rs`, `src/primitives.rs`: what the registry speaks about.
* `src/scale.rs`, `src/crypto.rs`: the SCALE encoding, the hash and the signatures. The functions
  marked `external_body` there are the only ones that are trusted rather than proved; each names the
  function of `parity-scale-codec`, `sp-core` or `sp-io` that it calls.
* `src/storage.rs`: a map and lists of keys.
* `src/headers_cache.rs`: the command line of the headers cache, and the order of its steps.
* `app/`: the headers cache itself, around the library.

A chain chooses its accounts, its block numbers, its judge of attestations and its governance by
implementing `registry::Config`. The time and the block number are handed to the operations that need
them.
