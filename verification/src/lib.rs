//! A verified registry of off-chain workers and gatekeepers.
//!
//! The registry keeps the public keys of the workers that proved, by remote attestation, that they
//! run an accepted runtime; it keeps the list of gatekeepers among them, the master key that the
//! gatekeepers share, and the rotation of that key. Every operation is a transition of
//! [`model::RegistryState`], and the executable [`registry::Pallet`] is proved to take exactly
//! these transitions.
//!
//! * [`primitives`]: keys, hashes, accounts, origins and time;
//! * [`scale`]: the SCALE encoding of what a worker attests;
//! * [`crypto`]: hashing and signature verification;
//! * [`storage`]: a map with an exact model, and lists of keys;
//! * [`attestation`] and [`messaging`]: what comes in from, and goes out to, the off-chain side;
//! * [`model`]: the registry as a state and its transitions;
//! * [`registry`]: the executable registry;
//! * [`effects`]: what each operation does, field by field;
//! * [`laws`]: what holds of the registry as a whole;
//! * [`headers_cache`]: the command line of the companion headers cache.

pub mod attestation;
pub mod crypto;
pub mod effects;
pub mod headers_cache;
pub mod laws;
pub mod messaging;
pub mod model;
pub mod primitives;
pub mod registry;
pub mod scale;
pub mod storage;
