//! Remote attestation, as the registry sees it.

use crate::crypto::{blake2_256, blake2_256_digest};
use crate::primitives::{EcdhPublicKey, WorkerPublicKey, H256};
use crate::scale::{
    bytes_encoding, encode_block, encode_bytes, encode_option, encode_u32, encode_words, le_bytes,
    option_encoding, words_encoding, Account,
};
use vstd::prelude::*;

verus! {

/// The evidence that a worker runs where it says.
#[derive(Debug)]
pub enum Attestation {
    /// A report of the Intel attestation service on an SGX enclave.
    SgxIas { ra_report: Vec<u8>, signature: Vec<u8>, raw_signing_cert: Vec<u8> },
}

/// Why an attestation is turned down.
#[derive(Clone, Copy, Debug)]
pub enum AttestationError {
    PRuntimeRejected,
    InvalidIASSigningCert,
    InvalidReport,
    InvalidQuoteStatus,
    BadIASReport,
    OutdatedIASReport,
    UnknownQuoteBodyFormat,
    InvalidUserDataHash,
}

/// What a valid attestation tells of a worker.
#[derive(Clone, Copy, Debug)]
pub struct ConfidentialReport {
    pub confidence_level: u8,
}

/// A judge of attestations.
pub trait AttestationValidator {
    /// Validates the attestation and the hash of the user data that it carries, at the Unix time
    /// `now` in seconds. Where `verify_pruntime` holds, the runtime has to stand in the allow list.
    fn validate(
        attestation: &Attestation,
        user_data_hash: &[u8; 32],
        now: u64,
        verify_pruntime: bool,
        pruntime_allowlist: &Vec<Vec<u8>>,
    ) -> Result<ConfidentialReport, AttestationError>;
}

/// What a worker states of itself when it asks to be registered.
#[derive(Debug)]
pub struct WorkerRegistrationInfo<AccountId> {
    /// The version of the runtime.
    pub version: u32,
    /// The machine that the worker runs on.
    pub machine_id: Vec<u8>,
    /// The identity public key of the worker.
    pub pubkey: WorkerPublicKey,
    /// The public key for ECDH communication.
    pub ecdh_pubkey: EcdhPublicKey,
    /// The genesis block of the relay chain that the worker follows.
    pub genesis_block_hash: H256,
    pub features: Vec<u32>,
    /// The account that may control the worker.
    pub operator: Option<AccountId>,
}

impl<AccountId: Account> WorkerRegistrationInfo<AccountId> {
    /// The lists are short enough to be encoded.
    pub open spec fn encodable(self) -> bool {
        self.machine_id@.len() <= u32::MAX && self.features@.len() <= u32::MAX
    }

    /// The SCALE encoding: the fields one after the other.
    pub open spec fn encoding(self) -> Seq<u8> {
        le_bytes(self.version as nat, 4) + bytes_encoding(self.machine_id@) + self.pubkey.0@
            + self.ecdh_pubkey.0@ + self.genesis_block_hash.0@ + words_encoding(self.features@)
            + option_encoding(self.operator)
    }

    pub fn encode(&self) -> (r: Vec<u8>)
        requires
            self.encodable(),
        ensures
            r@ == self.encoding(),
    {
        let mut out = encode_u32(self.version);
        let mut field = encode_bytes(&self.machine_id);
        out.append(&mut field);
        let mut field = encode_block(&self.pubkey.0);
        out.append(&mut field);
        let mut field = encode_block(&self.ecdh_pubkey.0);
        out.append(&mut field);
        let mut field = encode_block(&self.genesis_block_hash.0);
        out.append(&mut field);
        let mut field = encode_words(&self.features);
        out.append(&mut field);
        let mut field = encode_option(&self.operator);
        out.append(&mut field);
        out
    }

    /// The hash that the attestation of the worker has to carry.
    pub fn runtime_info_hash(&self) -> (r: [u8; 32])
        requires
            self.encodable(),
        ensures
            r@ == blake2_256_digest(self.encoding()),
    {
        let encoded = self.encode();
        blake2_256(&encoded)
    }
}

} // verus!
