//! Hashing and signature verification.

use crate::primitives::Sr25519Public;
use vstd::prelude::*;

verus! {

/// The BLAKE2b digest of 256 bits of `data`.
pub uninterp spec fn blake2_256_digest(data: Seq<u8>) -> Seq<u8>;

/// `sp_io::hashing::blake2_256`: the result depends on the hashed bytes alone, and is called
/// [`blake2_256_digest`].
#[verifier::external_body]
pub(crate) fn blake2_256(data: &Vec<u8>) -> (r: [u8; 32])
    ensures
        r@ == blake2_256_digest(data@),
{
    sp_io::hashing::blake2_256(data)
}

/// `sp_core::sr25519::Signature::try_from` on a slice: sixty-four bytes are a signature, and hold
/// just these bytes; nothing else is one.
#[verifier::external_body]
pub(crate) fn signature_from(raw: &Vec<u8>) -> (r: Result<[u8; 64], ()>)
    ensures
        match r {
            Ok(signature) => raw@.len() == 64 && signature@ == raw@,
            Err(_) => raw@.len() != 64,
        },
{
    sp_core::sr25519::Signature::try_from(raw.as_slice()).map(|signature| signature.0)
}

/// Whether `signature` is a valid sr25519 signature of `message` under `pubkey`.
pub uninterp spec fn sr25519_valid(
    signature: Seq<u8>,
    message: Seq<u8>,
    pubkey: Seq<u8>,
) -> bool;

/// `sp_io::crypto::sr25519_verify`: the verdict depends on the signature, the message and the key
/// alone, and is called [`sr25519_valid`]. The transcript that the message is hashed into writes its
/// length in 32 bits and panics where it does not fit, so longer messages are left out.
#[verifier::external_body]
pub(crate) fn sr25519_verify(
    signature: [u8; 64],
    message: &Vec<u8>,
    pubkey: &Sr25519Public,
) -> (r: bool)
    requires
        message@.len() <= u32::MAX,
    ensures
        r == sr25519_valid(signature@, message@, pubkey.0@),
{
    let signature = sp_core::sr25519::Signature::from_raw(signature);
    let pubkey = sp_core::sr25519::Public::from_raw(pubkey.0);
    sp_io::crypto::sr25519_verify(&signature, message, &pubkey)
}

} // verus!
