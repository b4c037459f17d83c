//! Keys, hashes, accounts, origins and time.

use vstd::prelude::*;
use vstd::std_specs::cmp::PartialEqSpec;

verus! {

/// Compares two blocks of thirty-two bytes.
pub fn same_block(a: &[u8; 32], b: &[u8; 32]) -> (r: bool)
    ensures
        r == (*a == *b),
{
    let mut i: usize = 0;
    while i < 32
        invariant
            i <= 32,
            forall|j: int| 0 <= j < i ==> a@[j] == b@[j],
        decreases 32 - i,
    {
        if a[i] != b[i] {
            return false;
        }
        i = i + 1;
    }
    assert(*a =~= *b);
    true
}

/// Reads a block of thirty-two bytes from a vector of that length.
pub fn block_from(bytes: &Vec<u8>) -> (r: [u8; 32])
    requires
        bytes@.len() == 32,
    ensures
        r@ == bytes@,
{
    let mut block: [u8; 32] = [0u8; 32];
    let mut i: usize = 0;
    while i < 32
        invariant
            i <= 32,
            bytes@.len() == 32,
            forall|j: int| 0 <= j < i ==> block@[j] == bytes@[j],
        decreases 32 - i,
    {
        block[i] = bytes[i];
        i = i + 1;
    }
    assert(block@ =~= bytes@);
    block
}

/// The public half of an sr25519 key pair.
#[derive(Clone, Copy, Debug, Eq)]
pub struct Sr25519Public(pub [u8; 32]);

impl PartialEq for Sr25519Public {
    fn eq(&self, other: &Self) -> (r: bool) {
        same_block(&self.0, &other.0)
    }
}

impl vstd::std_specs::cmp::PartialEqSpecImpl for Sr25519Public {
    open spec fn obeys_eq_spec() -> bool {
        true
    }

    open spec fn eq_spec(&self, other: &Self) -> bool {
        *self == *other
    }
}

impl View for Sr25519Public {
    type V = Sr25519Public;

    open spec fn view(&self) -> Sr25519Public {
        *self
    }
}

/// The identity key of a worker.
pub type WorkerPublicKey = Sr25519Public;

/// The key that the gatekeepers share.
pub type MasterPublicKey = Sr25519Public;

/// The key of a contract.
pub type ContractPublicKey = Sr25519Public;

/// The key of a cluster of contracts.
pub type ClusterPublicKey = Sr25519Public;

/// The key of a worker for ECDH communication.
#[derive(Clone, Copy, Debug, Eq)]
pub struct EcdhPublicKey(pub [u8; 32]);

impl PartialEq for EcdhPublicKey {
    fn eq(&self, other: &Self) -> (r: bool) {
        same_block(&self.0, &other.0)
    }
}

impl vstd::std_specs::cmp::PartialEqSpecImpl for EcdhPublicKey {
    open spec fn obeys_eq_spec() -> bool {
        true
    }

    open spec fn eq_spec(&self, other: &Self) -> bool {
        *self == *other
    }
}

/// A hash of 256 bits.
#[derive(Clone, Copy, Debug, Eq)]
pub struct H256(pub [u8; 32]);

impl H256 {
    /// The hash all of whose bytes are `byte`.
    pub fn repeat_byte(byte: u8) -> (r: H256)
        ensures
            forall|i: int| 0 <= i < 32 ==> r.0@[i] == byte,
    {
        H256([byte; 32])
    }
}

impl PartialEq for H256 {
    fn eq(&self, other: &Self) -> (r: bool) {
        same_block(&self.0, &other.0)
    }
}

impl vstd::std_specs::cmp::PartialEqSpecImpl for H256 {
    open spec fn obeys_eq_spec() -> bool {
        true
    }

    open spec fn eq_spec(&self, other: &Self) -> bool {
        *self == *other
    }
}

impl View for H256 {
    type V = H256;

    open spec fn view(&self) -> H256 {
        *self
    }
}

/// The address of a contract.
pub type ContractId = H256;

/// The address of a cluster of contracts.
pub type ContractClusterId = H256;

/// The time since the Unix epoch.
#[derive(Clone, Copy, Debug)]
pub struct UnixTime {
    /// Whole seconds.
    pub secs: u64,
    /// The nanoseconds beyond the whole seconds, fewer than a second's worth.
    pub nanos: u32,
}

impl UnixTime {
    /// The whole milliseconds since the epoch.
    pub open spec fn millis(self) -> int {
        self.secs * 1000 + self.nanos as int / 1_000_000
    }

    /// The milliseconds as a 64-bit number, at most the largest one.
    pub open spec fn saturated_millis(self) -> u64 {
        if self.millis() <= u64::MAX {
            self.millis() as u64
        } else {
            u64::MAX
        }
    }

    pub fn from_secs(secs: u64) -> (r: UnixTime)
        ensures
            r.secs == secs,
            r.nanos == 0,
    {
        UnixTime { secs, nanos: 0 }
    }

    pub fn as_secs(&self) -> (r: u64)
        ensures
            r == self.secs,
    {
        self.secs
    }

    pub fn as_millis(&self) -> (r: u128)
        ensures
            r == self.millis(),
    {
        self.secs as u128 * 1000 + (self.nanos / 1_000_000) as u128
    }

    /// The milliseconds, capped to what 64 bits hold.
    pub fn as_saturated_millis(&self) -> (r: u64)
        ensures
            r == self.saturated_millis(),
    {
        let millis: u128 = self.as_millis();
        if millis <= u64::MAX as u128 {
            millis as u64
        } else {
            u64::MAX
        }
    }
}

/// Who calls the registry.
#[derive(Debug)]
pub enum Origin<AccountId> {
    /// The chain itself.
    Root,
    /// An account that signed the call.
    Signed(AccountId),
    /// Nobody in particular.
    Unsigned,
}

/// The caller is not entitled to the call.
#[derive(Clone, Copy, Debug)]
pub struct BadOrigin;

/// Accepts the chain itself and nobody else.
pub fn ensure_root<AccountId>(origin: &Origin<AccountId>) -> (r: Result<(), BadOrigin>)
    ensures
        r is Ok <==> origin is Root,
{
    match origin {
        Origin::Root => Ok(()),
        _ => Err(BadOrigin),
    }
}

/// Accepts any account that signed, and returns it.
pub fn ensure_signed<AccountId>(origin: Origin<AccountId>) -> (r: Result<AccountId, BadOrigin>)
    ensures
        match origin {
            Origin::Signed(account) => r == Ok::<AccountId, BadOrigin>(account),
            _ => r is Err,
        },
{
    match origin {
        Origin::Signed(account) => Ok(account),
        _ => Err(BadOrigin),
    }
}

/// A rule that decides which callers may govern the registry.
pub trait EnsureOrigin<AccountId> {
    fn ensure_origin(origin: &Origin<AccountId>) -> Result<(), BadOrigin>;
}

/// Only the chain itself governs.
pub struct EnsureRoot;

impl<AccountId> EnsureOrigin<AccountId> for EnsureRoot {
    fn ensure_origin(origin: &Origin<AccountId>) -> (r: Result<(), BadOrigin>)
        ensures
            r is Ok <==> origin is Root,
    {
        ensure_root(origin)
    }
}

/// Keys and hashes are compared byte for byte, and contracts speak of them as they are.
pub proof fn law_blocks_are_compared_by_their_bytes(a: [u8; 32], b: [u8; 32])
    ensures
        ({
            let same = forall|i: int| #![trigger a@[i]] 0 <= i < 32 ==> a@[i] == b@[i];
            &&& Sr25519Public(a).eq_spec(&Sr25519Public(b)) <==> same
            &&& EcdhPublicKey(a).eq_spec(&EcdhPublicKey(b)) <==> same
            &&& H256(a).eq_spec(&H256(b)) <==> same
            &&& Sr25519Public(a)@ == Sr25519Public(a)
            &&& H256(a)@ == H256(a)
        }),
{
    if forall|i: int| #![trigger a@[i]] 0 <= i < 32 ==> a@[i] == b@[i] {
        assert(a =~= b);
    }
}

} // verus!
