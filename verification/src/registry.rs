//! The executable registry.

use crate::attestation::{
    Attestation, AttestationError, AttestationValidator, ConfidentialReport, WorkerRegistrationInfo,
};
use crate::crypto::{blake2_256_digest, signature_from, sr25519_valid, sr25519_verify};
use crate::messaging::{
    new_worker_event, DecodedMessage, GKRegistryEvent, GatekeeperChange, GatekeeperEvent,
    GatekeeperLaunch, Message, MessageOrigin, MessageView, OutboundMessage, RegisteredWorker,
    RegistryEvent, SignedMessage, WorkerEvent, WorkerIdentity,
};
use crate::model::{
    bench_measurable, bench_score, ecdh_key, forced_worker, gatekeeper_message, governed,
    signature_verdict, took, DispatchError, DispatchResult, Error, Event, RegistryState, WorkerInfo,
    FORCED_CONFIDENCE_LEVEL, MAX_SCORE,
};
use crate::primitives::{
    block_from, ensure_root, ensure_signed, BadOrigin, ClusterPublicKey, ContractClusterId,
    ContractId, ContractPublicKey, EcdhPublicKey, EnsureOrigin, MasterPublicKey, Origin,
    Sr25519Public, UnixTime, WorkerPublicKey, H256,
};
use crate::scale::Account;
use crate::storage::{list_contains, list_remove, views, StorageMap};
use vstd::prelude::*;

verus! {

/// What a chain decides about its registry.
pub trait Config {
    /// The accounts of the chain.
    type AccountId: Account;

    /// The block numbers of the chain.
    type BlockNumber;

    /// The judge of attestations.
    type AttestationValidator: AttestationValidator;

    /// The callers that govern the registry.
    type GovernanceOrigin: EnsureOrigin<Self::AccountId>;

    /// Whether an attestation has to name an allowed runtime. It should hold in production.
    const VERIFY_PRUNTIME: bool;

    /// Whether a worker has to follow an allowed relay chain. It should hold in production.
    const VERIFY_RELAYCHAIN_GENESIS_BLOCK_HASH: bool;
}

/// The registry.
pub struct Pallet<T: Config> {
    /// The public keys of the gatekeepers.
    pub gatekeepers: Vec<WorkerPublicKey>,
    /// The master public key of the gatekeepers.
    pub gatekeeper_master_pubkey: Option<MasterPublicKey>,
    /// The rotation counter, which always equals the latest rotation id.
    pub rotation_counter: u64,
    /// The id of the rotation under way.
    ///
    /// Only one rotation is allowed at one time. Since the request is broadcast to all gatekeepers,
    /// it should be finished if there is one functional gatekeeper.
    pub master_key_rotation_lock: Option<u64>,
    /// Mapping from worker public key to worker.
    pub workers: StorageMap<WorkerPublicKey, WorkerInfo<T::AccountId>>,
    /// Mapping from contract address to public key.
    pub contract_keys: StorageMap<ContractId, ContractPublicKey>,
    /// Mapping from cluster to public key.
    pub cluster_keys: StorageMap<ContractClusterId, ClusterPublicKey>,
    /// Public keys for secret topics.
    pub topic_keys: StorageMap<Vec<u8>, Vec<u8>>,
    /// The number of blocks to run the benchmark.
    pub benchmark_duration: Option<u32>,
    /// Allow list of runtime digests. Only a runtime within the list can register.
    pub pruntime_allowlist: Vec<Vec<u8>>,
    /// The effective height of each runtime.
    pub pruntime_timestamps: StorageMap<Vec<u8>, T::BlockNumber>,
    /// Allow list of relay chain genesis blocks. Only a genesis within the list can register.
    pub relaychain_genesis_block_hash_allowlist: Vec<H256>,
    /// The messages pushed to the off-chain side.
    pub pushed: Vec<OutboundMessage>,
    /// The messages queued before the first block.
    pub queued: Vec<OutboundMessage>,
    /// The events deposited on the chain.
    pub events: Vec<Event>,
}

impl<T: Config> View for Pallet<T> {
    type V = RegistryState<T::AccountId, T::BlockNumber>;

    open spec fn view(&self) -> RegistryState<T::AccountId, T::BlockNumber> {
        RegistryState {
            gatekeepers: views(self.gatekeepers@),
            master_pubkey: self.gatekeeper_master_pubkey,
            rotation_counter: self.rotation_counter,
            rotation_lock: self.master_key_rotation_lock,
            workers: self.workers@.map_values(|worker: WorkerInfo<T::AccountId>| worker@),
            contract_keys: self.contract_keys@,
            cluster_keys: self.cluster_keys@,
            topic_keys: self.topic_keys@.map_values(|pubkey: Vec<u8>| pubkey@),
            benchmark_duration: self.benchmark_duration,
            pruntime_allowlist: views(self.pruntime_allowlist@),
            pruntime_timestamps: self.pruntime_timestamps@,
            genesis_allowlist: views(self.relaychain_genesis_block_hash_allowlist@),
            pushed: views(self.pushed@),
            queued: views(self.queued@),
            events: self.events@,
        }
    }
}

impl<T: Config> Pallet<T> {
    /// A registry in which nothing was ever registered.
    pub fn new() -> (r: Self)
        ensures
            r@ == RegistryState::<T::AccountId, T::BlockNumber>::empty(),
    {
        let r = Pallet {
            gatekeepers: Vec::new(),
            gatekeeper_master_pubkey: None,
            rotation_counter: 0,
            master_key_rotation_lock: None,
            workers: StorageMap::new(),
            contract_keys: StorageMap::new(),
            cluster_keys: StorageMap::new(),
            topic_keys: StorageMap::new(),
            benchmark_duration: None,
            pruntime_allowlist: Vec::new(),
            pruntime_timestamps: StorageMap::new(),
            relaychain_genesis_block_hash_allowlist: Vec::new(),
            pushed: Vec::new(),
            queued: Vec::new(),
            events: Vec::new(),
        };
        assert(r@ =~= RegistryState::<T::AccountId, T::BlockNumber>::empty());
        r
    }

    /// The digests of the allowed runtimes.
    pub fn pruntime_allowlist(&self) -> (r: &Vec<Vec<u8>>)
        ensures
            *r == self.pruntime_allowlist,
    {
        &self.pruntime_allowlist
    }

    /// The genesis blocks of the allowed relay chains.
    pub fn relaychain_genesis_allowlist(&self) -> (r: &Vec<H256>)
        ensures
            *r == self.relaychain_genesis_block_hash_allowlist,
    {
        &self.relaychain_genesis_block_hash_allowlist
    }

    /// Sends a message to the off-chain side.
    pub fn push_message(&mut self, message: OutboundMessage)
        ensures
            final(self)@ == old(self)@.push(message@),
    {
        self.pushed.push(message);
        assert(self@ =~= old(self)@.push(message@));
    }

    /// Keeps a message for the off-chain side until the chain runs.
    pub fn queue_message(&mut self, message: OutboundMessage)
        ensures
            final(self)@ == old(self)@.queue(message@),
    {
        self.queued.push(message);
        assert(self@ =~= old(self)@.queue(message@));
    }

    /// Announces an event on the chain.
    pub fn deposit_event(&mut self, event: Event)
        ensures
            final(self)@ == old(self)@.deposit(event),
    {
        self.events.push(event);
        assert(self@ =~= old(self)@.deposit(event));
    }

    /// Stores a worker under its key.
    fn store_worker(&mut self, key: WorkerPublicKey, worker: WorkerInfo<T::AccountId>)
        ensures
            final(self)@ == (RegistryState {
                workers: old(self)@.workers.insert(key, worker@),
                ..old(self)@
            }),
    {
        self.workers.insert(key, worker);
        assert(self@ =~= (RegistryState {
            workers: old(self)@.workers.insert(key, worker@),
            ..old(self)@
        }));
    }
}

/// The governance was asked about the caller, and the call took the step if it agreed.
pub open spec fn asked_and_took<T: Config>(
    origin: Origin<T::AccountId>,
    pre: RegistryState<T::AccountId, T::BlockNumber>,
    step: Result<RegistryState<T::AccountId, T::BlockNumber>, DispatchError>,
    post: RegistryState<T::AccountId, T::BlockNumber>,
    result: DispatchResult,
) -> bool {
    exists|authority: Result<(), BadOrigin>|
        #[trigger] call_ensures(T::GovernanceOrigin::ensure_origin, (&origin,), authority) && took(
            pre,
            governed(authority, step),
            post,
            result,
        )
}

/// Calls that only the governance may make.
///
/// Each comes in two forms: one asks the governance about the caller, and the other is given the
/// answer.
impl<T: Config> Pallet<T> {
    /// Sets the number of blocks to run the benchmark.
    ///
    /// Can only be called by the governance.
    pub fn force_set_benchmark_duration(
        &mut self,
        origin: Origin<T::AccountId>,
        value: u32,
    ) -> (r: DispatchResult)
        ensures
            asked_and_took::<T>(
                origin,
                old(self)@,
                Ok(old(self)@.benchmark_duration_set(value)),
                final(self)@,
                r,
            ),
    {
        let authority = T::GovernanceOrigin::ensure_origin(&origin);
        self.force_set_benchmark_duration_with(authority, value)
    }

    /// Sets the duration of the benchmark, given what the governance said of the caller.
    pub fn force_set_benchmark_duration_with(
        &mut self,
        authority: Result<(), BadOrigin>,
        value: u32,
    ) -> (r: DispatchResult)
        ensures
            took(
                old(self)@,
                governed(authority, Ok(old(self)@.benchmark_duration_set(value))),
                final(self)@,
                r,
            ),
    {
        if authority.is_err() {
            return Err(DispatchError::BadOrigin);
        }
        self.benchmark_duration = Some(value);
        assert(self@ =~= old(self)@.benchmark_duration_set(value));
        Ok(())
    }

    /// Registers a gatekeeper.
    ///
    /// Can only be called by the governance.
    pub fn register_gatekeeper(
        &mut self,
        origin: Origin<T::AccountId>,
        gatekeeper: WorkerPublicKey,
    ) -> (r: DispatchResult)
        ensures
            asked_and_took::<T>(
                origin,
                old(self)@,
                old(self)@.register_gatekeeper(gatekeeper),
                final(self)@,
                r,
            ),
    {
        let authority = T::GovernanceOrigin::ensure_origin(&origin);
        self.register_gatekeeper_with(authority, gatekeeper)
    }

    /// Registers a gatekeeper, given what the governance said of the caller.
    pub fn register_gatekeeper_with(
        &mut self,
        authority: Result<(), BadOrigin>,
        gatekeeper: WorkerPublicKey,
    ) -> (r: DispatchResult)
        ensures
            took(
                old(self)@,
                governed(authority, old(self)@.register_gatekeeper(gatekeeper)),
                final(self)@,
                r,
            ),
    {
        if authority.is_err() {
            return Err(DispatchError::BadOrigin);
        }
        // The gatekeepers do not change during a rotation
        if self.master_key_rotation_lock.is_some() {
            return Err(DispatchError::Module(Error::MasterKeyInRotation));
        }
        // Wait for the lead gatekeeper to upload the master public key
        if !self.gatekeepers.is_empty() && self.gatekeeper_master_pubkey.is_none() {
            return Err(DispatchError::Module(Error::MasterKeyUninitialized));
        }
        if !list_contains(&self.gatekeepers, &gatekeeper) {
            let ecdh_pubkey = match self.workers.get(&gatekeeper) {
                Some(worker_info) => worker_info.ecdh_pubkey,
                None => {
                    return Err(DispatchError::Module(Error::WorkerNotFound));
                },
            };
            self.gatekeepers.push(gatekeeper);
            let message = Self::new_gatekeeper_message(
                self.gatekeepers.len(),
                gatekeeper,
                ecdh_pubkey,
            );
            self.push_message(message);
            self.deposit_event(Event::GatekeeperAdded { pubkey: gatekeeper });
        }
        assert(self@ =~= old(self)@.register_gatekeeper(gatekeeper)->Ok_0);
        Ok(())
    }

    /// Unregisters a gatekeeper.
    ///
    /// At least one gatekeeper should be available. Can only be called by the governance.
    pub fn unregister_gatekeeper(
        &mut self,
        origin: Origin<T::AccountId>,
        gatekeeper: WorkerPublicKey,
    ) -> (r: DispatchResult)
        ensures
            asked_and_took::<T>(
                origin,
                old(self)@,
                old(self)@.unregister_gatekeeper(gatekeeper),
                final(self)@,
                r,
            ),
    {
        let authority = T::GovernanceOrigin::ensure_origin(&origin);
        self.unregister_gatekeeper_with(authority, gatekeeper)
    }

    /// Unregisters a gatekeeper, given what the governance said of the caller.
    pub fn unregister_gatekeeper_with(
        &mut self,
        authority: Result<(), BadOrigin>,
        gatekeeper: WorkerPublicKey,
    ) -> (r: DispatchResult)
        ensures
            took(
                old(self)@,
                governed(authority, old(self)@.unregister_gatekeeper(gatekeeper)),
                final(self)@,
                r,
            ),
    {
        if authority.is_err() {
            return Err(DispatchError::BadOrigin);
        }
        // The gatekeepers do not change during a rotation
        if self.master_key_rotation_lock.is_some() {
            return Err(DispatchError::Module(Error::MasterKeyInRotation));
        }
        if !list_contains(&self.gatekeepers, &gatekeeper) {
            return Err(DispatchError::Module(Error::InvalidGatekeeper));
        }
        if self.gatekeepers.len() <= 1 {
            return Err(DispatchError::Module(Error::LastGatekeeper));
        }
        list_remove(&mut self.gatekeepers, &gatekeeper);
        self.push_message(
            Message::GatekeeperChange(GatekeeperChange::Unregistered { pubkey: gatekeeper }),
        );
        assert(self@ =~= old(self)@.unregister_gatekeeper(gatekeeper)->Ok_0);
        Ok(())
    }

    /// Tells all gatekeepers to share the history of the master key.
    ///
    /// It must be called before the first rotation of the master key, and only by the governance.
    pub fn enable_master_key_history_sharing(
        &mut self,
        origin: Origin<T::AccountId>,
    ) -> (r: DispatchResult)
        ensures
            asked_and_took::<T>(
                origin,
                old(self)@,
                Ok(old(self)@.master_key_history_sharing_enabled()),
                final(self)@,
                r,
            ),
    {
        let authority = T::GovernanceOrigin::ensure_origin(&origin);
        self.enable_master_key_history_sharing_with(authority)
    }

    /// Enables the sharing of the history, given what the governance said of the caller.
    pub fn enable_master_key_history_sharing_with(
        &mut self,
        authority: Result<(), BadOrigin>,
    ) -> (r: DispatchResult)
        ensures
            took(
                old(self)@,
                governed(authority, Ok(old(self)@.master_key_history_sharing_enabled())),
                final(self)@,
                r,
            ),
    {
        if authority.is_err() {
            return Err(DispatchError::BadOrigin);
        }
        self.push_message(Message::Gatekeeper(GatekeeperEvent::ShareMasterKeyHistory {  }));
        Ok(())
    }

    /// Starts a rotation of the master key.
    ///
    /// Can only be called by the governance. There has to be an id left for the rotation.
    pub fn rotate_master_key(&mut self, origin: Origin<T::AccountId>) -> (r: DispatchResult)
        requires
            old(self)@.rotate_master_key() is Ok ==> old(self)@.rotation_counter < u64::MAX,
        ensures
            asked_and_took::<T>(
                origin,
                old(self)@,
                old(self)@.rotate_master_key(),
                final(self)@,
                r,
            ),
    {
        let authority = T::GovernanceOrigin::ensure_origin(&origin);
        self.rotate_master_key_with(authority)
    }

    /// Starts a rotation of the master key, given what the governance said of the caller.
    pub fn rotate_master_key_with(
        &mut self,
        authority: Result<(), BadOrigin>,
    ) -> (r: DispatchResult)
        requires
            authority is Ok && old(self)@.rotate_master_key() is Ok
                ==> old(self)@.rotation_counter < u64::MAX,
        ensures
            took(old(self)@, governed(authority, old(self)@.rotate_master_key()), final(self)@, r),
    {
        if authority.is_err() {
            return Err(DispatchError::BadOrigin);
        }
        if self.master_key_rotation_lock.is_some() {
            return Err(DispatchError::Module(Error::MasterKeyInRotation));
        }
        let mut gk_identities: Vec<WorkerIdentity> = Vec::new();
        let mut i: usize = 0;
        while i < self.gatekeepers.len()
            invariant
                i <= self.gatekeepers@.len(),
                *self == *old(self),
                authority is Ok,
                self.master_key_rotation_lock is None,
                gk_identities@.len() == i,
                forall|j: int|
                    0 <= j < i ==> self@.workers.contains_key(#[trigger] self@.gatekeepers[j]),
                forall|j: int|
                    0 <= j < i ==> (#[trigger] gk_identities@[j])
                        == self@.gatekeeper_identities()[j],
            decreases self.gatekeepers@.len() - i,
        {
            assert(self@.gatekeepers[i as int] == self.gatekeepers@[i as int]);
            match self.workers.get(&self.gatekeepers[i]) {
                Some(worker_info) => {
                    gk_identities.push(
                        WorkerIdentity {
                            pubkey: worker_info.pubkey,
                            ecdh_pubkey: worker_info.ecdh_pubkey,
                        },
                    );
                },
                None => {
                    return Err(DispatchError::Module(Error::WorkerNotFound));
                },
            }
            i = i + 1;
        }
        assert(gk_identities@ =~= self@.gatekeeper_identities());
        let rotation_id: u64 = self.rotation_counter + 1;
        self.rotation_counter = rotation_id;
        self.master_key_rotation_lock = Some(rotation_id);
        self.push_message(
            Message::GatekeeperLaunch(
                GatekeeperLaunch::RotateMasterKey { rotation_id, gk_identities },
            ),
        );
        assert(self@ =~= old(self)@.rotate_master_key()->Ok_0);
        Ok(())
    }

    /// Adds a runtime to the allow list, at the block `now`.
    ///
    /// Can only be called by the governance.
    pub fn add_pruntime(
        &mut self,
        origin: Origin<T::AccountId>,
        pruntime_hash: Vec<u8>,
        now: T::BlockNumber,
    ) -> (r: DispatchResult)
        ensures
            asked_and_took::<T>(
                origin,
                old(self)@,
                old(self)@.add_pruntime(pruntime_hash@, now),
                final(self)@,
                r,
            ),
    {
        let authority = T::GovernanceOrigin::ensure_origin(&origin);
        self.add_pruntime_with(authority, pruntime_hash, now)
    }

    /// Adds a runtime to the allow list, given what the governance said of the caller.
    pub fn add_pruntime_with(
        &mut self,
        authority: Result<(), BadOrigin>,
        pruntime_hash: Vec<u8>,
        now: T::BlockNumber,
    ) -> (r: DispatchResult)
        ensures
            took(
                old(self)@,
                governed(authority, old(self)@.add_pruntime(pruntime_hash@, now)),
                final(self)@,
                r,
            ),
    {
        if authority.is_err() {
            return Err(DispatchError::BadOrigin);
        }
        if list_contains(&self.pruntime_allowlist, &pruntime_hash) {
            return Err(DispatchError::Module(Error::PRuntimeAlreadyExists));
        }
        let key = pruntime_hash.clone();
        assert(key@ =~= pruntime_hash@);
        self.pruntime_allowlist.push(pruntime_hash);
        self.pruntime_timestamps.insert(key, now);
        assert(self@ =~= old(self)@.add_pruntime(pruntime_hash@, now)->Ok_0);
        Ok(())
    }

    /// Removes a runtime from the allow list.
    ///
    /// Can only be called by the governance.
    pub fn remove_pruntime(
        &mut self,
        origin: Origin<T::AccountId>,
        pruntime_hash: Vec<u8>,
    ) -> (r: DispatchResult)
        ensures
            asked_and_took::<T>(
                origin,
                old(self)@,
                old(self)@.remove_pruntime(pruntime_hash@),
                final(self)@,
                r,
            ),
    {
        let authority = T::GovernanceOrigin::ensure_origin(&origin);
        self.remove_pruntime_with(authority, pruntime_hash)
    }

    /// Removes a runtime from the allow list, given what the governance said of the caller.
    pub fn remove_pruntime_with(
        &mut self,
        authority: Result<(), BadOrigin>,
        pruntime_hash: Vec<u8>,
    ) -> (r: DispatchResult)
        ensures
            took(
                old(self)@,
                governed(authority, old(self)@.remove_pruntime(pruntime_hash@)),
                final(self)@,
                r,
            ),
    {
        if authority.is_err() {
            return Err(DispatchError::BadOrigin);
        }
        if !list_contains(&self.pruntime_allowlist, &pruntime_hash) {
            return Err(DispatchError::Module(Error::PRuntimeNotFound));
        }
        list_remove(&mut self.pruntime_allowlist, &pruntime_hash);
        self.pruntime_timestamps.remove(&pruntime_hash);
        assert(self@ =~= old(self)@.remove_pruntime(pruntime_hash@)->Ok_0);
        Ok(())
    }

    /// Adds a relay chain to the allow list of genesis blocks.
    ///
    /// Can only be called by the governance.
    pub fn add_relaychain_genesis_block_hash(
        &mut self,
        origin: Origin<T::AccountId>,
        genesis_block_hash: H256,
    ) -> (r: DispatchResult)
        ensures
            asked_and_took::<T>(
                origin,
                old(self)@,
                old(self)@.add_genesis(genesis_block_hash),
                final(self)@,
                r,
            ),
    {
        let authority = T::GovernanceOrigin::ensure_origin(&origin);
        self.add_relaychain_genesis_block_hash_with(authority, genesis_block_hash)
    }

    /// Adds a relay chain to the allow list, given what the governance said of the caller.
    pub fn add_relaychain_genesis_block_hash_with(
        &mut self,
        authority: Result<(), BadOrigin>,
        genesis_block_hash: H256,
    ) -> (r: DispatchResult)
        ensures
            took(
                old(self)@,
                governed(authority, old(self)@.add_genesis(genesis_block_hash)),
                final(self)@,
                r,
            ),
    {
        if authority.is_err() {
            return Err(DispatchError::BadOrigin);
        }
        if list_contains(&self.relaychain_genesis_block_hash_allowlist, &genesis_block_hash) {
            return Err(DispatchError::Module(Error::GenesisBlockHashAlreadyExists));
        }
        self.relaychain_genesis_block_hash_allowlist.push(genesis_block_hash);
        assert(self@ =~= old(self)@.add_genesis(genesis_block_hash)->Ok_0);
        Ok(())
    }

    /// Removes a relay chain from the allow list of genesis blocks.
    ///
    /// Can only be called by the governance.
    pub fn remove_relaychain_genesis_block_hash(
        &mut self,
        origin: Origin<T::AccountId>,
        genesis_block_hash: H256,
    ) -> (r: DispatchResult)
        ensures
            asked_and_took::<T>(
                origin,
                old(self)@,
                old(self)@.remove_genesis(genesis_block_hash),
                final(self)@,
                r,
            ),
    {
        let authority = T::GovernanceOrigin::ensure_origin(&origin);
        self.remove_relaychain_genesis_block_hash_with(authority, genesis_block_hash)
    }

    /// Removes a relay chain from the allow list, given what the governance said of the caller.
    pub fn remove_relaychain_genesis_block_hash_with(
        &mut self,
        authority: Result<(), BadOrigin>,
        genesis_block_hash: H256,
    ) -> (r: DispatchResult)
        ensures
            took(
                old(self)@,
                governed(authority, old(self)@.remove_genesis(genesis_block_hash)),
                final(self)@,
                r,
            ),
    {
        if authority.is_err() {
            return Err(DispatchError::BadOrigin);
        }
        if !list_contains(&self.relaychain_genesis_block_hash_allowlist, &genesis_block_hash) {
            return Err(DispatchError::Module(Error::GenesisBlockHashNotFound));
        }
        list_remove(&mut self.relaychain_genesis_block_hash_allowlist, &genesis_block_hash);
        assert(self@ =~= old(self)@.remove_genesis(genesis_block_hash)->Ok_0);
        Ok(())
    }

    /// The message that tells of a new gatekeeper, when there are `count` of them.
    fn new_gatekeeper_message(
        count: usize,
        pubkey: WorkerPublicKey,
        ecdh_pubkey: EcdhPublicKey,
    ) -> (r: OutboundMessage)
        ensures
            r@ == gatekeeper_message(count as nat, pubkey, ecdh_pubkey),
    {
        #[verifier::truncate]
        let gatekeeper_count: u32 = count as u32;
        if gatekeeper_count == 1 {
            Message::GatekeeperLaunch(GatekeeperLaunch::FirstGatekeeper { pubkey, ecdh_pubkey })
        } else {
            Message::GatekeeperChange(GatekeeperChange::Registered { pubkey, ecdh_pubkey })
        }
    }
}

/// Calls that anyone, or the chain itself, may make.
impl<T: Config> Pallet<T> {
    /// Registers a worker on the chain.
    ///
    /// Usually called by a relayer, and by anyone on behalf of a worker. The attestation is
    /// validated against the hash of what the worker states of itself, at the time `now` and with
    /// the runtimes allowed at present.
    pub fn register_worker(
        &mut self,
        origin: Origin<T::AccountId>,
        pruntime_info: WorkerRegistrationInfo<T::AccountId>,
        attestation: Attestation,
        now: UnixTime,
    ) -> (r: DispatchResult)
        requires
            origin is Signed ==> pruntime_info.encodable(),
        ensures
            !(origin is Signed) ==> r == Err::<(), DispatchError>(DispatchError::BadOrigin)
                && final(self)@ == old(self)@,
            origin is Signed ==> exists|
                runtime_info_hash: [u8; 32],
                report: Result<ConfidentialReport, AttestationError>,
            |
                {
                    &&& runtime_info_hash@ == blake2_256_digest(pruntime_info.encoding())
                    &&& #[trigger] call_ensures(
                        T::AttestationValidator::validate,
                        (
                            &attestation,
                            &runtime_info_hash,
                            now.secs,
                            T::VERIFY_PRUNTIME,
                            &old(self).pruntime_allowlist,
                        ),
                        report,
                    )
                    &&& took(
                        old(self)@,
                        old(self)@.register_worker(
                            report,
                            T::VERIFY_RELAYCHAIN_GENESIS_BLOCK_HASH,
                            pruntime_info,
                            now.secs,
                        ),
                        final(self)@,
                        r,
                    )
                },
    {
        if ensure_signed(origin).is_err() {
            return Err(DispatchError::BadOrigin);
        }
        let now: u64 = now.as_secs();
        let runtime_info_hash = pruntime_info.runtime_info_hash();
        let report = T::AttestationValidator::validate(
            &attestation,
            &runtime_info_hash,
            now,
            T::VERIFY_PRUNTIME,
            &self.pruntime_allowlist,
        );
        self.register_worker_with(report, pruntime_info, now)
    }

    /// Registers a worker, given the verdict on its attestation, at the time `now` in seconds.
    pub fn register_worker_with(
        &mut self,
        report: Result<ConfidentialReport, AttestationError>,
        pruntime_info: WorkerRegistrationInfo<T::AccountId>,
        now: u64,
    ) -> (r: DispatchResult)
        ensures
            took(
                old(self)@,
                old(self)@.register_worker(
                    report,
                    T::VERIFY_RELAYCHAIN_GENESIS_BLOCK_HASH,
                    pruntime_info,
                    now,
                ),
                final(self)@,
                r,
            ),
    {
        let fields = match report {
            Ok(fields) => fields,
            Err(err) => {
                return Err(DispatchError::Module(Error::from(err)));
            },
        };
        if T::VERIFY_RELAYCHAIN_GENESIS_BLOCK_HASH {
            if !list_contains(
                &self.relaychain_genesis_block_hash_allowlist,
                &pruntime_info.genesis_block_hash,
            ) {
                return Err(DispatchError::Module(Error::GenesisBlockHashRejected));
            }
        }
        // Update the registry
        let pubkey = pruntime_info.pubkey;
        let (worker_info, event) = match self.workers.take(&pubkey) {
            Some(known) => {
                // Refresh the report, optionally update the operator, and redo the benchmark
                let mut worker_info = known;
                worker_info.last_updated = now;
                worker_info.operator = pruntime_info.operator;
                worker_info.runtime_version = pruntime_info.version;
                worker_info.confidence_level = fields.confidence_level;
                worker_info.initial_score = None;
                worker_info.features = pruntime_info.features;
                (worker_info, Event::WorkerUpdated { pubkey })
            },
            None => {
                let worker_info = WorkerInfo {
                    pubkey,
                    ecdh_pubkey: pruntime_info.ecdh_pubkey,
                    runtime_version: pruntime_info.version,
                    last_updated: now,
                    operator: pruntime_info.operator,
                    confidence_level: fields.confidence_level,
                    initial_score: None,
                    features: pruntime_info.features,
                };
                (worker_info, Event::WorkerAdded { pubkey })
            },
        };
        self.store_worker(pubkey, worker_info);
        self.push_message(
            new_worker_event(
                pubkey,
                WorkerEvent::Registered(
                    RegisteredWorker { confidence_level: fields.confidence_level },
                ),
            ),
        );
        self.deposit_event(event);
        // Trigger the benchmark anyway
        let duration: u32 = match self.benchmark_duration {
            Some(duration) => duration,
            None => 0,
        };
        self.push_message(new_worker_event(pubkey, WorkerEvent::BenchStart { duration }));
        proof {
            let want = old(self)@.register_worker(
                report,
                T::VERIFY_RELAYCHAIN_GENESIS_BLOCK_HASH,
                pruntime_info,
                now,
            )->Ok_0;
            assert(self@.workers =~= want.workers);
            assert(self@ =~= want);
        }
        Ok(())
    }

    /// Registers a worker with the given keys, without attestation.
    ///
    /// For test only, and for the chain itself only.
    pub fn force_register_worker(
        &mut self,
        origin: Origin<T::AccountId>,
        pubkey: WorkerPublicKey,
        ecdh_pubkey: EcdhPublicKey,
        operator: Option<T::AccountId>,
    ) -> (r: DispatchResult)
        ensures
            took(
                old(self)@,
                if origin is Root {
                    Ok(old(self)@.worker_forced(pubkey, ecdh_pubkey, operator))
                } else {
                    Err(DispatchError::BadOrigin)
                },
                final(self)@,
                r,
            ),
    {
        if ensure_root(&origin).is_err() {
            return Err(DispatchError::BadOrigin);
        }
        let worker_info = WorkerInfo {
            pubkey,
            ecdh_pubkey,
            runtime_version: 0,
            last_updated: 0,
            operator,
            confidence_level: FORCED_CONFIDENCE_LEVEL,
            initial_score: None,
            features: vec![1u32, 4u32],
        };
        assert(worker_info@ =~= forced_worker(pubkey, ecdh_pubkey, operator));
        self.store_worker(pubkey, worker_info);
        self.push_message(
            new_worker_event(
                pubkey,
                WorkerEvent::Registered(
                    RegisteredWorker { confidence_level: FORCED_CONFIDENCE_LEVEL },
                ),
            ),
        );
        self.deposit_event(Event::WorkerAdded { pubkey });
        Ok(())
    }

    /// Registers the public key of a topic.
    ///
    /// For test only, and for the chain itself only.
    pub fn force_register_topic_pubkey(
        &mut self,
        origin: Origin<T::AccountId>,
        topic: Vec<u8>,
        pubkey: Vec<u8>,
    ) -> (r: DispatchResult)
        ensures
            took(
                old(self)@,
                if origin is Root {
                    Ok(old(self)@.topic_key_set(topic@, pubkey@))
                } else {
                    Err(DispatchError::BadOrigin)
                },
                final(self)@,
                r,
            ),
    {
        if ensure_root(&origin).is_err() {
            return Err(DispatchError::BadOrigin);
        }
        self.topic_keys.insert(topic, pubkey);
        assert(self@ =~= old(self)@.topic_key_set(topic@, pubkey@));
        Ok(())
    }
}

/// What arrives from the off-chain side.
impl<T: Config> Pallet<T> {
    /// Handles the report of a worker, at the time `now`.
    ///
    /// A benchmark that is reported in time has to have run for a second at least, and its
    /// iterations per six seconds have to fit 64 bits.
    pub fn on_message_received(
        &mut self,
        message: DecodedMessage<RegistryEvent>,
        now: UnixTime,
    ) -> (r: DispatchResult)
        requires
            message.sender is Worker ==> match message.payload {
                RegistryEvent::BenchReport { start_time, iterations } => start_time
                    < now.saturated_millis() ==> bench_measurable(
                    start_time,
                    now.saturated_millis(),
                    iterations,
                ),
                _ => true,
            },
        ensures
            took(
                old(self)@,
                old(self)@.worker_message_received(message.sender, message.payload, now),
                final(self)@,
                r,
            ),
    {
        let worker_pubkey = match message.sender {
            MessageOrigin::Worker(key) => key,
            _ => {
                return Err(DispatchError::Module(Error::InvalidSender));
            },
        };
        match message.payload {
            RegistryEvent::BenchReport { start_time, iterations } => {
                let now_millis: u64 = now.as_saturated_millis();
                if now_millis <= start_time {
                    return Err(DispatchError::Module(Error::InvalidBenchReport));
                }
                let score: u32 = Self::score(start_time, now_millis, iterations);
                match self.workers.take(&worker_pubkey) {
                    Some(known) => {
                        let mut worker_info = known;
                        worker_info.initial_score = Some(score);
                        worker_info.last_updated = now.as_secs();
                        self.store_worker(worker_pubkey, worker_info);
                    },
                    None => {},
                }
                self.push_message(new_worker_event(worker_pubkey, WorkerEvent::BenchScore(score)));
                proof {
                    let want = old(self)@.bench_report(
                        worker_pubkey,
                        start_time,
                        iterations,
                        now,
                    )->Ok_0;
                    assert(self@.workers =~= want.workers);
                    assert(self@ =~= want);
                }
            },
            RegistryEvent::MasterPubkey { master_pubkey } => {
                if !list_contains(&self.gatekeepers, &worker_pubkey) {
                    return Err(DispatchError::Module(Error::InvalidGatekeeper));
                }
                match self.gatekeeper_master_pubkey {
                    Some(saved_pubkey) => {
                        if saved_pubkey != master_pubkey {
                            return Err(DispatchError::Module(Error::MasterKeyMismatch));
                        }
                    },
                    None => {
                        self.gatekeeper_master_pubkey = Some(master_pubkey);
                        self.push_message(
                            Message::GatekeeperLaunch(
                                GatekeeperLaunch::MasterPubkeyOnChain { master_pubkey },
                            ),
                        );
                        assert(self@ =~= old(self)@.upload_master_key(
                            worker_pubkey,
                            master_pubkey,
                        )->Ok_0);
                    },
                }
            },
        }
        Ok(())
    }

    /// The score of a benchmark, from times in milliseconds.
    pub fn score(start_time: u64, now: u64, iterations: u64) -> (r: u32)
        requires
            bench_measurable(start_time, now, iterations),
        ensures
            r == bench_score(start_time, now, iterations),
            r <= MAX_SCORE,
    {
        let per_second: u64 = iterations / ((now - start_time) / 1000);
        let score: u64 = per_second * 6;
        #[verifier::truncate]
        let score: u32 = score as u32;
        if score < MAX_SCORE {
            score
        } else {
            MAX_SCORE
        }
    }

    /// Handles the report of the gatekeepers.
    pub fn on_gk_message_received(&mut self, message: DecodedMessage<GKRegistryEvent>) -> (r:
        DispatchResult)
        ensures
            took(
                old(self)@,
                old(self)@.gk_message_received(message.sender, message.payload),
                final(self)@,
                r,
            ),
    {
        if !message.sender.is_gatekeeper() {
            return Err(DispatchError::Module(Error::InvalidSender));
        }
        match message.payload {
            GKRegistryEvent::RotatedMasterPubkey { rotation_id, master_pubkey } => {
                match self.master_key_rotation_lock {
                    Some(rotating) => {
                        if rotating != rotation_id {
                            return Err(
                                DispatchError::Module(Error::InvalidRotatedMasterPubkey),
                            );
                        }
                    },
                    None => {
                        return Err(DispatchError::Module(Error::InvalidRotatedMasterPubkey));
                    },
                }
                self.gatekeeper_master_pubkey = Some(master_pubkey);
                self.master_key_rotation_lock = None;
                self.push_message(
                    Message::GatekeeperLaunch(
                        GatekeeperLaunch::MasterPubkeyRotated { master_pubkey },
                    ),
                );
                assert(self@ =~= old(self)@.gk_message_received(
                    message.sender,
                    message.payload,
                )->Ok_0);
            },
        }
        Ok(())
    }

    /// The key with which a sender signs.
    pub fn sender_key(&self, sender: &MessageOrigin) -> (r: Result<Sr25519Public, DispatchError>)
        ensures
            r == self@.sender_key(*sender),
    {
        match sender {
            MessageOrigin::Worker(pubkey) => Ok(*pubkey),
            MessageOrigin::Cluster(id) => match self.cluster_keys.get(id) {
                Some(pubkey) => Ok(*pubkey),
                None => Err(DispatchError::Module(Error::UnknownCluster)),
            },
            MessageOrigin::Contract(id) => match self.contract_keys.get(id) {
                Some(pubkey) => Ok(*pubkey),
                None => Err(DispatchError::Module(Error::UnknownContract)),
            },
            MessageOrigin::Gatekeeper => match self.gatekeeper_master_pubkey {
                Some(pubkey) => Ok(pubkey),
                None => Err(DispatchError::Module(Error::MasterKeyUninitialized)),
            },
            MessageOrigin::Other => Err(DispatchError::Module(Error::CannotHandleUnknownMessage)),
        }
    }

    /// Checks that a message bears a valid signature of its sender.
    ///
    /// Where the signature comes to be verified, the length of the signed bytes fits in 32 bits.
    pub fn check_message(&self, message: &SignedMessage) -> (r: DispatchResult)
        requires
            self@.sender_key(message.sender) is Ok && message.signature@.len() == 64
                ==> message.data_be_signed@.len() <= u32::MAX,
        ensures
            r == self@.message_verdict(
                message.sender,
                message.data_be_signed@,
                message.signature@,
            ),
    {
        match self.sender_key(&message.sender) {
            Ok(pubkey) => Self::verify_signature(&pubkey, message),
            Err(err) => Err(err),
        }
    }

    /// Checks that a message bears a valid signature under the key.
    ///
    /// Where the signature comes to be verified, the length of the signed bytes fits in 32 bits.
    pub fn verify_signature(pubkey: &WorkerPublicKey, message: &SignedMessage) -> (r:
        DispatchResult)
        requires
            message.signature@.len() == 64 ==> message.data_be_signed@.len() <= u32::MAX,
        ensures
            r == signature_verdict(
                message.signature@.len(),
                sr25519_valid(message.signature@, message.data_be_signed@, pubkey.0@),
            ),
    {
        if message.signature.len() != 64 {
            return Err(DispatchError::Module(Error::InvalidSignatureLength));
        }
        match signature_from(&message.signature) {
            Ok(signature) => Self::accept_signature(
                sr25519_verify(signature, &message.data_be_signed, pubkey),
            ),
            Err(_) => Err(DispatchError::Module(Error::MalformedSignature)),
        }
    }

    /// Accepts or refuses a signature of the right length, given whether it is valid.
    pub fn accept_signature(valid: bool) -> (r: DispatchResult)
        ensures
            r == signature_verdict(64, valid),
    {
        if valid {
            Ok(())
        } else {
            Err(DispatchError::Module(Error::InvalidSignature))
        }
    }

    /// Sets the score of a worker, if it is registered.
    pub fn internal_set_benchmark(&mut self, worker: &WorkerPublicKey, score: Option<u32>)
        ensures
            final(self)@ == old(self)@.score_set(*worker, score),
    {
        match self.workers.take(worker) {
            Some(known) => {
                let mut worker_info = known;
                worker_info.initial_score = score;
                self.store_worker(*worker, worker_info);
            },
            None => {},
        }
        assert(self@.workers =~= old(self)@.score_set(*worker, score).workers);
        assert(self@ =~= old(self)@.score_set(*worker, score));
    }
}

/// The workers and gatekeepers that are there from the start, for testing purposes.
pub struct GenesisConfig<T: Config> {
    /// List of identity, ECDH key and operator.
    pub workers: Vec<(WorkerPublicKey, Vec<u8>, Option<T::AccountId>)>,
    /// List of gatekeeper identities.
    pub gatekeepers: Vec<WorkerPublicKey>,
    pub benchmark_duration: u32,
}

impl<T: Config> Default for GenesisConfig<T> {
    fn default() -> (r: Self)
        ensures
            r.workers@.len() == 0,
            r.gatekeepers@.len() == 0,
            r.benchmark_duration == 8,
    {
        GenesisConfig { workers: Vec::new(), gatekeepers: Vec::new(), benchmark_duration: 8 }
    }
}

impl<T: Config> GenesisConfig<T> {
    /// Every ECDH key has thirty-two bytes.
    pub open spec fn wf(self) -> bool {
        forall|i: int| 0 <= i < self.workers@.len() ==> (#[trigger] self.workers@[i]).1@.len() == 32
    }

    /// Puts the workers, and then the gatekeepers among them, into the registry.
    pub fn build(&self, pallet: &mut Pallet<T>)
        requires
            self.wf(),
        ensures
            final(pallet)@ == old(pallet)@.genesis_workers(
                self.workers@,
                self.benchmark_duration,
            ).genesis_gatekeepers(self.gatekeepers@),
    {
        self.build_workers(pallet);
        self.build_gatekeepers(pallet);
    }

    fn build_workers(&self, pallet: &mut Pallet<T>)
        requires
            self.wf(),
        ensures
            final(pallet)@ == old(pallet)@.genesis_workers(self.workers@, self.benchmark_duration),
    {
        let mut i: usize = 0;
        assert(self.workers@.take(0) =~= Seq::empty());
        while i < self.workers.len()
            invariant
                self.wf(),
                i <= self.workers@.len(),
                pallet@ == old(pallet)@.genesis_workers(
                    self.workers@.take(i as int),
                    self.benchmark_duration,
                ),
            decreases self.workers@.len() - i,
        {
            let ghost before = pallet@;
            let pubkey = self.workers[i].0;
            let ecdh_pubkey = EcdhPublicKey(block_from(&self.workers[i].1));
            let operator = self.workers[i].2;
            let worker_info = WorkerInfo {
                pubkey,
                ecdh_pubkey,
                runtime_version: 0,
                last_updated: 0,
                operator,
                confidence_level: FORCED_CONFIDENCE_LEVEL,
                initial_score: None,
                features: vec![1u32, 4u32],
            };
            assert(worker_info@ =~= forced_worker(pubkey, ecdh_pubkey, operator));
            pallet.store_worker(pubkey, worker_info);
            pallet.queue_message(
                new_worker_event(
                    pubkey,
                    WorkerEvent::Registered(
                        RegisteredWorker { confidence_level: FORCED_CONFIDENCE_LEVEL },
                    ),
                ),
            );
            pallet.queue_message(
                new_worker_event(
                    pubkey,
                    WorkerEvent::BenchStart { duration: self.benchmark_duration },
                ),
            );
            pallet.benchmark_duration = Some(self.benchmark_duration);
            proof {
                let key = ecdh_key(self.workers@[i as int].1@);
                assert(key.0@ == ecdh_pubkey.0@);
                assert(key.0 =~= ecdh_pubkey.0);
                assert(pallet@ =~= before.genesis_worker(
                    pubkey,
                    ecdh_pubkey,
                    operator,
                    self.benchmark_duration,
                ));
                assert(self.workers@.take(i + 1).drop_last() =~= self.workers@.take(i as int));
                assert(self.workers@.take(i + 1).last() == self.workers@[i as int]);
            }
            i = i + 1;
        }
        assert(self.workers@.take(i as int) =~= self.workers@);
    }

    fn build_gatekeepers(&self, pallet: &mut Pallet<T>)
        ensures
            final(pallet)@ == old(pallet)@.genesis_gatekeepers(self.gatekeepers@),
    {
        let ghost pre = pallet@;
        let ghost known = |gatekeeper: WorkerPublicKey| pre.workers.contains_key(gatekeeper);
        let mut gatekeepers: Vec<WorkerPublicKey> = Vec::new();
        let mut i: usize = 0;
        proof {
            reveal(Seq::filter);
            assert(self.gatekeepers@.take(0) =~= Seq::empty());
            assert(pallet@ =~= (RegistryState {
                queued: pre.queued + announcements(pre, Seq::empty()),
                ..pre
            }));
        }
        while i < self.gatekeepers.len()
            invariant
                i <= self.gatekeepers@.len(),
                known == (|gatekeeper: WorkerPublicKey| pre.workers.contains_key(gatekeeper)),
                gatekeepers@ == self.gatekeepers@.take(i as int).filter(known),
                pallet@ == (RegistryState {
                    queued: pre.queued + announcements(pre, gatekeepers@),
                    ..pre
                }),
            decreases self.gatekeepers@.len() - i,
        {
            let gatekeeper = self.gatekeepers[i];
            let ghost before = gatekeepers@;
            proof {
                reveal(Seq::filter);
                assert(self.gatekeepers@.take(i + 1).drop_last() =~= self.gatekeepers@.take(
                    i as int,
                ));
                assert(self.gatekeepers@.take(i + 1).last() == gatekeeper);
            }
            let ecdh_pubkey = match pallet.workers.get(&gatekeeper) {
                Some(worker_info) => Some(worker_info.ecdh_pubkey),
                None => None,
            };
            if let Some(ecdh_pubkey) = ecdh_pubkey {
                gatekeepers.push(gatekeeper);
                let message = Pallet::<T>::new_gatekeeper_message(
                    gatekeepers.len(),
                    gatekeeper,
                    ecdh_pubkey,
                );
                pallet.queue_message(message);
                proof {
                    assert(announcements(pre, gatekeepers@) =~= announcements(pre, before).push(
                        message@,
                    ));
                    assert(pallet@ =~= (RegistryState {
                        queued: pre.queued + announcements(pre, gatekeepers@),
                        ..pre
                    }));
                }
            }
            i = i + 1;
        }
        proof {
            assert(self.gatekeepers@.take(i as int) =~= self.gatekeepers@);
            assert(views(gatekeepers@) =~= gatekeepers@);
        }
        if !gatekeepers.is_empty() {
            pallet.gatekeepers = gatekeepers;
        }
        assert(pallet@ =~= pre.genesis_gatekeepers(self.gatekeepers@));
    }
}

/// The messages that tell of gatekeepers that are there from the start.
spec fn announcements<A, B>(
    state: RegistryState<A, B>,
    admitted: Seq<WorkerPublicKey>,
) -> Seq<MessageView> {
    Seq::new(
        admitted.len(),
        |i: int|
            gatekeeper_message(
                (i + 1) as nat,
                admitted[i],
                state.workers[admitted[i]].ecdh_pubkey,
            ),
    )
}

} // verus!
