//! The registry as a state, and what every operation does to it.
//!
//! A transition is a function from the state before to `Ok` with the state after, or to the error
//! with which the operation is refused. A refused operation leaves the state as it was.

use crate::attestation::{AttestationError, ConfidentialReport, WorkerRegistrationInfo};
use crate::crypto::sr25519_valid;
use crate::messaging::{
    worker_message, GKRegistryEvent, GatekeeperChange, GatekeeperEvent, GatekeeperLaunch, Message,
    MessageOrigin, MessageView, RegisteredWorker, RegistryEvent, WorkerEvent, WorkerIdentity,
};
use crate::primitives::{
    BadOrigin, ClusterPublicKey, ContractClusterId, ContractId, ContractPublicKey, EcdhPublicKey,
    MasterPublicKey, Sr25519Public, UnixTime, WorkerPublicKey, H256,
};
use crate::storage::without;
use vstd::prelude::*;

verus! {

/// Why the registry refuses a request.
#[derive(Clone, Copy, Debug, PartialEq, Eq, Structural)]
pub enum Error {
    CannotHandleUnknownMessage,
    InvalidSender,
    InvalidPubKey,
    MalformedSignature,
    InvalidSignatureLength,
    InvalidSignature,
    UnknownContract,
    // Attestation service
    InvalidIASSigningCert,
    InvalidReport,
    InvalidQuoteStatus,
    BadIASReport,
    OutdatedIASReport,
    UnknownQuoteBodyFormat,
    // Report validation
    InvalidRuntimeInfoHash,
    InvalidRuntimeInfo,
    InvalidInput,
    InvalidBenchReport,
    WorkerNotFound,
    // Gatekeepers
    InvalidGatekeeper,
    InvalidMasterPubkey,
    MasterKeyMismatch,
    MasterKeyUninitialized,
    // Genesis block hashes
    GenesisBlockHashRejected,
    GenesisBlockHashAlreadyExists,
    GenesisBlockHashNotFound,
    // Runtimes
    PRuntimeRejected,
    PRuntimeAlreadyExists,
    PRuntimeNotFound,
    // Others
    UnknownCluster,
    NotImplemented,
    LastGatekeeper,
    MasterKeyInRotation,
    InvalidRotatedMasterPubkey,
}

/// The error of the registry for each error of an attestation.
pub open spec fn attestation_error(err: AttestationError) -> Error {
    match err {
        AttestationError::PRuntimeRejected => Error::PRuntimeRejected,
        AttestationError::InvalidIASSigningCert => Error::InvalidIASSigningCert,
        AttestationError::InvalidReport => Error::InvalidReport,
        AttestationError::InvalidQuoteStatus => Error::InvalidQuoteStatus,
        AttestationError::BadIASReport => Error::BadIASReport,
        AttestationError::OutdatedIASReport => Error::OutdatedIASReport,
        AttestationError::UnknownQuoteBodyFormat => Error::UnknownQuoteBodyFormat,
        AttestationError::InvalidUserDataHash => Error::InvalidRuntimeInfoHash,
    }
}

impl From<AttestationError> for Error {
    fn from(err: AttestationError) -> (r: Error) {
        match err {
            AttestationError::PRuntimeRejected => Error::PRuntimeRejected,
            AttestationError::InvalidIASSigningCert => Error::InvalidIASSigningCert,
            AttestationError::InvalidReport => Error::InvalidReport,
            AttestationError::InvalidQuoteStatus => Error::InvalidQuoteStatus,
            AttestationError::BadIASReport => Error::BadIASReport,
            AttestationError::OutdatedIASReport => Error::OutdatedIASReport,
            AttestationError::UnknownQuoteBodyFormat => Error::UnknownQuoteBodyFormat,
            AttestationError::InvalidUserDataHash => Error::InvalidRuntimeInfoHash,
        }
    }
}

impl vstd::std_specs::convert::FromSpecImpl<AttestationError> for Error {
    open spec fn obeys_from_spec() -> bool {
        true
    }

    open spec fn from_spec(err: AttestationError) -> Error {
        attestation_error(err)
    }
}

/// Why a call is refused: for the caller, or by the registry.
#[derive(Clone, Copy, Debug, PartialEq, Eq, Structural)]
pub enum DispatchError {
    BadOrigin,
    Module(Error),
}

pub type DispatchResult = Result<(), DispatchError>;

/// What the registry announces on the chain.
#[derive(Clone, Copy, Debug, PartialEq, Eq)]
pub enum Event {
    /// A new gatekeeper is enabled.
    GatekeeperAdded { pubkey: WorkerPublicKey },
    GatekeeperRemoved { pubkey: WorkerPublicKey },
    WorkerAdded { pubkey: WorkerPublicKey },
    WorkerUpdated { pubkey: WorkerPublicKey },
}

/// No score is above this one.
pub const MAX_SCORE: u32 = 6000;

/// The confidence level of a worker that is registered without attestation.
pub const FORCED_CONFIDENCE_LEVEL: u8 = 128;

/// The basic information of a registered worker.
#[derive(Debug)]
pub struct WorkerInfo<AccountId> {
    /// The identity public key of the worker.
    pub pubkey: WorkerPublicKey,
    /// The public key for ECDH communication.
    pub ecdh_pubkey: EcdhPublicKey,
    /// The runtime version of the worker upon registering.
    pub runtime_version: u32,
    /// The Unix timestamp of the last update, in seconds.
    pub last_updated: u64,
    /// The stake pool owner that can control this worker.
    ///
    /// Once it is set, the worker can only be added to a stake pool if the pool owner is the
    /// operator.
    pub operator: Option<AccountId>,
    /// The confidence level of the worker.
    pub confidence_level: u8,
    /// The performance score by benchmark.
    ///
    /// When a worker is registered, this field is set to `None`, indicating that the worker is
    /// requested to run a benchmark. It is updated with the score once the benchmark is reported,
    /// and is the baseline of the performance test.
    pub initial_score: Option<u32>,
    /// Deprecated.
    pub features: Vec<u32>,
}

/// A worker as contracts speak of it.
#[verifier::ext_equal]
pub struct WorkerView<A> {
    pub pubkey: WorkerPublicKey,
    pub ecdh_pubkey: EcdhPublicKey,
    pub runtime_version: u32,
    pub last_updated: u64,
    pub operator: Option<A>,
    pub confidence_level: u8,
    pub initial_score: Option<u32>,
    pub features: Seq<u32>,
}

impl<AccountId> View for WorkerInfo<AccountId> {
    type V = WorkerView<AccountId>;

    open spec fn view(&self) -> WorkerView<AccountId> {
        WorkerView {
            pubkey: self.pubkey,
            ecdh_pubkey: self.ecdh_pubkey,
            runtime_version: self.runtime_version,
            last_updated: self.last_updated,
            operator: self.operator,
            confidence_level: self.confidence_level,
            initial_score: self.initial_score,
            features: self.features@,
        }
    }
}

/// The ECDH key that consists of the bytes, of which there are thirty-two.
pub open spec fn ecdh_key(bytes: Seq<u8>) -> EcdhPublicKey {
    choose|key: EcdhPublicKey| key.0@ == bytes
}

/// A worker that is registered without attestation.
pub open spec fn forced_worker<A>(
    pubkey: WorkerPublicKey,
    ecdh_pubkey: EcdhPublicKey,
    operator: Option<A>,
) -> WorkerView<A> {
    WorkerView {
        pubkey,
        ecdh_pubkey,
        runtime_version: 0,
        last_updated: 0,
        operator,
        confidence_level: FORCED_CONFIDENCE_LEVEL,
        initial_score: None,
        features: seq![1u32, 4u32],
    }
}

/// The state of the registry.
#[verifier::ext_equal]
pub struct RegistryState<A, B> {
    /// The gatekeepers, in the order in which they were registered.
    pub gatekeepers: Seq<WorkerPublicKey>,
    /// The master public key of the gatekeepers, once it was uploaded.
    pub master_pubkey: Option<MasterPublicKey>,
    /// The rotation counter, which always equals the latest rotation id.
    pub rotation_counter: u64,
    /// The rotation under way, of which there is one at most.
    pub rotation_lock: Option<u64>,
    pub workers: Map<WorkerPublicKey, WorkerView<A>>,
    pub contract_keys: Map<ContractId, ContractPublicKey>,
    pub cluster_keys: Map<ContractClusterId, ClusterPublicKey>,
    /// The public keys for secret topics.
    pub topic_keys: Map<Seq<u8>, Seq<u8>>,
    /// The number of blocks to run the benchmark.
    pub benchmark_duration: Option<u32>,
    /// The digests of the runtimes that may register.
    pub pruntime_allowlist: Seq<Seq<u8>>,
    /// The block at which each runtime was allowed.
    pub pruntime_timestamps: Map<Seq<u8>, B>,
    /// The relay chains whose workers may register.
    pub genesis_allowlist: Seq<H256>,
    /// The messages pushed to the off-chain side.
    pub pushed: Seq<MessageView>,
    /// The messages queued before the first block.
    pub queued: Seq<MessageView>,
    pub events: Seq<Event>,
}

/// A call that only the governance may make, after the governance was asked.
pub open spec fn governed<S>(
    authority: Result<(), BadOrigin>,
    step: Result<S, DispatchError>,
) -> Result<S, DispatchError> {
    match authority {
        Ok(()) => step,
        Err(_) => Err(DispatchError::BadOrigin),
    }
}

/// A refusal by the registry itself.
pub open spec fn refuse<S>(err: Error) -> Result<S, DispatchError> {
    Err(DispatchError::Module(err))
}

/// The operation took the step: it succeeded and left the state of an `Ok` step, or it was refused
/// with the error of an `Err` step and left everything as it was.
pub open spec fn took<S>(
    pre: S,
    step: Result<S, DispatchError>,
    post: S,
    result: DispatchResult,
) -> bool {
    match step {
        Ok(next) => result is Ok && post == next,
        Err(err) => result == Err::<(), DispatchError>(err) && post == pre,
    }
}

/// What becomes of a signature of `len` bytes, given whether it is valid.
pub open spec fn signature_verdict(len: nat, valid: bool) -> DispatchResult {
    if len != 64 {
        refuse(Error::InvalidSignatureLength)
    } else if !valid {
        refuse(Error::InvalidSignature)
    } else {
        Ok(())
    }
}

/// The message that tells of a new gatekeeper, the `count`-th one.
pub open spec fn gatekeeper_message(
    count: nat,
    pubkey: WorkerPublicKey,
    ecdh_pubkey: EcdhPublicKey,
) -> MessageView {
    if count as u32 == 1 {
        Message::GatekeeperLaunch(GatekeeperLaunch::FirstGatekeeper { pubkey, ecdh_pubkey })
    } else {
        Message::GatekeeperChange(GatekeeperChange::Registered { pubkey, ecdh_pubkey })
    }
}

/// The iterations that a benchmark did in six seconds, given those it did in the time from
/// `start_time` to `now`, both in milliseconds, of which only whole seconds count.
pub open spec fn iterations_per_six_seconds(start_time: u64, now: u64, iterations: u64) -> int {
    iterations as int / ((now - start_time) / 1000) * 6
}

/// The score that a benchmark earns: the low 32 bits of the iterations per six seconds, and
/// [`MAX_SCORE`] at most.
pub open spec fn bench_score(start_time: u64, now: u64, iterations: u64) -> u32 {
    let score = iterations_per_six_seconds(start_time, now, iterations) as u32;
    if score < MAX_SCORE {
        score
    } else {
        MAX_SCORE
    }
}

/// The benchmark ran for a second at least, and its count of iterations can be scaled.
pub open spec fn bench_measurable(start_time: u64, now: u64, iterations: u64) -> bool {
    &&& now - start_time >= 1000
    &&& iterations_per_six_seconds(start_time, now, iterations) <= u64::MAX
}

impl<A, B> RegistryState<A, B> {
    /// The state in which nothing was ever registered.
    pub open spec fn empty() -> Self {
        RegistryState {
            gatekeepers: Seq::empty(),
            master_pubkey: None,
            rotation_counter: 0,
            rotation_lock: None,
            workers: Map::empty(),
            contract_keys: Map::empty(),
            cluster_keys: Map::empty(),
            topic_keys: Map::empty(),
            benchmark_duration: None,
            pruntime_allowlist: Seq::empty(),
            pruntime_timestamps: Map::empty(),
            genesis_allowlist: Seq::empty(),
            pushed: Seq::empty(),
            queued: Seq::empty(),
            events: Seq::empty(),
        }
    }

    pub open spec fn push(self, message: MessageView) -> Self {
        RegistryState { pushed: self.pushed.push(message), ..self }
    }

    pub open spec fn queue(self, message: MessageView) -> Self {
        RegistryState { queued: self.queued.push(message), ..self }
    }

    pub open spec fn deposit(self, event: Event) -> Self {
        RegistryState { events: self.events.push(event), ..self }
    }

    /// The duration of the benchmark becomes `value`.
    pub open spec fn benchmark_duration_set(self, value: u32) -> Self {
        RegistryState { benchmark_duration: Some(value), ..self }
    }

    /// The worker is registered without attestation, in place of any worker with its key.
    pub open spec fn worker_forced(
        self,
        pubkey: WorkerPublicKey,
        ecdh_pubkey: EcdhPublicKey,
        operator: Option<A>,
    ) -> Self {
        RegistryState {
            workers: self.workers.insert(pubkey, forced_worker(pubkey, ecdh_pubkey, operator)),
            ..self
        }.push(
            worker_message(
                pubkey,
                WorkerEvent::Registered(
                    RegisteredWorker { confidence_level: FORCED_CONFIDENCE_LEVEL },
                ),
            ),
        ).deposit(Event::WorkerAdded { pubkey })
    }

    /// The topic gets its public key.
    pub open spec fn topic_key_set(self, topic: Seq<u8>, pubkey: Seq<u8>) -> Self {
        RegistryState { topic_keys: self.topic_keys.insert(topic, pubkey), ..self }
    }

    /// The worker joins the gatekeepers, if it is not one already.
    ///
    /// The gatekeepers do not change during a rotation, and the second gatekeeper has to wait for
    /// the first one to upload the master key.
    pub open spec fn register_gatekeeper(self, gatekeeper: WorkerPublicKey) -> Result<
        Self,
        DispatchError,
    > {
        if self.rotation_lock is Some {
            refuse(Error::MasterKeyInRotation)
        } else if self.gatekeepers.len() > 0 && self.master_pubkey is None {
            refuse(Error::MasterKeyUninitialized)
        } else if self.gatekeepers.contains(gatekeeper) {
            Ok(self)
        } else if !self.workers.contains_key(gatekeeper) {
            refuse(Error::WorkerNotFound)
        } else {
            Ok(
                RegistryState {
                    gatekeepers: self.gatekeepers.push(gatekeeper),
                    ..self
                }.push(
                    gatekeeper_message(
                        self.gatekeepers.len() + 1,
                        gatekeeper,
                        self.workers[gatekeeper].ecdh_pubkey,
                    ),
                ).deposit(Event::GatekeeperAdded { pubkey: gatekeeper }),
            )
        }
    }

    /// The worker leaves the gatekeepers, unless it is the last one.
    pub open spec fn unregister_gatekeeper(self, gatekeeper: WorkerPublicKey) -> Result<
        Self,
        DispatchError,
    > {
        if self.rotation_lock is Some {
            refuse(Error::MasterKeyInRotation)
        } else if !self.gatekeepers.contains(gatekeeper) {
            refuse(Error::InvalidGatekeeper)
        } else if self.gatekeepers.len() <= 1 {
            refuse(Error::LastGatekeeper)
        } else {
            Ok(
                RegistryState {
                    gatekeepers: without(self.gatekeepers, gatekeeper),
                    ..self
                }.push(
                    Message::GatekeeperChange(
                        GatekeeperChange::Unregistered { pubkey: gatekeeper },
                    ),
                ),
            )
        }
    }

    /// The gatekeepers are told to share the history of the master key.
    pub open spec fn master_key_history_sharing_enabled(self) -> Self {
        self.push(Message::Gatekeeper(GatekeeperEvent::ShareMasterKeyHistory {  }))
    }

    /// Every gatekeeper is a registered worker.
    pub open spec fn gatekeepers_known(self) -> bool {
        forall|i: int|
            0 <= i < self.gatekeepers.len() ==> self.workers.contains_key(
                #[trigger] self.gatekeepers[i],
            )
    }

    /// The public keys of the gatekeepers.
    pub open spec fn gatekeeper_identities(self) -> Seq<WorkerIdentity> {
        self.gatekeepers.map_values(
            |gatekeeper: WorkerPublicKey|
                WorkerIdentity {
                    pubkey: self.workers[gatekeeper].pubkey,
                    ecdh_pubkey: self.workers[gatekeeper].ecdh_pubkey,
                },
        )
    }

    /// A rotation of the master key starts, under the next id.
    pub open spec fn rotate_master_key(self) -> Result<Self, DispatchError> {
        if self.rotation_lock is Some {
            refuse(Error::MasterKeyInRotation)
        } else if !self.gatekeepers_known() {
            refuse(Error::WorkerNotFound)
        } else {
            let rotation_id = (self.rotation_counter + 1) as u64;
            Ok(
                RegistryState {
                    rotation_counter: rotation_id,
                    rotation_lock: Some(rotation_id),
                    ..self
                }.push(
                    Message::GatekeeperLaunch(
                        GatekeeperLaunch::RotateMasterKey {
                            rotation_id,
                            gk_identities: self.gatekeeper_identities(),
                        },
                    ),
                ),
            )
        }
    }

    /// The worker that a registration leaves behind. A worker that was registered before keeps its
    /// ECDH key. Either way it has no score until it has run the benchmark that it is told to run.
    pub open spec fn registered(
        self,
        info: WorkerRegistrationInfo<A>,
        confidence_level: u8,
        now: u64,
    ) -> WorkerView<A> {
        let known = self.workers.contains_key(info.pubkey);
        let before = self.workers[info.pubkey];
        WorkerView {
            pubkey: if known {
                before.pubkey
            } else {
                info.pubkey
            },
            ecdh_pubkey: if known {
                before.ecdh_pubkey
            } else {
                info.ecdh_pubkey
            },
            runtime_version: info.version,
            last_updated: now,
            operator: info.operator,
            confidence_level,
            initial_score: None,
            features: info.features@,
        }
    }

    /// The worker is registered, or its registration is refreshed, at the time `now` in seconds;
    /// either way it is told to run a benchmark. `report` is the verdict on its attestation.
    pub open spec fn register_worker(
        self,
        report: Result<ConfidentialReport, AttestationError>,
        verify_genesis: bool,
        info: WorkerRegistrationInfo<A>,
        now: u64,
    ) -> Result<Self, DispatchError> {
        match report {
            Err(err) => refuse(attestation_error(err)),
            Ok(report) => if verify_genesis && !self.genesis_allowlist.contains(
                info.genesis_block_hash,
            ) {
                refuse(Error::GenesisBlockHashRejected)
            } else {
                let pubkey = info.pubkey;
                Ok(
                    RegistryState {
                        workers: self.workers.insert(
                            pubkey,
                            self.registered(info, report.confidence_level, now),
                        ),
                        ..self
                    }.push(
                        worker_message(
                            pubkey,
                            WorkerEvent::Registered(
                                RegisteredWorker { confidence_level: report.confidence_level },
                            ),
                        ),
                    ).deposit(
                        if self.workers.contains_key(pubkey) {
                            Event::WorkerUpdated { pubkey }
                        } else {
                            Event::WorkerAdded { pubkey }
                        },
                    ).push(
                        worker_message(
                            pubkey,
                            WorkerEvent::BenchStart {
                                duration: match self.benchmark_duration {
                                    Some(duration) => duration,
                                    None => 0,
                                },
                            },
                        ),
                    ),
                )
            },
        }
    }

    /// The runtime is allowed from the block `now` on.
    pub open spec fn add_pruntime(self, pruntime_hash: Seq<u8>, now: B) -> Result<
        Self,
        DispatchError,
    > {
        if self.pruntime_allowlist.contains(pruntime_hash) {
            refuse(Error::PRuntimeAlreadyExists)
        } else {
            Ok(
                RegistryState {
                    pruntime_allowlist: self.pruntime_allowlist.push(pruntime_hash),
                    pruntime_timestamps: self.pruntime_timestamps.insert(pruntime_hash, now),
                    ..self
                },
            )
        }
    }

    /// The runtime is no longer allowed.
    pub open spec fn remove_pruntime(self, pruntime_hash: Seq<u8>) -> Result<Self, DispatchError> {
        if !self.pruntime_allowlist.contains(pruntime_hash) {
            refuse(Error::PRuntimeNotFound)
        } else {
            Ok(
                RegistryState {
                    pruntime_allowlist: without(self.pruntime_allowlist, pruntime_hash),
                    pruntime_timestamps: self.pruntime_timestamps.remove(pruntime_hash),
                    ..self
                },
            )
        }
    }

    /// Workers of the relay chain are allowed.
    pub open spec fn add_genesis(self, genesis_block_hash: H256) -> Result<Self, DispatchError> {
        if self.genesis_allowlist.contains(genesis_block_hash) {
            refuse(Error::GenesisBlockHashAlreadyExists)
        } else {
            Ok(
                RegistryState {
                    genesis_allowlist: self.genesis_allowlist.push(genesis_block_hash),
                    ..self
                },
            )
        }
    }

    /// Workers of the relay chain are no longer allowed.
    pub open spec fn remove_genesis(self, genesis_block_hash: H256) -> Result<
        Self,
        DispatchError,
    > {
        if !self.genesis_allowlist.contains(genesis_block_hash) {
            refuse(Error::GenesisBlockHashNotFound)
        } else {
            Ok(
                RegistryState {
                    genesis_allowlist: without(self.genesis_allowlist, genesis_block_hash),
                    ..self
                },
            )
        }
    }

    /// The key with which a sender signs, or why there is none.
    pub open spec fn sender_key(self, sender: MessageOrigin) -> Result<
        Sr25519Public,
        DispatchError,
    > {
        match sender {
            MessageOrigin::Worker(pubkey) => Ok(pubkey),
            MessageOrigin::Cluster(id) => if self.cluster_keys.contains_key(id) {
                Ok(self.cluster_keys[id])
            } else {
                refuse(Error::UnknownCluster)
            },
            MessageOrigin::Contract(id) => if self.contract_keys.contains_key(id) {
                Ok(self.contract_keys[id])
            } else {
                refuse(Error::UnknownContract)
            },
            MessageOrigin::Gatekeeper => match self.master_pubkey {
                Some(key) => Ok(key),
                None => refuse(Error::MasterKeyUninitialized),
            },
            MessageOrigin::Other => refuse(Error::CannotHandleUnknownMessage),
        }
    }

    /// What becomes of a message: it is accepted if it bears a valid signature of its sender.
    pub open spec fn message_verdict(
        self,
        sender: MessageOrigin,
        data: Seq<u8>,
        signature: Seq<u8>,
    ) -> DispatchResult {
        match self.sender_key(sender) {
            Ok(pubkey) => signature_verdict(
                signature.len(),
                sr25519_valid(signature, data, pubkey.0@),
            ),
            Err(err) => Err(err),
        }
    }

    /// The worker reports a benchmark that started at `start_time`, in milliseconds. A worker that
    /// is not registered gets its score announced all the same.
    pub open spec fn bench_report(
        self,
        worker: WorkerPublicKey,
        start_time: u64,
        iterations: u64,
        now: UnixTime,
    ) -> Result<Self, DispatchError> {
        if now.saturated_millis() <= start_time {
            refuse(Error::InvalidBenchReport)
        } else {
            let score = bench_score(start_time, now.saturated_millis(), iterations);
            Ok(
                RegistryState {
                    workers: if self.workers.contains_key(worker) {
                        self.workers.insert(
                            worker,
                            WorkerView {
                                initial_score: Some(score),
                                last_updated: now.secs,
                                ..self.workers[worker]
                            },
                        )
                    } else {
                        self.workers
                    },
                    ..self
                }.push(worker_message(worker, WorkerEvent::BenchScore(score))),
            )
        }
    }

    /// A gatekeeper uploads the master key, which is kept for good once it is there.
    pub open spec fn upload_master_key(
        self,
        worker: WorkerPublicKey,
        master_pubkey: MasterPublicKey,
    ) -> Result<Self, DispatchError> {
        if !self.gatekeepers.contains(worker) {
            refuse(Error::InvalidGatekeeper)
        } else {
            match self.master_pubkey {
                Some(saved) => if saved == master_pubkey {
                    Ok(self)
                } else {
                    refuse(Error::MasterKeyMismatch)
                },
                None => Ok(
                    RegistryState {
                        master_pubkey: Some(master_pubkey),
                        ..self
                    }.push(
                        Message::GatekeeperLaunch(
                            GatekeeperLaunch::MasterPubkeyOnChain { master_pubkey },
                        ),
                    ),
                ),
            }
        }
    }

    /// A message of a worker arrives.
    pub open spec fn worker_message_received(
        self,
        sender: MessageOrigin,
        payload: RegistryEvent,
        now: UnixTime,
    ) -> Result<Self, DispatchError> {
        match sender {
            MessageOrigin::Worker(worker) => match payload {
                RegistryEvent::BenchReport { start_time, iterations } => self.bench_report(
                    worker,
                    start_time,
                    iterations,
                    now,
                ),
                RegistryEvent::MasterPubkey { master_pubkey } => self.upload_master_key(
                    worker,
                    master_pubkey,
                ),
            },
            _ => refuse(Error::InvalidSender),
        }
    }

    /// A message of the gatekeepers arrives: it ends the rotation under way, if it names it.
    pub open spec fn gk_message_received(
        self,
        sender: MessageOrigin,
        payload: GKRegistryEvent,
    ) -> Result<Self, DispatchError> {
        match payload {
            GKRegistryEvent::RotatedMasterPubkey {
                rotation_id,
                master_pubkey,
            } => if !(sender is Gatekeeper) {
                refuse(Error::InvalidSender)
            } else if self.rotation_lock != Some(rotation_id) {
                refuse(Error::InvalidRotatedMasterPubkey)
            } else {
                Ok(
                    RegistryState {
                        master_pubkey: Some(master_pubkey),
                        rotation_lock: None,
                        ..self
                    }.push(
                        Message::GatekeeperLaunch(
                            GatekeeperLaunch::MasterPubkeyRotated { master_pubkey },
                        ),
                    ),
                )
            },
        }
    }

    /// The score of a registered worker is set.
    pub open spec fn score_set(self, worker: WorkerPublicKey, score: Option<u32>) -> Self {
        if self.workers.contains_key(worker) {
            RegistryState {
                workers: self.workers.insert(
                    worker,
                    WorkerView { initial_score: score, ..self.workers[worker] },
                ),
                ..self
            }
        } else {
            self
        }
    }

    /// The worker is there from the start, and is told to run a benchmark.
    pub open spec fn genesis_worker(
        self,
        pubkey: WorkerPublicKey,
        ecdh_pubkey: EcdhPublicKey,
        operator: Option<A>,
        benchmark_duration: u32,
    ) -> Self {
        RegistryState {
            workers: self.workers.insert(pubkey, forced_worker(pubkey, ecdh_pubkey, operator)),
            ..self
        }.queue(
            worker_message(
                pubkey,
                WorkerEvent::Registered(
                    RegisteredWorker { confidence_level: FORCED_CONFIDENCE_LEVEL },
                ),
            ),
        ).queue(
            worker_message(pubkey, WorkerEvent::BenchStart { duration: benchmark_duration }),
        ).benchmark_duration_set(benchmark_duration)
    }

    /// The workers are there from the start, one after the other.
    pub open spec fn genesis_workers(
        self,
        workers: Seq<(WorkerPublicKey, Vec<u8>, Option<A>)>,
        benchmark_duration: u32,
    ) -> Self
        decreases workers.len(),
    {
        if workers.len() == 0 {
            self
        } else {
            let (pubkey, ecdh_pubkey, operator) = workers.last();
            self.genesis_workers(workers.drop_last(), benchmark_duration).genesis_worker(
                pubkey,
                ecdh_key(ecdh_pubkey@),
                operator,
                benchmark_duration,
            )
        }
    }

    /// Those of the keys that are registered workers are the gatekeepers from the start, if there
    /// are any.
    pub open spec fn genesis_gatekeepers(self, gatekeepers: Seq<WorkerPublicKey>) -> Self {
        let admitted = gatekeepers.filter(
            |gatekeeper: WorkerPublicKey| self.workers.contains_key(gatekeeper),
        );
        RegistryState {
            gatekeepers: if admitted.len() > 0 {
                admitted
            } else {
                self.gatekeepers
            },
            queued: self.queued + Seq::new(
                admitted.len(),
                |i: int|
                    gatekeeper_message(
                        (i + 1) as nat,
                        admitted[i],
                        self.workers[admitted[i]].ecdh_pubkey,
                    ),
            ),
            ..self
        }
    }
}

} // verus!
