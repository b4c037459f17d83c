use phala_registry::attestation::{
    Attestation, AttestationError, AttestationValidator, ConfidentialReport, WorkerRegistrationInfo,
};
use phala_registry::messaging::{
    DecodedMessage, GKRegistryEvent, GatekeeperChange, GatekeeperEvent, GatekeeperLaunch, Message,
    MessageOrigin, OutboundMessage, RegistryEvent, SignedMessage, SystemEvent, WorkerEvent,
};
use phala_registry::model::{DispatchError, DispatchResult, Error, Event};
use phala_registry::primitives::{
    EcdhPublicKey, EnsureRoot, Origin, Sr25519Public, UnixTime, WorkerPublicKey, H256,
};
use phala_registry::registry::{Config, GenesisConfig, Pallet};
use sp_core::Pair;

/// Accepts every attestation.
struct AcceptAll;

impl AttestationValidator for AcceptAll {
    fn validate(
        _attestation: &Attestation,
        _user_data_hash: &[u8; 32],
        _now: u64,
        _verify_pruntime: bool,
        _pruntime_allowlist: &Vec<Vec<u8>>,
    ) -> Result<ConfidentialReport, AttestationError> {
        Ok(ConfidentialReport { confidence_level: 128 })
    }
}

struct Test;

impl Config for Test {
    type AccountId = u64;
    type BlockNumber = u64;
    type AttestationValidator = AcceptAll;
    type GovernanceOrigin = EnsureRoot;
    const VERIFY_PRUNTIME: bool = false;
    const VERIFY_RELAYCHAIN_GENESIS_BLOCK_HASH: bool = true;
}

/// Accepts an attestation whose report is the hash that was handed over, the time in one byte,
/// whether runtimes are verified, and the number of allowed runtimes.
struct Echo;

impl AttestationValidator for Echo {
    fn validate(
        attestation: &Attestation,
        user_data_hash: &[u8; 32],
        now: u64,
        verify_pruntime: bool,
        pruntime_allowlist: &Vec<Vec<u8>>,
    ) -> Result<ConfidentialReport, AttestationError> {
        let Attestation::SgxIas { ra_report, .. } = attestation;
        let mut expected = user_data_hash.to_vec();
        expected.push(now as u8);
        expected.push(verify_pruntime as u8);
        expected.push(pruntime_allowlist.len() as u8);
        if *ra_report == expected {
            Ok(ConfidentialReport { confidence_level: 3 })
        } else {
            Err(AttestationError::InvalidUserDataHash)
        }
    }
}

struct Strict;

impl Config for Strict {
    type AccountId = [u8; 32];
    type BlockNumber = u32;
    type AttestationValidator = Echo;
    type GovernanceOrigin = EnsureRoot;
    const VERIFY_PRUNTIME: bool = true;
    const VERIFY_RELAYCHAIN_GENESIS_BLOCK_HASH: bool = false;
}

fn worker_pubkey(i: u8) -> WorkerPublicKey {
    let mut raw = [0u8; 32];
    raw[31] = i;
    raw[30] = 1;
    Sr25519Public(raw)
}

fn ecdh_pubkey(i: u8) -> EcdhPublicKey {
    let mut raw = [0u8; 32];
    raw[31] = i;
    raw[30] = 2;
    EcdhPublicKey(raw)
}

fn no_attestation() -> Attestation {
    Attestation::SgxIas {
        ra_report: Vec::new(),
        signature: Vec::new(),
        raw_signing_cert: Vec::new(),
    }
}

fn registration(key: u8, genesis: H256, operator: Option<u64>) -> WorkerRegistrationInfo<u64> {
    WorkerRegistrationInfo {
        version: 1,
        machine_id: Vec::new(),
        pubkey: worker_pubkey(key),
        ecdh_pubkey: ecdh_pubkey(key),
        genesis_block_hash: genesis,
        features: vec![4, 1],
        operator,
    }
}

fn refused(err: Error) -> DispatchResult {
    Err(DispatchError::Module(err))
}

/// Everything in the registry that can be listed, as text.
fn snapshot<T: Config>(registry: &Pallet<T>) -> String
where
    T::AccountId: std::fmt::Debug,
    T::BlockNumber: std::fmt::Debug,
{
    let workers: Vec<String> =
        (0..10).map(|i| format!("{:?}", registry.workers.get(&worker_pubkey(i)))).collect();
    let dates: Vec<String> = registry
        .pruntime_allowlist
        .iter()
        .map(|hash| format!("{:?}", registry.pruntime_timestamps.get(hash)))
        .collect();
    format!(
        "{:?} {:?} {:?} {:?} {:?} {:?} {:?} {:?} {:?} {:?} {:?} {:?}",
        registry.gatekeepers,
        registry.gatekeeper_master_pubkey,
        registry.rotation_counter,
        registry.master_key_rotation_lock,
        workers,
        registry.benchmark_duration,
        registry.pruntime_allowlist,
        dates,
        registry.relaychain_genesis_block_hash_allowlist,
        registry.pushed,
        registry.queued,
        registry.events,
    )
}

/// A registry with the workers 1, 2 and 3.
fn staffed() -> Pallet<Test> {
    let mut registry = Pallet::<Test>::new();
    for i in 1..4 {
        assert_eq!(
            registry.force_register_worker(
                Origin::Root,
                worker_pubkey(i),
                ecdh_pubkey(i),
                Some(i as u64)
            ),
            Ok(())
        );
    }
    registry.pushed.clear();
    registry.events.clear();
    registry
}

/// A registry whose gatekeepers are the workers 1 and 2, under the master key 9.
fn launched() -> Pallet<Test> {
    let mut registry = staffed();
    assert_eq!(registry.register_gatekeeper(Origin::Root, worker_pubkey(1)), Ok(()));
    assert_eq!(upload(&mut registry, 1, 9), Ok(()));
    assert_eq!(registry.register_gatekeeper(Origin::Root, worker_pubkey(2)), Ok(()));
    registry.pushed.clear();
    registry.events.clear();
    registry
}

fn upload(registry: &mut Pallet<Test>, worker: u8, key: u8) -> DispatchResult {
    registry.on_message_received(
        DecodedMessage {
            sender: MessageOrigin::Worker(worker_pubkey(worker)),
            payload: RegistryEvent::MasterPubkey { master_pubkey: worker_pubkey(key) },
        },
        UnixTime::from_secs(1),
    )
}

fn report_rotated(registry: &mut Pallet<Test>, rotation_id: u64, key: u8) -> DispatchResult {
    registry.on_gk_message_received(DecodedMessage {
        sender: MessageOrigin::Gatekeeper,
        payload: GKRegistryEvent::RotatedMasterPubkey {
            rotation_id,
            master_pubkey: worker_pubkey(key),
        },
    })
}

fn bench(
    registry: &mut Pallet<Test>,
    worker: u8,
    start_time: u64,
    iterations: u64,
    now: UnixTime,
) -> DispatchResult {
    registry.on_message_received(
        DecodedMessage {
            sender: MessageOrigin::Worker(worker_pubkey(worker)),
            payload: RegistryEvent::BenchReport { start_time, iterations },
        },
        now,
    )
}

fn worker_event(message: &OutboundMessage) -> (WorkerPublicKey, WorkerEvent) {
    match message {
        Message::System(SystemEvent::WorkerEvent(event)) => (event.pubkey, event.event),
        other => panic!("not a worker event: {:?}", other),
    }
}

#[test]
fn test_register_worker() {
    let mut registry = Pallet::<Test>::new();
    let mut now = UnixTime::from_secs(0);
    assert_eq!(
        registry.add_relaychain_genesis_block_hash(Origin::Root, H256::repeat_byte(1)),
        Ok(())
    );

    // New registration without valid genesis_block_hash
    let before = snapshot(&registry);
    assert_eq!(
        registry.register_worker(
            Origin::Signed(1),
            registration(1, H256([0u8; 32]), Some(1)),
            no_attestation(),
            now
        ),
        refused(Error::GenesisBlockHashRejected)
    );
    assert_eq!(snapshot(&registry), before);

    // New registration
    assert_eq!(
        registry.register_worker(
            Origin::Signed(1),
            registration(1, H256::repeat_byte(1), Some(1)),
            no_attestation(),
            now
        ),
        Ok(())
    );
    let worker = registry.workers.get(&worker_pubkey(1)).unwrap();
    assert_eq!(worker.operator, Some(1));
    // Refreshed validator
    now.secs += 100;
    assert_eq!(
        registry.register_worker(
            Origin::Signed(1),
            registration(1, H256::repeat_byte(1), Some(2)),
            no_attestation(),
            now
        ),
        Ok(())
    );
    let worker = registry.workers.get(&worker_pubkey(1)).unwrap();
    assert_eq!(worker.last_updated, 100);
    assert_eq!(worker.operator, Some(2));
}

#[test]
fn test_pruntime_allowlist_works() {
    let mut registry = Pallet::<Test>::new();
    let sample: Vec<u8> = [1, 2, 3, 4].to_vec();
    assert_eq!(registry.add_pruntime(Origin::Root, sample.clone(), 1), Ok(()));
    let before = snapshot(&registry);
    assert_eq!(
        registry.add_pruntime(Origin::Root, sample.clone(), 1),
        refused(Error::PRuntimeAlreadyExists)
    );
    assert_eq!(snapshot(&registry), before);
    assert_eq!(registry.pruntime_allowlist().len(), 1);
    assert!(registry.pruntime_timestamps.contains_key(&sample));
    assert_eq!(registry.remove_pruntime(Origin::Root, sample.clone()), Ok(()));
    let before = snapshot(&registry);
    assert_eq!(
        registry.remove_pruntime(Origin::Root, sample.clone()),
        refused(Error::PRuntimeNotFound)
    );
    assert_eq!(snapshot(&registry), before);
    assert_eq!(registry.pruntime_allowlist().len(), 0);
    assert!(!registry.pruntime_timestamps.contains_key(&sample));
}

#[test]
fn test_relaychain_genesis_block_hash_allowlist_works() {
    let mut registry = Pallet::<Test>::new();
    let sample: H256 = H256::repeat_byte(1);
    assert_eq!(registry.add_relaychain_genesis_block_hash(Origin::Root, sample.clone()), Ok(()));
    let before = snapshot(&registry);
    assert_eq!(
        registry.add_relaychain_genesis_block_hash(Origin::Root, sample.clone()),
        refused(Error::GenesisBlockHashAlreadyExists)
    );
    assert_eq!(snapshot(&registry), before);
    assert_eq!(registry.relaychain_genesis_allowlist().len(), 1);
    assert_eq!(
        registry.remove_relaychain_genesis_block_hash(Origin::Root, sample.clone()),
        Ok(())
    );
    let before = snapshot(&registry);
    assert_eq!(
        registry.remove_relaychain_genesis_block_hash(Origin::Root, sample.clone()),
        refused(Error::GenesisBlockHashNotFound)
    );
    assert_eq!(snapshot(&registry), before);
    assert_eq!(registry.relaychain_genesis_allowlist().len(), 0);
}

#[test]
fn the_timestamp_of_a_runtime_is_the_block_it_was_added_at() {
    let mut registry = Pallet::<Test>::new();
    assert_eq!(registry.add_pruntime(Origin::Root, vec![1], 17), Ok(()));
    assert_eq!(registry.add_pruntime(Origin::Root, vec![2], 18), Ok(()));
    assert_eq!(registry.pruntime_timestamps.get(&vec![1]), Some(&17));
    assert_eq!(registry.remove_pruntime(Origin::Root, vec![1]), Ok(()));
    assert_eq!(registry.pruntime_allowlist, vec![vec![2]]);
    assert_eq!(registry.pruntime_timestamps.get(&vec![1]), None);
    assert_eq!(registry.pruntime_timestamps.get(&vec![2]), Some(&18));
}

#[test]
fn a_new_worker_is_stored_as_it_stated() {
    let mut registry = Pallet::<Test>::new();
    let _ = registry.add_relaychain_genesis_block_hash(Origin::Root, H256::repeat_byte(1));
    assert_eq!(registry.force_set_benchmark_duration(Origin::Root, 50), Ok(()));
    assert_eq!(
        registry.register_worker(
            Origin::Signed(7),
            registration(1, H256::repeat_byte(1), None),
            no_attestation(),
            UnixTime { secs: 12, nanos: 999_999_999 }
        ),
        Ok(())
    );
    let worker = registry.workers.get(&worker_pubkey(1)).unwrap();
    assert_eq!(worker.pubkey, worker_pubkey(1));
    assert_eq!(worker.ecdh_pubkey, ecdh_pubkey(1));
    assert_eq!(worker.runtime_version, 1);
    assert_eq!(worker.last_updated, 12);
    assert_eq!(worker.operator, None);
    assert_eq!(worker.confidence_level, 128);
    assert_eq!(worker.initial_score, None);
    assert_eq!(worker.features, vec![4, 1]);
    assert_eq!(registry.events, vec![Event::WorkerAdded { pubkey: worker_pubkey(1) }]);
    assert_eq!(registry.pushed.len(), 2);
    let (key, event) = worker_event(&registry.pushed[0]);
    assert_eq!(key, worker_pubkey(1));
    assert!(matches!(event, WorkerEvent::Registered(info) if info.confidence_level == 128));
    let (key, event) = worker_event(&registry.pushed[1]);
    assert_eq!(key, worker_pubkey(1));
    assert!(matches!(event, WorkerEvent::BenchStart { duration: 50 }));
}

#[test]
fn a_refreshed_worker_keeps_its_ecdh_key_and_loses_its_score() {
    let mut registry = staffed();
    let _ = registry.add_relaychain_genesis_block_hash(Origin::Root, H256::repeat_byte(1));
    registry.internal_set_benchmark(&worker_pubkey(1), Some(77));
    registry.internal_set_benchmark(&worker_pubkey(2), Some(79));
    registry.internal_set_benchmark(&worker_pubkey(8), Some(78));
    assert_eq!(registry.workers.get(&worker_pubkey(1)).unwrap().initial_score, Some(77));
    let mut info = registration(1, H256::repeat_byte(1), Some(5));
    info.ecdh_pubkey = ecdh_pubkey(9);
    info.version = 6;
    assert_eq!(
        registry.register_worker(
            Origin::Signed(1),
            info,
            no_attestation(),
            UnixTime::from_secs(3)
        ),
        Ok(())
    );
    let worker = registry.workers.get(&worker_pubkey(1)).unwrap();
    assert_eq!(worker.ecdh_pubkey, ecdh_pubkey(1));
    assert_eq!(worker.initial_score, None);
    assert_eq!(worker.runtime_version, 6);
    assert_eq!(worker.operator, Some(5));
    assert_eq!(registry.events, vec![Event::WorkerUpdated { pubkey: worker_pubkey(1) }]);
    let (_, event) = worker_event(&registry.pushed[1]);
    assert!(matches!(event, WorkerEvent::BenchStart { duration: 0 }));
    assert!(registry.workers.get(&worker_pubkey(8)).is_none());
    let untouched = registry.workers.get(&worker_pubkey(2)).unwrap();
    assert_eq!(untouched.operator, Some(2));
    assert_eq!(untouched.initial_score, Some(79));
}

#[test]
fn the_validator_gets_the_hash_the_time_the_flag_and_the_allow_list() {
    let info = || WorkerRegistrationInfo {
        version: 1,
        machine_id: vec![7, 8, 9],
        pubkey: worker_pubkey(1),
        ecdh_pubkey: ecdh_pubkey(1),
        genesis_block_hash: H256::repeat_byte(9),
        features: vec![],
        operator: Some([5u8; 32]),
    };
    let mut report = info().runtime_info_hash().to_vec();
    report.extend([42, 1, 2]);
    let attestation = |report: &Vec<u8>| Attestation::SgxIas {
        ra_report: report.clone(),
        signature: Vec::new(),
        raw_signing_cert: Vec::new(),
    };
    let mut registry = Pallet::<Strict>::new();
    assert_eq!(registry.add_pruntime(Origin::Root, vec![1], 1), Ok(()));
    assert_eq!(
        registry.register_worker(
            Origin::Signed([0u8; 32]),
            info(),
            attestation(&report),
            UnixTime::from_secs(42)
        ),
        refused(Error::InvalidRuntimeInfoHash)
    );
    assert_eq!(registry.add_pruntime(Origin::Root, vec![2], 1), Ok(()));
    assert_eq!(
        registry.register_worker(
            Origin::Signed([0u8; 32]),
            info(),
            attestation(&report),
            UnixTime::from_secs(42)
        ),
        Ok(())
    );
    assert_eq!(registry.workers.get(&worker_pubkey(1)).unwrap().confidence_level, 3);
    // Any other statement has another hash
    let mut other = info();
    other.operator = None;
    assert_eq!(
        registry.register_worker(
            Origin::Signed([0u8; 32]),
            other,
            attestation(&report),
            UnixTime::from_secs(42)
        ),
        refused(Error::InvalidRuntimeInfoHash)
    );
}

#[test]
fn every_attestation_error_has_its_error() {
    let cases = [
        (AttestationError::PRuntimeRejected, Error::PRuntimeRejected),
        (AttestationError::InvalidIASSigningCert, Error::InvalidIASSigningCert),
        (AttestationError::InvalidReport, Error::InvalidReport),
        (AttestationError::InvalidQuoteStatus, Error::InvalidQuoteStatus),
        (AttestationError::BadIASReport, Error::BadIASReport),
        (AttestationError::OutdatedIASReport, Error::OutdatedIASReport),
        (AttestationError::UnknownQuoteBodyFormat, Error::UnknownQuoteBodyFormat),
        (AttestationError::InvalidUserDataHash, Error::InvalidRuntimeInfoHash),
    ];
    for (given, expected) in cases {
        assert_eq!(Error::from(given), expected);
        let mut registry = staffed();
        let before = snapshot(&registry);
        assert_eq!(
            registry.register_worker_with(
                Err(given),
                registration(1, H256::repeat_byte(1), None),
                5
            ),
            refused(expected)
        );
        assert_eq!(snapshot(&registry), before);
    }
}

#[test]
fn only_a_signed_call_registers_a_worker() {
    for origin in [Origin::Root, Origin::Unsigned] {
        let mut registry = Pallet::<Test>::new();
        let _ = registry.add_relaychain_genesis_block_hash(Origin::Root, H256::repeat_byte(1));
        let before = snapshot(&registry);
        assert_eq!(
            registry.register_worker(
                origin,
                registration(1, H256::repeat_byte(1), None),
                no_attestation(),
                UnixTime::from_secs(1)
            ),
            Err(DispatchError::BadOrigin)
        );
        assert_eq!(snapshot(&registry), before);
    }
}

#[test]
fn only_the_governance_governs() {
    let mut registry = launched();
    let before = snapshot(&registry);
    let bad = Err(DispatchError::BadOrigin);
    let signed = || Origin::Signed(1);
    assert_eq!(registry.force_set_benchmark_duration(signed(), 5), bad);
    assert_eq!(registry.register_gatekeeper(signed(), worker_pubkey(3)), bad);
    assert_eq!(registry.unregister_gatekeeper(signed(), worker_pubkey(1)), bad);
    assert_eq!(registry.enable_master_key_history_sharing(signed()), bad);
    assert_eq!(registry.rotate_master_key(signed()), bad);
    assert_eq!(registry.add_pruntime(signed(), vec![1], 1), bad);
    assert_eq!(registry.remove_pruntime(signed(), vec![1]), bad);
    assert_eq!(registry.add_relaychain_genesis_block_hash(signed(), H256::repeat_byte(1)), bad);
    assert_eq!(registry.remove_relaychain_genesis_block_hash(signed(), H256::repeat_byte(1)), bad);
    assert_eq!(
        registry.force_register_worker(signed(), worker_pubkey(1), ecdh_pubkey(1), None),
        bad
    );
    assert_eq!(registry.force_register_topic_pubkey(signed(), vec![1], vec![2]), bad);
    assert_eq!(snapshot(&registry), before);
    assert!(registry.topic_keys.get(&vec![1]).is_none());
}

#[test]
fn a_forced_worker_is_stored_and_announced() {
    let mut registry = Pallet::<Test>::new();
    assert_eq!(
        registry.force_register_worker(Origin::Root, worker_pubkey(1), ecdh_pubkey(1), Some(4)),
        Ok(())
    );
    let worker = registry.workers.get(&worker_pubkey(1)).unwrap();
    assert_eq!(worker.runtime_version, 0);
    assert_eq!(worker.last_updated, 0);
    assert_eq!(worker.operator, Some(4));
    assert_eq!(worker.confidence_level, 128);
    assert_eq!(worker.initial_score, None);
    assert_eq!(worker.features, vec![1, 4]);
    assert_eq!(registry.events, vec![Event::WorkerAdded { pubkey: worker_pubkey(1) }]);
    assert_eq!(registry.pushed.len(), 1);
    let (_, event) = worker_event(&registry.pushed[0]);
    assert!(matches!(event, WorkerEvent::Registered(info) if info.confidence_level == 128));
}

#[test]
fn a_topic_gets_the_latest_key() {
    let mut registry = Pallet::<Test>::new();
    let topic = b"secret".to_vec();
    assert_eq!(
        registry.force_register_topic_pubkey(Origin::Root, topic.clone(), vec![1]),
        Ok(())
    );
    assert_eq!(
        registry.force_register_topic_pubkey(Origin::Root, topic.clone(), vec![2]),
        Ok(())
    );
    assert_eq!(registry.topic_keys.get(&topic), Some(&vec![2]));
}

#[test]
fn gatekeepers_join_one_after_the_other() {
    let mut registry = staffed();
    assert_eq!(
        registry.register_gatekeeper(Origin::Root, worker_pubkey(8)),
        refused(Error::WorkerNotFound)
    );
    assert_eq!(registry.register_gatekeeper(Origin::Root, worker_pubkey(1)), Ok(()));
    assert!(matches!(
        registry.pushed[0],
        Message::GatekeeperLaunch(GatekeeperLaunch::FirstGatekeeper { pubkey, ecdh_pubkey: key })
            if pubkey == worker_pubkey(1) && key == ecdh_pubkey(1)
    ));
    // The second gatekeeper waits for the master key
    let before = snapshot(&registry);
    assert_eq!(
        registry.register_gatekeeper(Origin::Root, worker_pubkey(2)),
        refused(Error::MasterKeyUninitialized)
    );
    assert_eq!(snapshot(&registry), before);
    assert_eq!(upload(&mut registry, 1, 9), Ok(()));
    assert!(matches!(
        registry.pushed[1],
        Message::GatekeeperLaunch(GatekeeperLaunch::MasterPubkeyOnChain { master_pubkey })
            if master_pubkey == worker_pubkey(9)
    ));
    assert_eq!(registry.register_gatekeeper(Origin::Root, worker_pubkey(2)), Ok(()));
    assert!(matches!(
        registry.pushed[2],
        Message::GatekeeperChange(GatekeeperChange::Registered { pubkey, ecdh_pubkey: key })
            if pubkey == worker_pubkey(2) && key == ecdh_pubkey(2)
    ));
    assert_eq!(registry.gatekeepers, vec![worker_pubkey(1), worker_pubkey(2)]);
    assert_eq!(
        registry.events,
        vec![
            Event::GatekeeperAdded { pubkey: worker_pubkey(1) },
            Event::GatekeeperAdded { pubkey: worker_pubkey(2) },
        ]
    );
    // To join twice changes nothing
    let before = snapshot(&registry);
    assert_eq!(registry.register_gatekeeper(Origin::Root, worker_pubkey(2)), Ok(()));
    assert_eq!(snapshot(&registry), before);
}

#[test]
fn gatekeepers_leave_but_for_the_last_one() {
    let mut registry = launched();
    assert_eq!(
        registry.unregister_gatekeeper(Origin::Root, worker_pubkey(3)),
        refused(Error::InvalidGatekeeper)
    );
    assert_eq!(registry.register_gatekeeper(Origin::Root, worker_pubkey(3)), Ok(()));
    registry.pushed.clear();
    assert_eq!(registry.unregister_gatekeeper(Origin::Root, worker_pubkey(2)), Ok(()));
    assert_eq!(registry.gatekeepers, vec![worker_pubkey(1), worker_pubkey(3)]);
    assert!(matches!(
        registry.pushed[0],
        Message::GatekeeperChange(GatekeeperChange::Unregistered { pubkey })
            if pubkey == worker_pubkey(2)
    ));
    assert_eq!(registry.unregister_gatekeeper(Origin::Root, worker_pubkey(1)), Ok(()));
    let before = snapshot(&registry);
    assert_eq!(
        registry.unregister_gatekeeper(Origin::Root, worker_pubkey(3)),
        refused(Error::LastGatekeeper)
    );
    assert_eq!(snapshot(&registry), before);
}

#[test]
fn a_gatekeeper_that_joins_and_leaves_leaves_the_list_as_it_was() {
    let mut registry = launched();
    let before = registry.gatekeepers.clone();
    assert_eq!(registry.register_gatekeeper(Origin::Root, worker_pubkey(3)), Ok(()));
    assert_eq!(registry.unregister_gatekeeper(Origin::Root, worker_pubkey(3)), Ok(()));
    assert_eq!(registry.gatekeepers, before);
}

#[test]
fn the_first_master_key_is_kept() {
    let mut registry = launched();
    let before = snapshot(&registry);
    assert_eq!(upload(&mut registry, 3, 9), refused(Error::InvalidGatekeeper));
    assert_eq!(upload(&mut registry, 2, 8), refused(Error::MasterKeyMismatch));
    assert_eq!(upload(&mut registry, 2, 9), Ok(()));
    assert_eq!(snapshot(&registry), before);
}

#[test]
fn a_rotation_runs_from_start_to_report() {
    let mut registry = launched();
    assert_eq!(registry.rotation_counter, 0);
    assert_eq!(report_rotated(&mut registry, 1, 7), refused(Error::InvalidRotatedMasterPubkey));
    assert_eq!(registry.rotate_master_key(Origin::Root), Ok(()));
    assert_eq!(registry.master_key_rotation_lock, Some(1));
    assert_eq!(registry.rotation_counter, 1);
    match &registry.pushed[0] {
        Message::GatekeeperLaunch(GatekeeperLaunch::RotateMasterKey {
            rotation_id,
            gk_identities,
        }) => {
            assert_eq!(*rotation_id, 1);
            assert_eq!(gk_identities.len(), 2);
            assert_eq!(gk_identities[0].pubkey, worker_pubkey(1));
            assert_eq!(gk_identities[0].ecdh_pubkey, ecdh_pubkey(1));
            assert_eq!(gk_identities[1].pubkey, worker_pubkey(2));
            assert_eq!(gk_identities[1].ecdh_pubkey, ecdh_pubkey(2));
        }
        other => panic!("not a rotation: {:?}", other),
    }
    // Nothing changes among the gatekeepers meanwhile
    let before = snapshot(&registry);
    let busy = refused(Error::MasterKeyInRotation);
    assert_eq!(registry.rotate_master_key(Origin::Root), busy);
    assert_eq!(registry.register_gatekeeper(Origin::Root, worker_pubkey(3)), busy);
    assert_eq!(registry.unregister_gatekeeper(Origin::Root, worker_pubkey(1)), busy);
    assert_eq!(report_rotated(&mut registry, 0, 7), refused(Error::InvalidRotatedMasterPubkey));
    assert_eq!(report_rotated(&mut registry, 2, 7), refused(Error::InvalidRotatedMasterPubkey));
    assert_eq!(
        registry.on_gk_message_received(DecodedMessage {
            sender: MessageOrigin::Worker(worker_pubkey(1)),
            payload: GKRegistryEvent::RotatedMasterPubkey {
                rotation_id: 1,
                master_pubkey: worker_pubkey(7),
            },
        }),
        refused(Error::InvalidSender)
    );
    assert_eq!(snapshot(&registry), before);
    // The report ends the rotation, once
    assert_eq!(report_rotated(&mut registry, 1, 7), Ok(()));
    assert_eq!(registry.gatekeeper_master_pubkey, Some(worker_pubkey(7)));
    assert_eq!(registry.master_key_rotation_lock, None);
    assert!(matches!(
        registry.pushed[1],
        Message::GatekeeperLaunch(GatekeeperLaunch::MasterPubkeyRotated { master_pubkey })
            if master_pubkey == worker_pubkey(7)
    ));
    assert_eq!(registry.rotation_counter, 1);
    assert_eq!(report_rotated(&mut registry, 1, 6), refused(Error::InvalidRotatedMasterPubkey));
    // The next rotation has the next id
    assert_eq!(registry.rotate_master_key(Origin::Root), Ok(()));
    assert_eq!(registry.master_key_rotation_lock, Some(2));
    assert_eq!(registry.rotation_counter, 2);
}

#[test]
fn a_rotation_is_reported_once() {
    let mut registry = launched();
    assert_eq!(registry.rotate_master_key(Origin::Root), Ok(()));
    assert_eq!(report_rotated(&mut registry, 1, 7), Ok(()));
    assert_eq!(registry.rotate_master_key(Origin::Root), Ok(()));
    // The first id is spent while the second rotation runs, and after it
    for key in [7, 8] {
        let before = snapshot(&registry);
        assert_eq!(
            report_rotated(&mut registry, 1, key),
            refused(Error::InvalidRotatedMasterPubkey)
        );
        assert_eq!(snapshot(&registry), before);
    }
    assert_eq!(report_rotated(&mut registry, 2, 8), Ok(()));
    assert_eq!(report_rotated(&mut registry, 1, 7), refused(Error::InvalidRotatedMasterPubkey));
    assert_eq!(report_rotated(&mut registry, 2, 9), refused(Error::InvalidRotatedMasterPubkey));
    assert_eq!(registry.gatekeeper_master_pubkey, Some(worker_pubkey(8)));
}

#[test]
fn a_rotation_needs_all_gatekeepers_registered() {
    let mut registry = launched();
    registry.workers.remove(&worker_pubkey(2));
    let before = snapshot(&registry);
    assert_eq!(registry.rotate_master_key(Origin::Root), refused(Error::WorkerNotFound));
    assert_eq!(snapshot(&registry), before);
}

#[test]
fn history_sharing_is_announced() {
    let mut registry = Pallet::<Test>::new();
    assert_eq!(registry.enable_master_key_history_sharing(Origin::Root), Ok(()));
    assert!(matches!(
        registry.pushed[0],
        Message::Gatekeeper(GatekeeperEvent::ShareMasterKeyHistory {})
    ));
}

#[test]
fn a_benchmark_is_scored_by_six_seconds() {
    let mut registry = staffed();
    // 200 iterations between 1 s and 3.999 s: two whole seconds
    let now = UnixTime { secs: 3, nanos: 999_000_000 };
    assert_eq!(bench(&mut registry, 1, 1000, 200, now), Ok(()));
    let worker = registry.workers.get(&worker_pubkey(1)).unwrap();
    assert_eq!(worker.initial_score, Some(600));
    assert_eq!(worker.last_updated, 3);
    let (key, event) = worker_event(&registry.pushed[0]);
    assert_eq!(key, worker_pubkey(1));
    assert!(matches!(event, WorkerEvent::BenchScore(600)));
    // 7 iterations in two seconds count as 3 in one
    assert_eq!(Pallet::<Test>::score(0, 2000, 7), 18);
    assert_eq!(Pallet::<Test>::score(0, 1000, 999), 5994);
    assert_eq!(Pallet::<Test>::score(0, 1000, 1000), 6000);
    assert_eq!(Pallet::<Test>::score(0, 1000, 1001), 6000);
    // Only the low 32 bits count
    assert_eq!(Pallet::<Test>::score(0, 1000, 1 << 31), 0);
}

#[test]
fn more_iterations_never_lower_the_score() {
    let mut last = 0;
    for iterations in [0, 1, 2, 3, 500, 2999, 3000, 3001, 1 << 30] {
        let score = Pallet::<Test>::score(0, 3000, iterations);
        assert!(last <= score);
        assert_eq!(score % 6, 0);
        last = score;
    }
    assert_eq!(last, 6000);
    // The largest count that fits in 32 bits after scaling, and the next one, which wraps around
    assert_eq!(Pallet::<Test>::score(0, 1000, 715_827_882), 6000);
    assert_eq!(Pallet::<Test>::score(0, 1000, 715_827_883), 2);
}

#[test]
fn a_registration_and_a_benchmark_are_dated_in_the_same_unit() {
    let mut registry = staffed();
    let _ = registry.add_relaychain_genesis_block_hash(Origin::Root, H256::repeat_byte(1));
    let now = UnixTime::from_secs(100);
    assert_eq!(
        registry.register_worker(
            Origin::Signed(1),
            registration(2, H256::repeat_byte(1), None),
            no_attestation(),
            now
        ),
        Ok(())
    );
    assert_eq!(bench(&mut registry, 1, 0, 100, now), Ok(()));
    assert_eq!(registry.workers.get(&worker_pubkey(1)).unwrap().last_updated, 100);
    assert_eq!(registry.workers.get(&worker_pubkey(2)).unwrap().last_updated, 100);
}

#[test]
fn a_benchmark_from_the_future_is_refused() {
    let mut registry = staffed();
    let before = snapshot(&registry);
    let now = UnixTime::from_secs(3);
    assert_eq!(bench(&mut registry, 1, 3000, 5, now), refused(Error::InvalidBenchReport));
    assert_eq!(bench(&mut registry, 1, 3001, 5, now), refused(Error::InvalidBenchReport));
    assert_eq!(snapshot(&registry), before);
}

#[test]
fn a_benchmark_of_an_unknown_worker_is_only_announced() {
    let mut registry = staffed();
    assert_eq!(bench(&mut registry, 8, 0, 10, UnixTime::from_secs(1)), Ok(()));
    assert!(registry.workers.get(&worker_pubkey(8)).is_none());
    let (key, event) = worker_event(&registry.pushed[0]);
    assert_eq!(key, worker_pubkey(8));
    assert!(matches!(event, WorkerEvent::BenchScore(60)));
}

#[test]
fn milliseconds_beyond_64_bits_are_capped() {
    assert_eq!(UnixTime { secs: u64::MAX, nanos: 0 }.as_saturated_millis(), u64::MAX);
    assert_eq!(
        UnixTime { secs: u64::MAX, nanos: 2_000_000 }.as_millis(),
        u64::MAX as u128 * 1000 + 2
    );
    assert_eq!(UnixTime { secs: 2, nanos: 1_999_999 }.as_saturated_millis(), 2001);
}

#[test]
fn only_workers_report_to_the_registry() {
    let mut registry = launched();
    let before = snapshot(&registry);
    for sender in [
        MessageOrigin::Gatekeeper,
        MessageOrigin::Other,
        MessageOrigin::Contract(H256::repeat_byte(1)),
        MessageOrigin::Cluster(H256::repeat_byte(1)),
    ] {
        assert_eq!(
            registry.on_message_received(
                DecodedMessage {
                    sender,
                    payload: RegistryEvent::BenchReport { start_time: 0, iterations: 1 },
                },
                UnixTime::from_secs(1)
            ),
            refused(Error::InvalidSender)
        );
    }
    assert_eq!(snapshot(&registry), before);
}

#[test]
fn a_signature_is_checked_under_the_key_of_the_sender() {
    let worker = sp_core::sr25519::Pair::from_seed(&[1u8; 32]);
    let other = sp_core::sr25519::Pair::from_seed(&[2u8; 32]);
    let worker_key = Sr25519Public(worker.public().0);
    let data = b"a message".to_vec();
    let signed = |sender: MessageOrigin, signature: Vec<u8>| SignedMessage {
        sender,
        data_be_signed: data.clone(),
        signature,
    };
    let good = worker.sign(&data).0.to_vec();
    let forged = other.sign(&data).0.to_vec();
    let mut registry = Pallet::<Test>::new();

    let sender = MessageOrigin::Worker(worker_key);
    assert_eq!(registry.check_message(&signed(sender, good.clone())), Ok(()));
    assert_eq!(
        registry.check_message(&signed(sender, forged.clone())),
        refused(Error::InvalidSignature)
    );
    assert_eq!(
        registry.check_message(&signed(sender, good[..63].to_vec())),
        refused(Error::InvalidSignatureLength)
    );
    assert_eq!(
        registry.check_message(&signed(sender, Vec::new())),
        refused(Error::InvalidSignatureLength)
    );
    let tampered = SignedMessage {
        sender,
        data_be_signed: b"another message".to_vec(),
        signature: good.clone(),
    };
    assert_eq!(registry.check_message(&tampered), refused(Error::InvalidSignature));

    let id = H256::repeat_byte(4);
    let contract = MessageOrigin::Contract(id);
    let cluster = MessageOrigin::Cluster(id);
    let gatekeeper = MessageOrigin::Gatekeeper;
    assert_eq!(
        registry.check_message(&signed(contract, good.clone())),
        refused(Error::UnknownContract)
    );
    assert_eq!(
        registry.check_message(&signed(cluster, good.clone())),
        refused(Error::UnknownCluster)
    );
    assert_eq!(
        registry.check_message(&signed(gatekeeper, good.clone())),
        refused(Error::MasterKeyUninitialized)
    );
    assert_eq!(
        registry.check_message(&signed(MessageOrigin::Other, good.clone())),
        refused(Error::CannotHandleUnknownMessage)
    );
    registry.contract_keys.insert(id, worker_key);
    registry.cluster_keys.insert(id, worker_key);
    registry.gatekeeper_master_pubkey = Some(worker_key);
    for sender in [contract, cluster, gatekeeper] {
        assert_eq!(registry.check_message(&signed(sender, good.clone())), Ok(()));
        assert_eq!(
            registry.check_message(&signed(sender, forged.clone())),
            refused(Error::InvalidSignature)
        );
    }
    assert_eq!(Pallet::<Test>::accept_signature(true), Ok(()));
    assert_eq!(Pallet::<Test>::accept_signature(false), refused(Error::InvalidSignature));
}

#[test]
fn the_default_genesis_is_empty() {
    let genesis = GenesisConfig::<Test>::default();
    assert_eq!(genesis.workers.len(), 0);
    assert_eq!(genesis.gatekeepers.len(), 0);
    assert_eq!(genesis.benchmark_duration, 8);
    let mut registry = Pallet::<Test>::new();
    let before = snapshot(&registry);
    genesis.build(&mut registry);
    assert_eq!(snapshot(&registry), before);
    assert_eq!(registry.benchmark_duration, None);
}

#[test]
fn a_genesis_puts_workers_and_gatekeepers_in_place() {
    let genesis = GenesisConfig::<Test> {
        workers: vec![
            (worker_pubkey(1), ecdh_pubkey(1).0.to_vec(), None),
            (worker_pubkey(2), ecdh_pubkey(2).0.to_vec(), Some(6)),
        ],
        gatekeepers: vec![worker_pubkey(2), worker_pubkey(8), worker_pubkey(1)],
        benchmark_duration: 30,
    };
    let mut registry = Pallet::<Test>::new();
    genesis.build(&mut registry);
    assert_eq!(registry.benchmark_duration, Some(30));
    assert_eq!(registry.gatekeepers, vec![worker_pubkey(2), worker_pubkey(1)]);
    let worker = registry.workers.get(&worker_pubkey(2)).unwrap();
    assert_eq!(worker.ecdh_pubkey, ecdh_pubkey(2));
    assert_eq!(worker.operator, Some(6));
    assert_eq!(worker.confidence_level, 128);
    assert_eq!(worker.features, vec![1, 4]);
    assert!(registry.workers.get(&worker_pubkey(8)).is_none());
    assert_eq!(registry.pushed.len(), 0);
    assert_eq!(registry.events.len(), 0);
    assert_eq!(registry.queued.len(), 6);
    let (key, event) = worker_event(&registry.queued[0]);
    assert_eq!(key, worker_pubkey(1));
    assert!(matches!(event, WorkerEvent::Registered(info) if info.confidence_level == 128));
    let (key, event) = worker_event(&registry.queued[3]);
    assert_eq!(key, worker_pubkey(2));
    assert!(matches!(event, WorkerEvent::BenchStart { duration: 30 }));
    assert!(matches!(
        registry.queued[4],
        Message::GatekeeperLaunch(GatekeeperLaunch::FirstGatekeeper { pubkey, ecdh_pubkey: key })
            if pubkey == worker_pubkey(2) && key == ecdh_pubkey(2)
    ));
    assert!(matches!(
        registry.queued[5],
        Message::GatekeeperChange(GatekeeperChange::Registered { pubkey, ecdh_pubkey: key })
            if pubkey == worker_pubkey(1) && key == ecdh_pubkey(1)
    ));
}

#[test]
fn reports_have_their_topics() {
    assert_eq!(RegistryEvent::topic(), b"^phala/registry/event".to_vec());
    assert_eq!(GKRegistryEvent::topic(), b"^phala/registry/gk_event".to_vec());
}

#[test]
fn after_a_rotation_the_new_key_checks_messages() {
    let old = sp_core::sr25519::Pair::from_seed(&[3u8; 32]);
    let new = sp_core::sr25519::Pair::from_seed(&[4u8; 32]);
    let mut registry = launched();
    registry.gatekeeper_master_pubkey = Some(Sr25519Public(old.public().0));
    let data = b"from the gatekeepers".to_vec();
    let message = |pair: &sp_core::sr25519::Pair| SignedMessage {
        sender: MessageOrigin::Gatekeeper,
        data_be_signed: data.clone(),
        signature: pair.sign(&data).0.to_vec(),
    };
    assert_eq!(registry.check_message(&message(&old)), Ok(()));
    assert_eq!(registry.check_message(&message(&new)), refused(Error::InvalidSignature));
    assert_eq!(registry.rotate_master_key(Origin::Root), Ok(()));
    assert_eq!(registry.check_message(&message(&old)), Ok(()));
    assert_eq!(
        registry.on_gk_message_received(DecodedMessage {
            sender: MessageOrigin::Gatekeeper,
            payload: GKRegistryEvent::RotatedMasterPubkey {
                rotation_id: 1,
                master_pubkey: Sr25519Public(new.public().0),
            },
        }),
        Ok(())
    );
    assert_eq!(registry.check_message(&message(&new)), Ok(()));
    assert_eq!(registry.check_message(&message(&old)), refused(Error::InvalidSignature));
}

#[test]
fn a_long_history_leaves_the_registry_in_order() {
    let mut registry = Pallet::<Test>::new();
    let id = H256::repeat_byte(6);
    registry.contract_keys.insert(id, worker_pubkey(6));
    registry.cluster_keys.insert(id, worker_pubkey(7));
    let _ = registry.add_relaychain_genesis_block_hash(Origin::Root, id);
    let mut sent = 0;
    let mut announced = 0;
    let mut last_rotation = None;
    for round in 0..20u64 {
        let i = (round % 4) as u8 + 1;
        let key = worker_pubkey(i);
        let _ = registry.register_worker(
            Origin::Signed(round),
            registration(i, id, Some(round)),
            no_attestation(),
            UnixTime::from_secs(round),
        );
        let _ = registry.register_gatekeeper(Origin::Root, key);
        let _ = upload(&mut registry, i, 9);
        let _ = bench(&mut registry, i, 0, 500 * round, UnixTime::from_secs(round + 1));
        if round % 3 == 0 {
            let _ = registry.unregister_gatekeeper(Origin::Root, key);
        }
        let _ = registry.add_pruntime(Origin::Root, vec![i], round);
        if round % 5 == 0 {
            let _ = registry.remove_pruntime(Origin::Root, vec![i]);
        }
        if round % 2 == 0 {
            assert_eq!(registry.rotate_master_key(Origin::Root), Ok(()));
            assert!(registry.master_key_rotation_lock > last_rotation);
            last_rotation = registry.master_key_rotation_lock;
            assert_eq!(last_rotation, Some(registry.rotation_counter));
        } else {
            let rotation = last_rotation.unwrap();
            assert_eq!(report_rotated(&mut registry, rotation, 9), Ok(()));
        }

        assert!(registry.gatekeepers.len() > 0);
        for (n, gatekeeper) in registry.gatekeepers.iter().enumerate() {
            assert!(!registry.gatekeepers[..n].contains(gatekeeper));
            assert!(registry.workers.contains_key(gatekeeper));
        }
        for k in 1..=i {
            let worker = registry.workers.get(&worker_pubkey(k)).unwrap();
            assert_eq!(worker.pubkey, worker_pubkey(k));
            assert!(worker.initial_score.unwrap() <= 6000);
        }
        for hash in 0..6u8 {
            assert_eq!(
                registry.pruntime_allowlist.contains(&vec![hash]),
                registry.pruntime_timestamps.contains_key(&vec![hash])
            );
        }
        assert!(registry.pushed.len() >= sent);
        assert!(registry.events.len() >= announced);
        sent = registry.pushed.len();
        announced = registry.events.len();
        assert_eq!(registry.queued.len(), 0);
        assert_eq!(registry.contract_keys.get(&id), Some(&worker_pubkey(6)));
        assert_eq!(registry.cluster_keys.get(&id), Some(&worker_pubkey(7)));
    }
    assert_eq!(registry.rotation_counter, 10);
}
