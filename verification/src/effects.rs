//! What each operation does, field by field.
//!
//! Every law here says of one operation when it succeeds, with which error it is refused otherwise,
//! which fields of the state it changes and to what, which messages and events it leaves, and that
//! everything else stays as it was.

use crate::attestation::{AttestationError, ConfidentialReport, WorkerRegistrationInfo};
use crate::crypto::sr25519_valid;
use crate::messaging::{
    worker_message, GKRegistryEvent, GatekeeperChange, GatekeeperEvent, GatekeeperLaunch, Message,
    MessageOrigin, MessageView, OutboundMessage, RegisteredWorker, RegistryEvent, SystemEvent,
    WorkerEvent, WorkerEventWithKey, WorkerIdentity,
};
use crate::model::{
    bench_measurable, bench_score, ecdh_key, governed, signature_verdict, took, DispatchError,
    DispatchResult, Error, Event, RegistryState,
};
use crate::primitives::{
    BadOrigin, ContractClusterId, ContractId, EcdhPublicKey, EnsureOrigin, MasterPublicKey, Origin,
    UnixTime, WorkerPublicKey, H256,
};
use crate::registry::{asked_and_took, Config, Pallet};
use crate::storage::without;
use vstd::arithmetic::div_mod::{lemma_div_is_ordered, lemma_fundamental_div_mod, lemma_mod_bound};
use vstd::prelude::*;

verus! {

/// The items of `after` stand at these places of `before`, in the same order; none of them is
/// `item`, and every place of `before` that does not hold `item` is among them.
pub open spec fn stripped_to<X>(
    before: Seq<X>,
    item: X,
    after: Seq<X>,
    places: Seq<int>,
) -> bool {
    &&& places.len() == after.len()
    &&& forall|i: int|
        #![trigger places[i]]
        0 <= i < places.len() ==> 0 <= places[i] < before.len() && before[places[i]] != item
    &&& forall|i: int| #![trigger after[i]] 0 <= i < after.len() ==> after[i] == before[places[i]]
    &&& forall|i: int, j: int|
        #![trigger places[i], places[j]]
        0 <= i < j < places.len() ==> places[i] < places[j]
    &&& forall|k: int|
        0 <= k < before.len() && before[k] != item ==> #[trigger] places.contains(k)
}

/// The list `after` is what the list `before` holds besides `item`, in the same order.
pub open spec fn stripped<X>(before: Seq<X>, item: X, after: Seq<X>) -> bool {
    exists|places: Seq<int>| stripped_to(before, item, after, places)
}

proof fn lemma_without_strips<X>(items: Seq<X>, item: X)
    ensures
        stripped(items, item, without(items, item)),
    decreases items.len(),
{
    reveal(Seq::filter);
    let after = without(items, item);
    if items.len() == 0 {
        assert(stripped_to(items, item, after, Seq::empty()));
    } else {
        let head = items.drop_last();
        lemma_without_strips(head, item);
        let before = choose|places: Seq<int>|
            stripped_to(head, item, without(head, item), places);
        let last = items.len() - 1;
        let places = if items[last] == item {
            before
        } else {
            before.push(last)
        };
        assert forall|k: int|
            0 <= k < items.len() && items[k] != item implies #[trigger] places.contains(k) by {
            if k < last {
                assert(head[k] == items[k]);
                assert(before.contains(k));
                let i = choose|i: int| 0 <= i < before.len() && before[i] == k;
                assert(places[i] == k);
            } else {
                assert(places[places.len() - 1] == k);
            }
        }
        assert(stripped_to(items, item, after, places));
    }
}

/// A rotation starts if and only if none is under way and every gatekeeper is a registered worker.
/// It takes the next id, which becomes the counter and the lock, and leaves one message: an order
/// to rotate under this id, which names as many identities as there are gatekeepers, each with the
/// two keys of the worker that is filed under the gatekeeper of the same rank.
///
/// The next id is there as long as the counter is not at its largest value.
pub proof fn law_rotation_names_every_gatekeeper<A, B>(state: RegistryState<A, B>)
    ensures
        ({
            let result = state.rotate_master_key();
            let all_registered = forall|i: int|
                #![trigger state.gatekeepers[i]]
                0 <= i < state.gatekeepers.len() ==> state.workers.contains_key(
                    state.gatekeepers[i],
                );
            &&& result is Ok <==> state.rotation_lock is None && all_registered
            &&& state.rotation_lock is Some ==> result == Err::<RegistryState<A, B>, _>(
                DispatchError::Module(Error::MasterKeyInRotation),
            )
            &&& state.rotation_lock is None && !all_registered ==> result == Err::<
                RegistryState<A, B>,
                _,
            >(DispatchError::Module(Error::WorkerNotFound))
        }),
        state.rotate_master_key() is Ok && state.rotation_counter < u64::MAX ==> {
            let next = state.rotate_master_key()->Ok_0;
            &&& next.rotation_counter == state.rotation_counter + 1
            &&& next.rotation_lock is Some
            &&& next.rotation_lock->Some_0 == state.rotation_counter + 1
            &&& next.pushed.len() == state.pushed.len() + 1
            &&& next.pushed.drop_last() == state.pushed
            &&& match next.pushed.last() {
                Message::GatekeeperLaunch(
                    GatekeeperLaunch::RotateMasterKey { rotation_id, gk_identities },
                ) => {
                    &&& rotation_id == state.rotation_counter + 1
                    &&& gk_identities.len() == state.gatekeepers.len()
                    &&& forall|i: int|
                        #![trigger gk_identities[i]]
                        0 <= i < gk_identities.len() ==> {
                            &&& gk_identities[i].pubkey == state.workers[state.gatekeepers[i]].pubkey
                            &&& gk_identities[i].ecdh_pubkey
                                == state.workers[state.gatekeepers[i]].ecdh_pubkey
                        }
                },
                _ => false,
            }
            &&& next == (RegistryState {
                rotation_counter: next.rotation_counter,
                rotation_lock: next.rotation_lock,
                pushed: next.pushed,
                ..state
            })
        },
{
    if state.rotate_master_key() is Ok {
        assert(state.rotate_master_key()->Ok_0.pushed.drop_last() =~= state.pushed);
    }
}

/// The report of a rotation is accepted from the gatekeepers only, and only under the id of the
/// rotation under way. It installs the key that it names, ends the rotation, tells of the new key,
/// and does nothing else.
pub proof fn law_rotation_report_installs_the_key<A, B>(
    state: RegistryState<A, B>,
    sender: MessageOrigin,
    rotation_id: u64,
    key: MasterPublicKey,
)
    ensures
        ({
            let report = GKRegistryEvent::RotatedMasterPubkey { rotation_id, master_pubkey: key };
            let result = state.gk_message_received(sender, report);
            let from_gatekeepers = sender == MessageOrigin::Gatekeeper;
            let named = state.rotation_lock == Some(rotation_id);
            &&& !from_gatekeepers ==> result == Err::<RegistryState<A, B>, _>(
                DispatchError::Module(Error::InvalidSender),
            )
            &&& from_gatekeepers && !named ==> result == Err::<RegistryState<A, B>, _>(
                DispatchError::Module(Error::InvalidRotatedMasterPubkey),
            )
            &&& from_gatekeepers && named ==> {
                let next = result->Ok_0;
                &&& result is Ok
                &&& next.master_pubkey == Some(key)
                &&& next.rotation_lock is None
                &&& next.pushed == state.pushed.push(
                    Message::GatekeeperLaunch(
                        GatekeeperLaunch::MasterPubkeyRotated { master_pubkey: key },
                    ),
                )
                &&& next == (RegistryState {
                    master_pubkey: next.master_pubkey,
                    rotation_lock: next.rotation_lock,
                    pushed: next.pushed,
                    ..state
                })
            }
        }),
{
}

/// A worker signs with its own key: whatever the registry holds, its message is accepted if and
/// only if it bears sixty-four bytes that are a valid signature under this key.
pub proof fn law_worker_signs_with_its_own_key<A, B>(
    state: RegistryState<A, B>,
    worker: WorkerPublicKey,
    data: Seq<u8>,
    signature: Seq<u8>,
)
    ensures
        ({
            let sender = MessageOrigin::Worker(worker);
            let verdict = state.message_verdict(sender, data, signature);
            &&& state.sender_key(sender) == Ok::<_, DispatchError>(worker)
            &&& verdict is Ok <==> signature.len() == 64 && sr25519_valid(
                signature,
                data,
                worker.0@,
            )
            &&& signature.len() != 64 ==> verdict == Err::<(), _>(
                DispatchError::Module(Error::InvalidSignatureLength),
            )
            &&& signature.len() == 64 && verdict is Err ==> verdict == Err::<(), _>(
                DispatchError::Module(Error::InvalidSignature),
            )
        }),
{
}

/// A contract signs with the key that is kept for contracts under its id, whatever is kept for
/// clusters; a contract without such a key is unknown.
pub proof fn law_contract_signs_with_its_contract_key<A, B>(
    state: RegistryState<A, B>,
    other_clusters: Map<ContractClusterId, WorkerPublicKey>,
    id: ContractId,
    data: Seq<u8>,
    signature: Seq<u8>,
)
    ensures
        ({
            let sender = MessageOrigin::Contract(id);
            let key = state.contract_keys[id];
            let verdict = state.message_verdict(sender, data, signature);
            &&& !state.contract_keys.contains_key(id) ==> verdict == Err::<(), _>(
                DispatchError::Module(Error::UnknownContract),
            ) && state.sender_key(sender) is Err
            &&& state.contract_keys.contains_key(id) ==> {
                &&& state.sender_key(sender) == Ok::<_, DispatchError>(key)
                &&& verdict is Ok <==> signature.len() == 64 && sr25519_valid(
                    signature,
                    data,
                    key.0@,
                )
                &&& signature.len() != 64 ==> verdict == Err::<(), _>(
                    DispatchError::Module(Error::InvalidSignatureLength),
                )
                &&& signature.len() == 64 && verdict is Err ==> verdict == Err::<(), _>(
                    DispatchError::Module(Error::InvalidSignature),
                )
            }
            &&& verdict == (RegistryState {
                cluster_keys: other_clusters,
                ..state
            }).message_verdict(sender, data, signature)
        }),
{
}

/// A cluster signs with the key that is kept for clusters under its id, whatever is kept for
/// contracts; a cluster without such a key is unknown.
pub proof fn law_cluster_signs_with_its_cluster_key<A, B>(
    state: RegistryState<A, B>,
    other_contracts: Map<ContractId, WorkerPublicKey>,
    id: ContractClusterId,
    data: Seq<u8>,
    signature: Seq<u8>,
)
    ensures
        ({
            let sender = MessageOrigin::Cluster(id);
            let key = state.cluster_keys[id];
            let verdict = state.message_verdict(sender, data, signature);
            &&& !state.cluster_keys.contains_key(id) ==> verdict == Err::<(), _>(
                DispatchError::Module(Error::UnknownCluster),
            ) && state.sender_key(sender) is Err
            &&& state.cluster_keys.contains_key(id) ==> {
                &&& state.sender_key(sender) == Ok::<_, DispatchError>(key)
                &&& verdict is Ok <==> signature.len() == 64 && sr25519_valid(
                    signature,
                    data,
                    key.0@,
                )
                &&& signature.len() != 64 ==> verdict == Err::<(), _>(
                    DispatchError::Module(Error::InvalidSignatureLength),
                )
                &&& signature.len() == 64 && verdict is Err ==> verdict == Err::<(), _>(
                    DispatchError::Module(Error::InvalidSignature),
                )
            }
            &&& verdict == (RegistryState {
                contract_keys: other_contracts,
                ..state
            }).message_verdict(sender, data, signature)
        }),
{
}

/// The gatekeepers sign with the master key, and cannot sign before it is there. A sender of any
/// other sort is not heard.
pub proof fn law_gatekeepers_sign_with_the_master_key<A, B>(
    state: RegistryState<A, B>,
    data: Seq<u8>,
    signature: Seq<u8>,
)
    ensures
        ({
            let sender = MessageOrigin::Gatekeeper;
            let key = state.master_pubkey->Some_0;
            let verdict = state.message_verdict(sender, data, signature);
            &&& state.master_pubkey is None ==> verdict == Err::<(), _>(
                DispatchError::Module(Error::MasterKeyUninitialized),
            ) && state.sender_key(sender) is Err
            &&& state.master_pubkey is Some ==> {
                &&& state.sender_key(sender) == Ok::<_, DispatchError>(key)
                &&& verdict is Ok <==> signature.len() == 64 && sr25519_valid(
                    signature,
                    data,
                    key.0@,
                )
                &&& signature.len() != 64 ==> verdict == Err::<(), _>(
                    DispatchError::Module(Error::InvalidSignatureLength),
                )
                &&& signature.len() == 64 && verdict is Err ==> verdict == Err::<(), _>(
                    DispatchError::Module(Error::InvalidSignature),
                )
            }
        }),
        state.message_verdict(MessageOrigin::Other, data, signature) == Err::<(), _>(
            DispatchError::Module(Error::CannotHandleUnknownMessage),
        ),
        state.sender_key(MessageOrigin::Other) is Err,
{
}

/// The score is six times the iterations per whole second. Up to six thousand it is this number
/// itself; above, it is six thousand while the number fits in 32 bits, and in any case it is at most
/// six thousand and otherwise the remainder of the number after division by 2 to the power of 32.
/// A benchmark can be scored if it took a second at least and the number fits in 64 bits.
pub proof fn law_score_counts_iterations_per_six_seconds(
    start_time: u64,
    now: u64,
    iterations: u64,
)
    ensures
        bench_measurable(start_time, now, iterations) <==> {
            &&& now - start_time >= 1000
            &&& iterations as int / ((now - start_time) / 1000) * 6 <= 0xffff_ffff_ffff_ffff
        },
        now - start_time >= 1000 ==> {
            let seconds = (now - start_time) / 1000;
            let rate = iterations as int / seconds * 6;
            let score = bench_score(start_time, now, iterations);
            &&& rate <= 6000 ==> score == rate
            &&& 6000 < rate <= 0xffff_ffff ==> score == 6000
            &&& rate <= 0xffff_ffff_ffff_ffff && rate % 0x1_0000_0000 < 6000 ==> score == rate
                % 0x1_0000_0000
            &&& rate <= 0xffff_ffff_ffff_ffff && rate % 0x1_0000_0000 >= 6000 ==> score == 6000
        },
{
    if now - start_time >= 1000 {
        let seconds = (now - start_time) / 1000;
        lemma_div_is_ordered(0, iterations as int, seconds);
        let rate = iterations as int / seconds * 6;
        if rate <= u64::MAX {
            let wide = rate as u64;
            assert(wide as u32 == wide % 0x1_0000_0000) by (bit_vector);
        }
    }
}

/// A score below the largest one brackets the benchmark: at this pace, and not at the next higher
/// one, the worker needs the iterations that it did for the whole seconds that it took.
pub proof fn law_score_brackets_the_iterations(start_time: u64, now: u64, iterations: u64)
    requires
        now - start_time >= 1000,
        iterations as int / ((now - start_time) / 1000) * 6 <= 6000,
    ensures
        ({
            let seconds = (now - start_time) / 1000;
            let score = bench_score(start_time, now, iterations) as int;
            &&& score % 6 == 0
            &&& seconds * (score / 6) <= iterations < seconds * (score / 6) + seconds
        }),
{
    let seconds = (now - start_time) / 1000;
    lemma_div_is_ordered(0, iterations as int, seconds);
    lemma_fundamental_div_mod(iterations as int, seconds);
    lemma_mod_bound(iterations as int, seconds);
}

/// The milliseconds of a time are the whole ones that its nanoseconds make up, and are capped where
/// they exceed 64 bits.
pub proof fn law_milliseconds_are_whole(time: UnixTime)
    ensures
        1_000_000 * time.millis() <= time.secs * 1_000_000_000 + time.nanos,
        time.secs * 1_000_000_000 + time.nanos < 1_000_000 * time.millis() + 1_000_000,
        time.millis() <= 0xffff_ffff_ffff_ffff ==> time.saturated_millis() == time.millis(),
        time.millis() > 0xffff_ffff_ffff_ffff ==> time.saturated_millis() == 0xffff_ffff_ffff_ffff,
{
}

/// A worker reports a benchmark. A report that starts now or later is refused. Otherwise the score
/// is announced under the key of the worker; and a worker that is registered gets the score and the
/// seconds of the time, and keeps the rest of its record. Nothing else changes.
pub proof fn law_benchmark_report_sets_the_score<A, B>(
    state: RegistryState<A, B>,
    worker: WorkerPublicKey,
    start_time: u64,
    iterations: u64,
    time: UnixTime,
)
    ensures
        ({
            let payload = RegistryEvent::BenchReport { start_time, iterations };
            let result = state.worker_message_received(
                MessageOrigin::Worker(worker),
                payload,
                time,
            );
            let now = time.saturated_millis();
            let next = result->Ok_0;
            let score = bench_score(start_time, now, iterations);
            &&& now <= start_time ==> result == Err::<RegistryState<A, B>, _>(
                DispatchError::Module(Error::InvalidBenchReport),
            )
            &&& now > start_time ==> {
                &&& result is Ok
                &&& next.pushed == state.pushed.push(
                    Message::System(
                        SystemEvent::WorkerEvent(
                            WorkerEventWithKey {
                                pubkey: worker,
                                event: WorkerEvent::BenchScore(score),
                            },
                        ),
                    ),
                )
                &&& next.workers.dom() == state.workers.dom()
                &&& forall|key: WorkerPublicKey|
                    #![trigger next.workers[key]]
                    key != worker && state.workers.contains_key(key) ==> next.workers[key]
                        == state.workers[key]
                &&& state.workers.contains_key(worker) ==> {
                    let before = state.workers[worker];
                    let after = next.workers[worker];
                    &&& after.initial_score == Some(score)
                    &&& after.last_updated == time.secs
                    &&& after.pubkey == before.pubkey
                    &&& after.ecdh_pubkey == before.ecdh_pubkey
                    &&& after.runtime_version == before.runtime_version
                    &&& after.operator == before.operator
                    &&& after.confidence_level == before.confidence_level
                    &&& after.features == before.features
                }
                &&& next == (RegistryState {
                    workers: next.workers,
                    pushed: next.pushed,
                    ..state
                })
            }
        }),
{
    let next = state.bench_report(worker, start_time, iterations, time)->Ok_0;
    if time.saturated_millis() > start_time {
        assert(next.workers.dom() =~= state.workers.dom());
    }
}

/// A gatekeeper, and nobody else, uploads the master key. The first upload sets the key and tells of
/// it; a later one of the same key changes nothing, and of another key is refused.
pub proof fn law_master_key_upload_sets_the_key<A, B>(
    state: RegistryState<A, B>,
    worker: WorkerPublicKey,
    key: MasterPublicKey,
    time: UnixTime,
)
    ensures
        ({
            let payload = RegistryEvent::MasterPubkey { master_pubkey: key };
            let result = state.worker_message_received(
                MessageOrigin::Worker(worker),
                payload,
                time,
            );
            let next = result->Ok_0;
            let entitled = state.gatekeepers.contains(worker);
            &&& !entitled ==> result == Err::<RegistryState<A, B>, _>(
                DispatchError::Module(Error::InvalidGatekeeper),
            )
            &&& entitled && state.master_pubkey == Some(key) ==> result == Ok::<_, DispatchError>(
                state,
            )
            &&& entitled && state.master_pubkey is Some && state.master_pubkey != Some(key)
                ==> result == Err::<RegistryState<A, B>, _>(
                DispatchError::Module(Error::MasterKeyMismatch),
            )
            &&& entitled && state.master_pubkey is None ==> {
                &&& result is Ok
                &&& next.master_pubkey == Some(key)
                &&& next.pushed == state.pushed.push(
                    Message::GatekeeperLaunch(
                        GatekeeperLaunch::MasterPubkeyOnChain { master_pubkey: key },
                    ),
                )
                &&& next == (RegistryState {
                    master_pubkey: next.master_pubkey,
                    pushed: next.pushed,
                    ..state
                })
            }
        }),
{
}

/// Only workers report to the registry: whatever the report, any other sender is refused.
pub proof fn law_only_workers_report<A, B>(
    state: RegistryState<A, B>,
    sender: MessageOrigin,
    payload: RegistryEvent,
    time: UnixTime,
)
    requires
        !(sender is Worker),
    ensures
        state.worker_message_received(sender, payload, time) == Err::<RegistryState<A, B>, _>(
            DispatchError::Module(Error::InvalidSender),
        ),
{
}

/// A worker joins the gatekeepers: not during a rotation, not as a second one before the master key
/// is there, and only if it is registered. It is put at the end of the list, announced on the chain,
/// and announced to the off-chain side with the ECDH key of its record: as the first gatekeeper if
/// the list was empty, and as one more otherwise. One that is a gatekeeper already changes nothing.
///
/// The gatekeepers are counted in 32 bits, so one more is told from the first one while their number
/// fits.
pub proof fn law_gatekeeper_joins_at_the_end<A, B>(
    state: RegistryState<A, B>,
    gatekeeper: WorkerPublicKey,
)
    ensures
        ({
            let result = state.register_gatekeeper(gatekeeper);
            let next = result->Ok_0;
            let rotating = state.rotation_lock is Some;
            let waiting = state.gatekeepers.len() != 0 && state.master_pubkey is None;
            let there = state.gatekeepers.contains(gatekeeper);
            let ecdh_pubkey = state.workers[gatekeeper].ecdh_pubkey;
            &&& rotating ==> result == Err::<RegistryState<A, B>, _>(
                DispatchError::Module(Error::MasterKeyInRotation),
            )
            &&& !rotating && waiting ==> result == Err::<RegistryState<A, B>, _>(
                DispatchError::Module(Error::MasterKeyUninitialized),
            )
            &&& !rotating && !waiting && there ==> result == Ok::<_, DispatchError>(state)
            &&& !rotating && !waiting && !there && !state.workers.contains_key(gatekeeper)
                ==> result == Err::<RegistryState<A, B>, _>(
                DispatchError::Module(Error::WorkerNotFound),
            )
            &&& !rotating && !waiting && !there && state.workers.contains_key(gatekeeper) ==> {
                &&& result is Ok
                &&& next.gatekeepers == state.gatekeepers.push(gatekeeper)
                &&& next.events == state.events.push(
                    Event::GatekeeperAdded { pubkey: gatekeeper },
                )
                &&& state.gatekeepers.len() == 0 ==> next.pushed == state.pushed.push(
                    Message::GatekeeperLaunch(
                        GatekeeperLaunch::FirstGatekeeper { pubkey: gatekeeper, ecdh_pubkey },
                    ),
                )
                &&& 0 < state.gatekeepers.len() < u32::MAX ==> next.pushed == state.pushed.push(
                    Message::GatekeeperChange(
                        GatekeeperChange::Registered { pubkey: gatekeeper, ecdh_pubkey },
                    ),
                )
                &&& next == (RegistryState {
                    gatekeepers: next.gatekeepers,
                    pushed: next.pushed,
                    events: next.events,
                    ..state
                })
            }
        }),
{
}

/// A gatekeeper leaves: not during a rotation, and not if it is the last one. It is taken off the
/// list, on which the others keep their order, and the off-chain side is told. Nothing else changes.
pub proof fn law_gatekeeper_leaves_the_list<A, B>(
    state: RegistryState<A, B>,
    gatekeeper: WorkerPublicKey,
)
    ensures
        ({
            let result = state.unregister_gatekeeper(gatekeeper);
            let next = result->Ok_0;
            let rotating = state.rotation_lock is Some;
            let there = state.gatekeepers.contains(gatekeeper);
            &&& rotating ==> result == Err::<RegistryState<A, B>, _>(
                DispatchError::Module(Error::MasterKeyInRotation),
            )
            &&& !rotating && !there ==> result == Err::<RegistryState<A, B>, _>(
                DispatchError::Module(Error::InvalidGatekeeper),
            )
            &&& !rotating && there && state.gatekeepers.len() == 1 ==> result == Err::<
                RegistryState<A, B>,
                _,
            >(DispatchError::Module(Error::LastGatekeeper))
            &&& !rotating && there && state.gatekeepers.len() > 1 ==> {
                &&& result is Ok
                &&& stripped(state.gatekeepers, gatekeeper, next.gatekeepers)
                &&& next.pushed == state.pushed.push(
                    Message::GatekeeperChange(GatekeeperChange::Unregistered { pubkey: gatekeeper }),
                )
                &&& next == (RegistryState {
                    gatekeepers: next.gatekeepers,
                    pushed: next.pushed,
                    ..state
                })
            }
        }),
{
    lemma_without_strips(state.gatekeepers, gatekeeper);
}

/// The governance tells the gatekeepers to share the history of the master key: one order to them,
/// and nothing else.
pub proof fn law_history_sharing_is_one_order<A, B>(state: RegistryState<A, B>)
    ensures
        ({
            let next = state.master_key_history_sharing_enabled();
            &&& next.pushed == state.pushed.push(
                Message::Gatekeeper(GatekeeperEvent::ShareMasterKeyHistory {  }),
            )
            &&& next == (RegistryState { pushed: next.pushed, ..state })
        }),
{
}

/// The duration of the benchmark becomes the value that is set, and nothing else changes.
pub proof fn law_benchmark_duration_is_set<A, B>(state: RegistryState<A, B>, value: u32)
    ensures
        ({
            let next = state.benchmark_duration_set(value);
            &&& next.benchmark_duration == Some(value)
            &&& next == (RegistryState { benchmark_duration: next.benchmark_duration, ..state })
        }),
{
}

/// A topic gets the key that it is given, every other topic keeps its key, and nothing else changes.
pub proof fn law_topic_gets_its_key<A, B>(
    state: RegistryState<A, B>,
    topic: Seq<u8>,
    pubkey: Seq<u8>,
    other: Seq<u8>,
)
    ensures
        ({
            let next = state.topic_key_set(topic, pubkey);
            &&& next.topic_keys.contains_key(topic)
            &&& next.topic_keys[topic] == pubkey
            &&& other != topic ==> {
                &&& next.topic_keys.contains_key(other) <==> state.topic_keys.contains_key(other)
                &&& state.topic_keys.contains_key(other) ==> next.topic_keys[other]
                    == state.topic_keys[other]
            }
            &&& next == (RegistryState { topic_keys: next.topic_keys, ..state })
        }),
{
}

/// A worker that is registered without attestation is stored under its key with the keys and the
/// operator that were given, in the version and at the time zero, with the confidence level 128,
/// without a score and with the features 1 and 4. It is announced on the chain and to the off-chain
/// side. No other worker is touched, and nothing else changes.
pub proof fn law_forced_worker_is_stored<A, B>(
    state: RegistryState<A, B>,
    pubkey: WorkerPublicKey,
    ecdh_pubkey: EcdhPublicKey,
    operator: Option<A>,
    other: WorkerPublicKey,
)
    ensures
        ({
            let next = state.worker_forced(pubkey, ecdh_pubkey, operator);
            let worker = next.workers[pubkey];
            &&& next.workers.contains_key(pubkey)
            &&& worker.pubkey == pubkey
            &&& worker.ecdh_pubkey == ecdh_pubkey
            &&& worker.operator == operator
            &&& worker.runtime_version == 0
            &&& worker.last_updated == 0
            &&& worker.confidence_level == 128
            &&& worker.initial_score is None
            &&& worker.features == seq![1u32, 4u32]
            &&& other != pubkey ==> {
                &&& next.workers.contains_key(other) <==> state.workers.contains_key(other)
                &&& state.workers.contains_key(other) ==> next.workers[other]
                    == state.workers[other]
            }
            &&& next.pushed == state.pushed.push(
                Message::System(
                    SystemEvent::WorkerEvent(
                        WorkerEventWithKey {
                            pubkey,
                            event: WorkerEvent::Registered(
                                RegisteredWorker { confidence_level: 128 },
                            ),
                        },
                    ),
                ),
            )
            &&& next.events == state.events.push(Event::WorkerAdded { pubkey })
            &&& next == (RegistryState {
                workers: next.workers,
                pushed: next.pushed,
                events: next.events,
                ..state
            })
        }),
{
}

/// A worker whose attestation was accepted registers, unless relay chains are verified and its own
/// is not allowed. Its record holds what it stated, the time and the confidence level of the report,
/// and no score; only a worker that was there keeps the keys of its record. It is announced as new
/// or as updated, the off-chain side learns of its confidence level and is then told to run the
/// benchmark for the duration that is set, or zero. No other worker is touched, and nothing else
/// changes.
pub proof fn law_accepted_worker_is_stored<A, B>(
    state: RegistryState<A, B>,
    report: ConfidentialReport,
    verify_genesis: bool,
    info: WorkerRegistrationInfo<A>,
    now: u64,
    other: WorkerPublicKey,
)
    ensures
        ({
            let result = state.register_worker(Ok(report), verify_genesis, info, now);
            let next = result->Ok_0;
            let pubkey = info.pubkey;
            let worker = next.workers[pubkey];
            let known = state.workers.contains_key(pubkey);
            let allowed = !verify_genesis || state.genesis_allowlist.contains(
                info.genesis_block_hash,
            );
            &&& !allowed ==> result == Err::<RegistryState<A, B>, _>(
                DispatchError::Module(Error::GenesisBlockHashRejected),
            )
            &&& allowed ==> {
                &&& result is Ok
                &&& next.workers.contains_key(pubkey)
                &&& known ==> worker.pubkey == state.workers[pubkey].pubkey
                &&& known ==> worker.ecdh_pubkey == state.workers[pubkey].ecdh_pubkey
                &&& !known ==> worker.pubkey == pubkey
                &&& !known ==> worker.ecdh_pubkey == info.ecdh_pubkey
                &&& worker.runtime_version == info.version
                &&& worker.last_updated == now
                &&& worker.operator == info.operator
                &&& worker.confidence_level == report.confidence_level
                &&& worker.initial_score is None
                &&& worker.features == info.features@
                &&& other != pubkey ==> {
                    &&& next.workers.contains_key(other) <==> state.workers.contains_key(other)
                    &&& state.workers.contains_key(other) ==> next.workers[other]
                        == state.workers[other]
                }
                &&& known ==> next.events == state.events.push(Event::WorkerUpdated { pubkey })
                &&& !known ==> next.events == state.events.push(Event::WorkerAdded { pubkey })
                &&& next.pushed.len() == state.pushed.len() + 2
                &&& next.pushed.take(state.pushed.len() as int) == state.pushed
                &&& next.pushed[state.pushed.len() as int] == Message::<Seq<WorkerIdentity>>::System(
                    SystemEvent::WorkerEvent(
                        WorkerEventWithKey {
                            pubkey,
                            event: WorkerEvent::Registered(
                                RegisteredWorker { confidence_level: report.confidence_level },
                            ),
                        },
                    ),
                )
                &&& match next.pushed.last() {
                    Message::System(SystemEvent::WorkerEvent(told)) => {
                        &&& told.pubkey == pubkey
                        &&& told.event is BenchStart
                        &&& state.benchmark_duration is None ==> told.event->duration == 0
                        &&& state.benchmark_duration is Some ==> told.event->duration
                            == state.benchmark_duration->Some_0
                    },
                    _ => false,
                }
                &&& next == (RegistryState {
                    workers: next.workers,
                    pushed: next.pushed,
                    events: next.events,
                    ..state
                })
            }
        }),
{
    let result = state.register_worker(Ok(report), verify_genesis, info, now);
    if result is Ok {
        let next = result->Ok_0;
        assert(next.pushed.take(state.pushed.len() as int) =~= state.pushed);
    }
}

/// A worker whose attestation is turned down is refused with the error that stands for the reason,
/// whatever it stated: reasons keep their names, but for a wrong hash of the user data, which is a
/// wrong hash of the runtime info.
pub proof fn law_rejected_worker_learns_why<A, B>(
    state: RegistryState<A, B>,
    reason: AttestationError,
    verify_genesis: bool,
    info: WorkerRegistrationInfo<A>,
    now: u64,
)
    ensures
        ({
            let result = state.register_worker(Err(reason), verify_genesis, info, now);
            let error = result->Err_0->Module_0;
            &&& result is Err
            &&& result->Err_0 is Module
            &&& reason is PRuntimeRejected <==> error is PRuntimeRejected
            &&& reason is InvalidIASSigningCert <==> error is InvalidIASSigningCert
            &&& reason is InvalidReport <==> error is InvalidReport
            &&& reason is InvalidQuoteStatus <==> error is InvalidQuoteStatus
            &&& reason is BadIASReport <==> error is BadIASReport
            &&& reason is OutdatedIASReport <==> error is OutdatedIASReport
            &&& reason is UnknownQuoteBodyFormat <==> error is UnknownQuoteBodyFormat
            &&& reason is InvalidUserDataHash <==> error is InvalidRuntimeInfoHash
        }),
{
}

/// A runtime that is not on the allow list is put at its end and dated with the block; one that is
/// on it is refused. Other runtimes keep their dates, and nothing else changes.
pub proof fn law_pruntime_is_appended_and_dated<A, B>(
    state: RegistryState<A, B>,
    pruntime_hash: Seq<u8>,
    now: B,
    other: Seq<u8>,
)
    ensures
        ({
            let result = state.add_pruntime(pruntime_hash, now);
            let next = result->Ok_0;
            let listed = state.pruntime_allowlist.contains(pruntime_hash);
            &&& listed ==> result == Err::<RegistryState<A, B>, _>(
                DispatchError::Module(Error::PRuntimeAlreadyExists),
            )
            &&& !listed ==> {
                &&& result is Ok
                &&& next.pruntime_allowlist == state.pruntime_allowlist.push(pruntime_hash)
                &&& next.pruntime_timestamps.contains_key(pruntime_hash)
                &&& next.pruntime_timestamps[pruntime_hash] == now
                &&& other != pruntime_hash ==> {
                    &&& next.pruntime_timestamps.contains_key(other)
                        <==> state.pruntime_timestamps.contains_key(other)
                    &&& state.pruntime_timestamps.contains_key(other)
                        ==> next.pruntime_timestamps[other] == state.pruntime_timestamps[other]
                }
                &&& next == (RegistryState {
                    pruntime_allowlist: next.pruntime_allowlist,
                    pruntime_timestamps: next.pruntime_timestamps,
                    ..state
                })
            }
        }),
{
}

/// A runtime that is on the allow list is taken off, with its date; one that is not is refused. The
/// other runtimes keep their order and their dates, and nothing else changes.
pub proof fn law_pruntime_is_taken_off<A, B>(
    state: RegistryState<A, B>,
    pruntime_hash: Seq<u8>,
    other: Seq<u8>,
)
    ensures
        ({
            let result = state.remove_pruntime(pruntime_hash);
            let next = result->Ok_0;
            let listed = state.pruntime_allowlist.contains(pruntime_hash);
            &&& !listed ==> result == Err::<RegistryState<A, B>, _>(
                DispatchError::Module(Error::PRuntimeNotFound),
            )
            &&& listed ==> {
                &&& result is Ok
                &&& stripped(state.pruntime_allowlist, pruntime_hash, next.pruntime_allowlist)
                &&& !next.pruntime_timestamps.contains_key(pruntime_hash)
                &&& other != pruntime_hash ==> {
                    &&& next.pruntime_timestamps.contains_key(other)
                        <==> state.pruntime_timestamps.contains_key(other)
                    &&& state.pruntime_timestamps.contains_key(other)
                        ==> next.pruntime_timestamps[other] == state.pruntime_timestamps[other]
                }
                &&& next == (RegistryState {
                    pruntime_allowlist: next.pruntime_allowlist,
                    pruntime_timestamps: next.pruntime_timestamps,
                    ..state
                })
            }
        }),
{
    lemma_without_strips(state.pruntime_allowlist, pruntime_hash);
}

/// A relay chain that is not on the allow list is put at its end, and one that is on it is refused;
/// one that is on it can be taken off, where the others keep their order, and one that is not is
/// refused. Nothing else changes.
pub proof fn law_genesis_is_listed_and_taken_off<A, B>(
    state: RegistryState<A, B>,
    genesis_block_hash: H256,
)
    ensures
        ({
            let added = state.add_genesis(genesis_block_hash);
            let removed = state.remove_genesis(genesis_block_hash);
            let listed = state.genesis_allowlist.contains(genesis_block_hash);
            &&& listed ==> {
                let next = removed->Ok_0;
                &&& added == Err::<RegistryState<A, B>, _>(
                    DispatchError::Module(Error::GenesisBlockHashAlreadyExists),
                )
                &&& removed is Ok
                &&& stripped(state.genesis_allowlist, genesis_block_hash, next.genesis_allowlist)
                &&& next == (RegistryState { genesis_allowlist: next.genesis_allowlist, ..state })
            }
            &&& !listed ==> {
                let next = added->Ok_0;
                &&& removed == Err::<RegistryState<A, B>, _>(
                    DispatchError::Module(Error::GenesisBlockHashNotFound),
                )
                &&& added is Ok
                &&& next.genesis_allowlist == state.genesis_allowlist.push(genesis_block_hash)
                &&& next == (RegistryState { genesis_allowlist: next.genesis_allowlist, ..state })
            }
        }),
{
    lemma_without_strips(state.genesis_allowlist, genesis_block_hash);
}

/// The score of a worker is set if the worker is registered; the rest of its record, the other
/// workers and everything else stay as they were.
pub proof fn law_score_is_set_for_the_worker<A, B>(
    state: RegistryState<A, B>,
    worker: WorkerPublicKey,
    score: Option<u32>,
    other: WorkerPublicKey,
)
    ensures
        ({
            let next = state.score_set(worker, score);
            let before = state.workers[worker];
            let after = next.workers[worker];
            &&& !state.workers.contains_key(worker) ==> next == state
            &&& state.workers.contains_key(worker) ==> {
                &&& next.workers.contains_key(worker)
                &&& after.initial_score == score
                &&& after.pubkey == before.pubkey
                &&& after.ecdh_pubkey == before.ecdh_pubkey
                &&& after.runtime_version == before.runtime_version
                &&& after.last_updated == before.last_updated
                &&& after.operator == before.operator
                &&& after.confidence_level == before.confidence_level
                &&& after.features == before.features
            }
            &&& other != worker ==> {
                &&& next.workers.contains_key(other) <==> state.workers.contains_key(other)
                &&& state.workers.contains_key(other) ==> next.workers[other]
                    == state.workers[other]
            }
            &&& next == (RegistryState { workers: next.workers, ..state })
        }),
{
}

/// Nothing is registered, allowed, set, sent or announced in the empty registry, and no rotation has
/// ever started.
pub proof fn law_empty_holds_nothing<A, B>()
    ensures
        ({
            let empty = RegistryState::<A, B>::empty();
            &&& empty.gatekeepers.len() == 0
            &&& empty.master_pubkey is None
            &&& empty.rotation_counter == 0
            &&& empty.rotation_lock is None
            &&& forall|key: WorkerPublicKey| !empty.workers.contains_key(key)
            &&& forall|id: ContractId| !empty.contract_keys.contains_key(id)
            &&& forall|id: ContractClusterId| !empty.cluster_keys.contains_key(id)
            &&& forall|topic: Seq<u8>| !empty.topic_keys.contains_key(topic)
            &&& empty.benchmark_duration is None
            &&& empty.pruntime_allowlist.len() == 0
            &&& forall|hash: Seq<u8>| !empty.pruntime_timestamps.contains_key(hash)
            &&& empty.genesis_allowlist.len() == 0
            &&& empty.pushed.len() == 0
            &&& empty.queued.len() == 0
            &&& empty.events.len() == 0
        }),
{
}

/// A message that is pushed, a message that is queued and an event that is deposited are each
/// appended to the list of its sort, and to no other.
pub proof fn law_announcements_are_appended<A, B>(
    state: RegistryState<A, B>,
    message: MessageView,
    event: Event,
)
    ensures
        ({
            let pushed = state.push(message);
            let queued = state.queue(message);
            let deposited = state.deposit(event);
            &&& pushed.pushed == state.pushed.push(message)
            &&& pushed == (RegistryState { pushed: pushed.pushed, ..state })
            &&& queued.queued == state.queued.push(message)
            &&& queued == (RegistryState { queued: queued.queued, ..state })
            &&& deposited.events == state.events.push(event)
            &&& deposited == (RegistryState { events: deposited.events, ..state })
        }),
{
}

/// A genesis stores the workers that it lists, one after the other. Each is queued to the off-chain
/// side as registered with the confidence level 128 and then told to run the benchmark for the
/// duration of the genesis, which is the duration from then on. The last entry for a key is the
/// record that stays, as of a worker that is registered without attestation. Keys that are not
/// listed, and everything else, are left as they were. A list of no workers changes nothing.
pub proof fn law_genesis_stores_its_workers<A, B>(
    state: RegistryState<A, B>,
    workers: Seq<(WorkerPublicKey, Vec<u8>, Option<A>)>,
    ecdh_keys: Seq<EcdhPublicKey>,
    duration: u32,
)
    requires
        ecdh_keys.len() == workers.len(),
        forall|i: int|
            0 <= i < workers.len() ==> (#[trigger] ecdh_keys[i]).0@ == workers[i].1@,
    ensures
        ({
            let next = state.genesis_workers(workers, duration);
            let start = state.queued.len() as int;
            &&& next.queued.len() == start + 2 * workers.len()
            &&& next.queued.take(start) == state.queued
            &&& forall|i: int|
                #![trigger workers[i]]
                0 <= i < workers.len() ==> {
                    &&& next.queued[start + 2 * i] == Message::<Seq<WorkerIdentity>>::System(
                        SystemEvent::WorkerEvent(
                            WorkerEventWithKey {
                                pubkey: workers[i].0,
                                event: WorkerEvent::Registered(
                                    RegisteredWorker { confidence_level: 128 },
                                ),
                            },
                        ),
                    )
                    &&& next.queued[start + 2 * i + 1] == Message::<Seq<WorkerIdentity>>::System(
                        SystemEvent::WorkerEvent(
                            WorkerEventWithKey {
                                pubkey: workers[i].0,
                                event: WorkerEvent::BenchStart { duration },
                            },
                        ),
                    )
                }
            &&& workers.len() == 0 ==> next == state
            &&& workers.len() > 0 ==> next.benchmark_duration == Some(duration)
            &&& forall|i: int|
                #![trigger workers[i]]
                0 <= i < workers.len() && (forall|j: int|
                    i < j < workers.len() ==> (#[trigger] workers[j]).0 != workers[i].0) ==> {
                    let worker = next.workers[workers[i].0];
                    &&& next.workers.contains_key(workers[i].0)
                    &&& worker.pubkey == workers[i].0
                    &&& worker.ecdh_pubkey == ecdh_keys[i]
                    &&& worker.operator == workers[i].2
                    &&& worker.runtime_version == 0
                    &&& worker.last_updated == 0
                    &&& worker.confidence_level == 128
                    &&& worker.initial_score is None
                    &&& worker.features == seq![1u32, 4u32]
                }
            &&& forall|key: WorkerPublicKey|
                #![trigger next.workers.contains_key(key)]
                #![trigger next.workers[key]]
                (forall|i: int| 0 <= i < workers.len() ==> (#[trigger] workers[i]).0 != key) ==> {
                    &&& next.workers.contains_key(key) <==> state.workers.contains_key(key)
                    &&& next.workers[key] == state.workers[key]
                }
            &&& next == (RegistryState {
                workers: next.workers,
                queued: next.queued,
                benchmark_duration: next.benchmark_duration,
                ..state
            })
        }),
    decreases workers.len(),
{
    let next = state.genesis_workers(workers, duration);
    let start = state.queued.len() as int;
    if workers.len() == 0 {
        assert(next.queued.take(start) =~= state.queued);
    } else {
        let head = workers.drop_last();
        let last = workers.len() - 1;
        let before = state.genesis_workers(head, duration);
        law_genesis_stores_its_workers(state, head, ecdh_keys.drop_last(), duration);
        assert(ecdh_keys[last].0@ == workers[last].1@);
        let key = ecdh_key(workers[last].1@);
        assert(key.0@ == ecdh_keys[last].0@);
        assert(key.0 =~= ecdh_keys[last].0);
        assert(next.queued.take(start) =~= before.queued.take(start));
        assert forall|i: int| 0 <= i < last implies #[trigger] workers[i] == head[i] by {}
        assert forall|i: int|
            #![trigger workers[i]]
            0 <= i < last && (forall|j: int|
                i < j < workers.len() ==> (#[trigger] workers[j]).0
                    != workers[i].0) implies next.workers[workers[i].0]
            == before.workers[head[i].0] && before.workers.contains_key(head[i].0) && (forall|
            j: int,
        |
            i < j < head.len() ==> (#[trigger] head[j]).0 != head[i].0) by {
            assert(workers[last].0 != workers[i].0);
            assert forall|j: int| i < j < head.len() implies (#[trigger] head[j]).0
                != head[i].0 by {
                assert(workers[j] == head[j]);
            }
            assert(head[i] == workers[i]);
        }
        assert forall|k: WorkerPublicKey|
            (forall|i: int| 0 <= i < workers.len() ==> (#[trigger] workers[i]).0 != k) implies {
            &&& #[trigger] next.workers.contains_key(k) <==> state.workers.contains_key(k)
            &&& next.workers[k] == state.workers[k]
        } by {
            assert(workers[last].0 != k);
            assert forall|i: int| 0 <= i < head.len() implies (#[trigger] head[i]).0 != k by {
                assert(workers[i] == head[i]);
            }
            assert(before.workers.contains_key(k) <==> state.workers.contains_key(k));
        }
    }
}

/// A genesis makes gatekeepers of the registered workers on its list, in the order of the list: one
/// more key on the list that is no worker changes nothing, and one that is a worker is put at the end
/// of the gatekeepers and queued to the off-chain side with the ECDH key of its record, as the first
/// gatekeeper if no key before it was a worker. A list without any key changes nothing.
///
/// The gatekeepers are counted in 32 bits, so one more is told from the first one while their number
/// fits.
pub proof fn law_genesis_appoints_the_workers_it_lists<A, B>(
    state: RegistryState<A, B>,
    list: Seq<WorkerPublicKey>,
    key: WorkerPublicKey,
)
    ensures
        state.genesis_gatekeepers(Seq::empty()) == state,
        ({
            let before = state.genesis_gatekeepers(list);
            let after = state.genesis_gatekeepers(list.push(key));
            let appointed = exists|i: int|
                0 <= i < list.len() && state.workers.contains_key(#[trigger] list[i]);
            let ecdh_pubkey = state.workers[key].ecdh_pubkey;
            &&& !state.workers.contains_key(key) ==> after == before
            &&& state.workers.contains_key(key) && !appointed ==> {
                &&& after.gatekeepers == seq![key]
                &&& after.queued == before.queued.push(
                    Message::GatekeeperLaunch(
                        GatekeeperLaunch::FirstGatekeeper { pubkey: key, ecdh_pubkey },
                    ),
                )
            }
            &&& state.workers.contains_key(key) && appointed ==> {
                &&& after.gatekeepers == before.gatekeepers.push(key)
                &&& list.len() < u32::MAX ==> after.queued == before.queued.push(
                    Message::GatekeeperChange(
                        GatekeeperChange::Registered { pubkey: key, ecdh_pubkey },
                    ),
                )
            }
            &&& after == (RegistryState {
                gatekeepers: after.gatekeepers,
                queued: after.queued,
                ..state
            })
        }),
{
    reveal(Seq::filter);
    let known = |gatekeeper: WorkerPublicKey| state.workers.contains_key(gatekeeper);
    let before = state.genesis_gatekeepers(list);
    let after = state.genesis_gatekeepers(list.push(key));
    let admitted = list.filter(known);
    let appointed = exists|i: int|
        0 <= i < list.len() && state.workers.contains_key(#[trigger] list[i]);
    assert(state.genesis_gatekeepers(Seq::empty()) =~= state);
    assert(list.push(key).drop_last() =~= list);
    list.lemma_filter_len(known);
    if appointed {
        let i = choose|i: int|
            0 <= i < list.len() && state.workers.contains_key(#[trigger] list[i]);
        list.lemma_filter_contains(known, i);
        assert(admitted.contains(list[i]));
        assert(admitted.len() > 0);
    } else if admitted.len() > 0 {
        list.lemma_filter_pred(known, 0);
        assert(admitted.contains(admitted[0]));
        list.lemma_filter_contains_rev(known, admitted[0]);
        let i = choose|i: int| 0 <= i < list.len() && list[i] == admitted[0];
        assert(state.workers.contains_key(list[i]));
        assert(false);
    }
    if state.workers.contains_key(key) {
        assert(list.push(key).filter(known) =~= admitted.push(key));
        assert(after.queued.drop_last() =~= before.queued);
        assert(after.queued =~= before.queued.push(after.queued.last()));
        assert(after.gatekeepers =~= admitted.push(key));
        if !appointed {
            assert(after.gatekeepers =~= seq![key]);
        }
    } else {
        assert(list.push(key).filter(known) =~= admitted);
    }
}

/// A call that took a step succeeded if and only if the step could be taken, and then left the state
/// of the step; a refused call returned the error of the step and left the state as it was.
pub proof fn law_calls_take_their_steps<S>(
    pre: S,
    step: Result<S, DispatchError>,
    post: S,
    result: DispatchResult,
)
    requires
        took(pre, step, post, result),
    ensures
        result is Ok <==> step is Ok,
        step is Ok ==> post == step->Ok_0,
        step is Err ==> result is Err && result->Err_0 == step->Err_0,
        step is Err ==> post == pre,
{
}

/// What the governance agrees to is done, and what it does not agree to is refused as of a bad
/// origin.
pub proof fn law_governance_decides<S>(
    authority: Result<(), BadOrigin>,
    step: Result<S, DispatchError>,
)
    ensures
        authority is Ok ==> governed(authority, step) == step,
        authority is Err ==> governed(authority, step) == Err::<S, _>(DispatchError::BadOrigin),
{
}

/// A governed call asked the governance about its caller. Where the governance agreed, the call took
/// its step, and where it did not, the call was refused as of a bad origin and left no trace.
pub proof fn law_governance_is_asked<T: Config>(
    origin: Origin<T::AccountId>,
    pre: RegistryState<T::AccountId, T::BlockNumber>,
    step: Result<RegistryState<T::AccountId, T::BlockNumber>, DispatchError>,
    post: RegistryState<T::AccountId, T::BlockNumber>,
    result: DispatchResult,
)
    requires
        asked_and_took::<T>(origin, pre, step, post, result),
    ensures
        exists|authority: Result<(), BadOrigin>|
            {
                &&& #[trigger] call_ensures(
                    T::GovernanceOrigin::ensure_origin,
                    (&origin,),
                    authority,
                )
                &&& authority is Err ==> result == Err::<(), _>(DispatchError::BadOrigin) && post
                    == pre
                &&& authority is Ok && step is Ok ==> result is Ok && post == step->Ok_0
                &&& authority is Ok && step is Err ==> result is Err && result->Err_0
                    == step->Err_0 && post == pre
            },
{
}

/// Contracts speak of a registry as it is: each field of the state shows the field of the same
/// meaning, item for item and key for key.
pub proof fn law_registry_is_shown_as_it_is<T: Config>(registry: Pallet<T>)
    ensures
        registry@.gatekeepers == registry.gatekeepers@,
        registry@.master_pubkey == registry.gatekeeper_master_pubkey,
        registry@.rotation_counter == registry.rotation_counter,
        registry@.rotation_lock == registry.master_key_rotation_lock,
        registry@.contract_keys == registry.contract_keys@,
        registry@.cluster_keys == registry.cluster_keys@,
        registry@.benchmark_duration == registry.benchmark_duration,
        registry@.pruntime_timestamps == registry.pruntime_timestamps@,
        registry@.genesis_allowlist == registry.relaychain_genesis_block_hash_allowlist@,
        registry@.events == registry.events@,
        registry@.pruntime_allowlist.len() == registry.pruntime_allowlist@.len(),
        forall|i: int|
            #![trigger registry@.pruntime_allowlist[i]]
            0 <= i < registry.pruntime_allowlist@.len() ==> registry@.pruntime_allowlist[i]
                == registry.pruntime_allowlist@[i]@,
        registry@.topic_keys.dom() == registry.topic_keys@.dom(),
        forall|topic: Seq<u8>|
            #![trigger registry@.topic_keys[topic]]
            registry.topic_keys@.contains_key(topic) ==> registry@.topic_keys[topic]
                == registry.topic_keys@[topic]@,
        registry@.workers.dom() == registry.workers@.dom(),
        forall|key: WorkerPublicKey|
            #![trigger registry@.workers[key]]
            registry.workers@.contains_key(key) ==> {
                let shown = registry@.workers[key];
                let worker = registry.workers@[key];
                &&& shown.pubkey == worker.pubkey
                &&& shown.ecdh_pubkey == worker.ecdh_pubkey
                &&& shown.runtime_version == worker.runtime_version
                &&& shown.last_updated == worker.last_updated
                &&& shown.operator == worker.operator
                &&& shown.confidence_level == worker.confidence_level
                &&& shown.initial_score == worker.initial_score
                &&& shown.features == worker.features@
            },
        registry@.pushed.len() == registry.pushed@.len(),
        forall|i: int|
            #![trigger registry@.pushed[i]]
            0 <= i < registry.pushed@.len() ==> registry@.pushed[i] == registry.pushed@[i]@,
        registry@.queued.len() == registry.queued@.len(),
        forall|i: int|
            #![trigger registry@.queued[i]]
            0 <= i < registry.queued@.len() ==> registry@.queued[i] == registry.queued@[i]@,
{
    assert(registry@.gatekeepers =~= registry.gatekeepers@);
    assert(registry@.genesis_allowlist =~= registry.relaychain_genesis_block_hash_allowlist@);
    assert(registry@.topic_keys.dom() =~= registry.topic_keys@.dom());
    assert(registry@.workers.dom() =~= registry.workers@.dom());
}

/// Contracts speak of a message as it is: of the same sort, about the same keys and numbers, with the
/// same identities in the same order.
pub proof fn law_message_is_shown_as_it_is(message: OutboundMessage)
    ensures
        match message {
            Message::System(event) => message@ == MessageView::System(event),
            Message::GatekeeperChange(change) => message@ == MessageView::GatekeeperChange(change),
            Message::Gatekeeper(order) => message@ == MessageView::Gatekeeper(order),
            Message::GatekeeperLaunch(
                GatekeeperLaunch::FirstGatekeeper { pubkey, ecdh_pubkey },
            ) => message@ == MessageView::GatekeeperLaunch(
                GatekeeperLaunch::FirstGatekeeper { pubkey, ecdh_pubkey },
            ),
            Message::GatekeeperLaunch(
                GatekeeperLaunch::MasterPubkeyOnChain { master_pubkey },
            ) => message@ == MessageView::GatekeeperLaunch(
                GatekeeperLaunch::MasterPubkeyOnChain { master_pubkey },
            ),
            Message::GatekeeperLaunch(
                GatekeeperLaunch::RotateMasterKey { rotation_id, gk_identities },
            ) => message@ == MessageView::GatekeeperLaunch(
                GatekeeperLaunch::RotateMasterKey { rotation_id, gk_identities: gk_identities@ },
            ),
            Message::GatekeeperLaunch(
                GatekeeperLaunch::MasterPubkeyRotated { master_pubkey },
            ) => message@ == MessageView::GatekeeperLaunch(
                GatekeeperLaunch::MasterPubkeyRotated { master_pubkey },
            ),
        },
{
}

/// The message of a worker event names the worker and the event.
pub proof fn law_worker_events_name_the_worker(pubkey: WorkerPublicKey, event: WorkerEvent)
    ensures
        match worker_message(pubkey, event) {
            Message::System(SystemEvent::WorkerEvent(told)) => told.pubkey == pubkey && told.event
                == event,
            _ => false,
        },
{
}

/// What becomes of a signature of a known sender: one that is not sixty-four bytes long is refused
/// for its length, one that is not valid is refused as invalid, and any other is accepted.
pub proof fn law_signature_is_judged(len: nat, valid: bool)
    ensures
        signature_verdict(len, valid) is Ok <==> len == 64 && valid,
        len != 64 ==> signature_verdict(len, valid) == Err::<(), _>(
            DispatchError::Module(Error::InvalidSignatureLength),
        ),
        len == 64 && !valid ==> signature_verdict(len, valid) == Err::<(), _>(
            DispatchError::Module(Error::InvalidSignature),
        ),
{
}

} // verus!
