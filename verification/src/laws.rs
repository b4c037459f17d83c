//! What holds of the registry as a whole.
//!
//! Every law speaks of the transitions of [`crate::model`], which the operations of
//! [`crate::registry::Pallet`] are proved to take.

use crate::attestation::{AttestationError, ConfidentialReport, WorkerRegistrationInfo};
use crate::crypto::sr25519_valid;
use crate::messaging::{
    worker_message, GKRegistryEvent, MessageOrigin, RegistryEvent, WorkerEvent,
};
use crate::model::{
    bench_score, governed, iterations_per_six_seconds, refuse, signature_verdict, took,
    DispatchError, DispatchResult, Error, Event, RegistryState, WorkerView, MAX_SCORE,
};
use crate::primitives::{
    BadOrigin, EcdhPublicKey, MasterPublicKey, UnixTime, WorkerPublicKey, H256,
};
use crate::scale::{
    bytes_encoding, compact_len, law_word_bytes, law_words_follow_one_another, le_bytes,
    lemma_bytes_encoding_peel, lemma_option_encoding_injective, lemma_peel, lemma_word_peel,
    lemma_words_encoding_peel, option_encoding, words, words_encoding, Account,
};
use crate::storage::without;
use vstd::arithmetic::div_mod::lemma_div_is_ordered;
use vstd::prelude::*;

verus! {

/// An operation of the registry, together with what was decided about it elsewhere: what the
/// governance said of the caller, how the attestation was judged, whether the caller was the chain
/// itself, and the time.
pub enum Operation<A, B> {
    SetBenchmarkDuration { authority: Result<(), BadOrigin>, value: u32 },
    ForceRegisterWorker {
        root: bool,
        pubkey: WorkerPublicKey,
        ecdh_pubkey: EcdhPublicKey,
        operator: Option<A>,
    },
    ForceRegisterTopic { root: bool, topic: Seq<u8>, topic_key: Seq<u8> },
    RegisterGatekeeper { authority: Result<(), BadOrigin>, gatekeeper: WorkerPublicKey },
    UnregisterGatekeeper { authority: Result<(), BadOrigin>, gatekeeper: WorkerPublicKey },
    EnableHistorySharing { authority: Result<(), BadOrigin> },
    RotateMasterKey { authority: Result<(), BadOrigin> },
    RegisterWorker {
        verdict: Result<ConfidentialReport, AttestationError>,
        verify_genesis: bool,
        info: WorkerRegistrationInfo<A>,
        now: u64,
    },
    AddPruntime { authority: Result<(), BadOrigin>, pruntime_hash: Seq<u8>, block: B },
    RemovePruntime { authority: Result<(), BadOrigin>, pruntime_hash: Seq<u8> },
    AddGenesis { authority: Result<(), BadOrigin>, genesis_block_hash: H256 },
    RemoveGenesis { authority: Result<(), BadOrigin>, genesis_block_hash: H256 },
    WorkerMessage { sender: MessageOrigin, payload: RegistryEvent, time: UnixTime },
    GatekeeperMessage { sender: MessageOrigin, report: GKRegistryEvent },
}

impl<A, B> Operation<A, B> {
    /// The caller was found not to be entitled to the operation.
    pub open spec fn unentitled(self) -> bool {
        match self {
            Operation::SetBenchmarkDuration { authority, .. } => authority is Err,
            Operation::ForceRegisterWorker { root, .. } => !root,
            Operation::ForceRegisterTopic { root, .. } => !root,
            Operation::RegisterGatekeeper { authority, .. } => authority is Err,
            Operation::UnregisterGatekeeper { authority, .. } => authority is Err,
            Operation::EnableHistorySharing { authority } => authority is Err,
            Operation::RotateMasterKey { authority } => authority is Err,
            Operation::AddPruntime { authority, .. } => authority is Err,
            Operation::RemovePruntime { authority, .. } => authority is Err,
            Operation::AddGenesis { authority, .. } => authority is Err,
            Operation::RemoveGenesis { authority, .. } => authority is Err,
            _ => false,
        }
    }
}

/// A call that only the chain itself may make.
pub open spec fn rooted<S>(root: bool, step: Result<S, DispatchError>) -> Result<S, DispatchError> {
    if root {
        step
    } else {
        Err(DispatchError::BadOrigin)
    }
}

impl<A, B> RegistryState<A, B> {
    /// What an operation does.
    pub open spec fn apply(self, op: Operation<A, B>) -> Result<Self, DispatchError> {
        match op {
            Operation::SetBenchmarkDuration { authority, value } => governed(
                authority,
                Ok(self.benchmark_duration_set(value)),
            ),
            Operation::ForceRegisterWorker { root, pubkey, ecdh_pubkey, operator } => rooted(
                root,
                Ok(self.worker_forced(pubkey, ecdh_pubkey, operator)),
            ),
            Operation::ForceRegisterTopic { root, topic, topic_key } => rooted(
                root,
                Ok(self.topic_key_set(topic, topic_key)),
            ),
            Operation::RegisterGatekeeper { authority, gatekeeper } => governed(
                authority,
                self.register_gatekeeper(gatekeeper),
            ),
            Operation::UnregisterGatekeeper { authority, gatekeeper } => governed(
                authority,
                self.unregister_gatekeeper(gatekeeper),
            ),
            Operation::EnableHistorySharing { authority } => governed(
                authority,
                Ok(self.master_key_history_sharing_enabled()),
            ),
            Operation::RotateMasterKey { authority } => governed(
                authority,
                self.rotate_master_key(),
            ),
            Operation::RegisterWorker {
                verdict,
                verify_genesis,
                info,
                now,
            } => self.register_worker(verdict, verify_genesis, info, now),
            Operation::AddPruntime { authority, pruntime_hash, block } => governed(
                authority,
                self.add_pruntime(pruntime_hash, block),
            ),
            Operation::RemovePruntime { authority, pruntime_hash } => governed(
                authority,
                self.remove_pruntime(pruntime_hash),
            ),
            Operation::AddGenesis { authority, genesis_block_hash } => governed(
                authority,
                self.add_genesis(genesis_block_hash),
            ),
            Operation::RemoveGenesis { authority, genesis_block_hash } => governed(
                authority,
                self.remove_genesis(genesis_block_hash),
            ),
            Operation::WorkerMessage { sender, payload, time } => self.worker_message_received(
                sender,
                payload,
                time,
            ),
            Operation::GatekeeperMessage { sender, report } => self.gk_message_received(
                sender,
                report,
            ),
        }
    }

    /// The state after an operation, whether it succeeded or was refused.
    pub open spec fn after(self, op: Operation<A, B>) -> Self {
        match self.apply(op) {
            Ok(next) => next,
            Err(_) => self,
        }
    }

    /// The state after a history of operations.
    pub open spec fn after_all(self, history: Seq<Operation<A, B>>) -> Self
        decreases history.len(),
    {
        if history.len() == 0 {
            self
        } else {
            self.after_all(history.drop_last()).after(history.last())
        }
    }

    /// Every worker is filed under its own key.
    pub open spec fn workers_filed(self) -> bool {
        forall|key: WorkerPublicKey| #[trigger]
            self.workers.contains_key(key) ==> self.workers[key].pubkey == key
    }

    /// No score is above the largest one.
    pub open spec fn scores_bounded(self) -> bool {
        forall|key: WorkerPublicKey| #[trigger]
            self.workers.contains_key(key) ==> match self.workers[key].initial_score {
                Some(score) => score <= MAX_SCORE,
                None => true,
            }
    }

    /// The allowed runtimes are those with a block from which they are allowed.
    pub open spec fn pruntimes_dated(self) -> bool {
        forall|hash: Seq<u8>| #[trigger]
            self.pruntime_timestamps.contains_key(hash) <==> self.pruntime_allowlist.contains(hash)
    }

    /// What every operation keeps: the lists hold nothing twice, the gatekeepers are registered
    /// workers, the workers are filed under their keys, the allowed runtimes are dated, the scores
    /// are bounded, and the rotation under way is the latest one.
    pub open spec fn wf(self) -> bool {
        &&& self.gatekeepers.no_duplicates()
        &&& self.gatekeepers_known()
        &&& self.workers_filed()
        &&& self.scores_bounded()
        &&& self.pruntime_allowlist.no_duplicates()
        &&& self.pruntimes_dated()
        &&& self.genesis_allowlist.no_duplicates()
        &&& self.rotation_lock matches Some(id) ==> id == self.rotation_counter
    }

    /// A second gatekeeper is there only after the first one uploaded the master key.
    pub open spec fn launched_in_order(self) -> bool {
        self.gatekeepers.len() > 1 ==> self.master_pubkey is Some
    }
}

/// A new item keeps a list without duplicates, and adds just itself.
proof fn lemma_push_new<X>(items: Seq<X>, item: X)
    ensures
        forall|x: X| items.push(item).contains(x) <==> items.contains(x) || x == item,
        items.no_duplicates() && !items.contains(item) ==> items.push(item).no_duplicates(),
{
    let all = items.push(item);
    assert forall|x: X| all.contains(x) <==> items.contains(x) || x == item by {
        if all.contains(x) {
            let i = choose|i: int| 0 <= i < all.len() && all[i] == x;
            if i < items.len() {
                assert(items[i] == x);
            }
        }
        if items.contains(x) {
            let i = choose|i: int| 0 <= i < items.len() && items[i] == x;
            assert(all[i] == x);
        }
        assert(all[all.len() - 1] == item);
    }
}

/// What a filtered list holds.
proof fn lemma_filter_contains<X>(items: Seq<X>, keep: spec_fn(X) -> bool, item: X)
    ensures
        items.filter(keep).contains(item) <==> items.contains(item) && keep(item),
    decreases items.len(),
{
    reveal(Seq::filter);
    if items.len() > 0 {
        let head = items.drop_last();
        lemma_filter_contains(head, keep, item);
        assert(items =~= head.push(items.last()));
        lemma_push_new(head, items.last());
        lemma_push_new(head.filter(keep), items.last());
    }
}

/// A list without duplicates stays so when it is filtered.
proof fn lemma_filter_no_duplicates<X>(items: Seq<X>, keep: spec_fn(X) -> bool)
    requires
        items.no_duplicates(),
    ensures
        items.filter(keep).no_duplicates(),
    decreases items.len(),
{
    reveal(Seq::filter);
    if items.len() > 0 {
        let head = items.drop_last();
        let last = items.last();
        lemma_filter_no_duplicates(head, keep);
        lemma_filter_contains(head, keep, last);
        lemma_push_new(head.filter(keep), last);
        if head.contains(last) {
            let i = choose|i: int| 0 <= i < head.len() && head[i] == last;
            assert(items[i] == items[items.len() - 1]);
        }
    }
}

/// What stands in a list without an item: everything else, and nothing twice if it did not before.
proof fn lemma_without<X>(items: Seq<X>, item: X)
    ensures
        forall|x: X| without(items, item).contains(x) <==> items.contains(x) && x != item,
        items.no_duplicates() ==> without(items, item).no_duplicates(),
        without(items, item).len() <= items.len(),
{
    let keep = |other: X| other != item;
    assert forall|x: X| without(items, item).contains(x) <==> items.contains(x) && x != item by {
        lemma_filter_contains(items, keep, x);
    }
    if items.no_duplicates() {
        lemma_filter_no_duplicates(items, keep);
    }
    items.lemma_filter_len(keep);
}

/// A list without an item that it does not hold is the list itself.
proof fn lemma_without_absent<X>(items: Seq<X>, item: X)
    requires
        !items.contains(item),
    ensures
        without(items, item) == items,
    decreases items.len(),
{
    reveal(Seq::filter);
    if items.len() > 0 {
        let head = items.drop_last();
        assert(items =~= head.push(items.last()));
        lemma_push_new(head, items.last());
        lemma_without_absent(head, item);
    }
}

/// An item that is appended and taken out again leaves no trace.
proof fn lemma_push_without<X>(items: Seq<X>, item: X)
    requires
        !items.contains(item),
    ensures
        without(items.push(item), item) == items,
{
    reveal(Seq::filter);
    lemma_without_absent(items, item);
    assert(items.push(item).drop_last() =~= items);
}

/// A list without duplicates that holds an item and is longer than one still holds something when
/// the item is taken out.
proof fn lemma_without_leaves_some<X>(items: Seq<X>, item: X)
    requires
        items.no_duplicates(),
        items.len() > 1,
    ensures
        without(items, item).len() > 0,
{
    lemma_without(items, item);
    let other = if items[0] == item {
        items[1]
    } else {
        items[0]
    };
    assert(items.contains(other));
    assert(without(items, item).contains(other));
}

/// The empty registry is in order.
pub proof fn law_empty_is_wf<A, B>()
    ensures
        RegistryState::<A, B>::empty().wf(),
        RegistryState::<A, B>::empty().launched_in_order(),
{
}

/// Every operation keeps the registry in order. A rotation needs an id that is left.
pub proof fn law_operations_keep_wf<A, B>(state: RegistryState<A, B>, op: Operation<A, B>)
    requires
        state.wf(),
        op is RotateMasterKey ==> state.rotation_counter < u64::MAX,
    ensures
        state.after(op).wf(),
{
    let next = state.after(op);
    match op {
        Operation::RegisterGatekeeper { authority, gatekeeper } => {
            lemma_push_new(state.gatekeepers, gatekeeper);
        },
        Operation::UnregisterGatekeeper { authority, gatekeeper } => {
            lemma_without(state.gatekeepers, gatekeeper);
            if state.apply(op) is Ok {
                assert forall|i: int|
                    0 <= i < next.gatekeepers.len() implies next.workers.contains_key(
                    #[trigger] next.gatekeepers[i],
                ) by {
                    assert(next.gatekeepers.contains(next.gatekeepers[i]));
                    assert(state.gatekeepers.contains(next.gatekeepers[i]));
                }
            }
        },
        Operation::AddPruntime { authority, pruntime_hash, block } => {
            lemma_push_new(state.pruntime_allowlist, pruntime_hash);
        },
        Operation::RemovePruntime { authority, pruntime_hash } => {
            lemma_without(state.pruntime_allowlist, pruntime_hash);
        },
        Operation::AddGenesis { authority, genesis_block_hash } => {
            lemma_push_new(state.genesis_allowlist, genesis_block_hash);
        },
        Operation::RemoveGenesis { authority, genesis_block_hash } => {
            lemma_without(state.genesis_allowlist, genesis_block_hash);
        },
        _ => {},
    }
}

/// A registry that was in order is in order after any history, as long as the ids of rotations do
/// not run out.
pub proof fn law_history_keeps_wf<A, B>(
    state: RegistryState<A, B>,
    history: Seq<Operation<A, B>>,
)
    requires
        state.wf(),
        state.rotation_counter + history.len() <= u64::MAX,
    ensures
        state.after_all(history).wf(),
        state.rotation_counter <= state.after_all(history).rotation_counter
            <= state.rotation_counter + history.len(),
    decreases history.len(),
{
    if history.len() > 0 {
        law_history_keeps_wf(state, history.drop_last());
        law_operations_keep_wf(state.after_all(history.drop_last()), history.last());
    }
}

/// The workers and gatekeepers of a genesis leave the registry in order, if no gatekeeper is named
/// twice.
pub proof fn law_genesis_keeps_wf<A, B>(
    state: RegistryState<A, B>,
    workers: Seq<(WorkerPublicKey, Vec<u8>, Option<A>)>,
    benchmark_duration: u32,
    gatekeepers: Seq<WorkerPublicKey>,
)
    requires
        state.wf(),
        gatekeepers.no_duplicates(),
    ensures
        state.genesis_workers(workers, benchmark_duration).genesis_gatekeepers(gatekeepers).wf(),
{
    lemma_genesis_workers_keep_wf(state, workers, benchmark_duration);
    let staffed = state.genesis_workers(workers, benchmark_duration);
    let known = |gatekeeper: WorkerPublicKey| staffed.workers.contains_key(gatekeeper);
    let admitted = gatekeepers.filter(known);
    lemma_filter_no_duplicates(gatekeepers, known);
    gatekeepers.lemma_filter_len(known);
    assert forall|i: int| 0 <= i < admitted.len() implies staffed.workers.contains_key(
        #[trigger] admitted[i],
    ) by {
        gatekeepers.lemma_filter_pred(known, i);
    }
}

proof fn lemma_genesis_workers_keep_wf<A, B>(
    state: RegistryState<A, B>,
    workers: Seq<(WorkerPublicKey, Vec<u8>, Option<A>)>,
    benchmark_duration: u32,
)
    requires
        state.wf(),
    ensures
        state.genesis_workers(workers, benchmark_duration).wf(),
    decreases workers.len(),
{
    if workers.len() > 0 {
        lemma_genesis_workers_keep_wf(state, workers.drop_last(), benchmark_duration);
    }
}

/// Once there is a gatekeeper there is always one: whatever is done, the last one stays.
pub proof fn law_a_gatekeeper_stays<A, B>(state: RegistryState<A, B>, op: Operation<A, B>)
    requires
        state.wf(),
        state.gatekeepers.len() > 0,
    ensures
        state.after(op).gatekeepers.len() > 0,
{
    if let Operation::UnregisterGatekeeper { authority, gatekeeper } = op {
        if state.gatekeepers.len() > 1 {
            lemma_without_leaves_some(state.gatekeepers, gatekeeper);
        }
    }
}

/// Only the first gatekeeper joins without a master key: every operation keeps it that a second one
/// is there only when the key is.
pub proof fn law_gatekeepers_launch_in_order<A, B>(
    state: RegistryState<A, B>,
    op: Operation<A, B>,
)
    requires
        state.launched_in_order(),
    ensures
        state.after(op).launched_in_order(),
{
    if let Operation::UnregisterGatekeeper { authority, gatekeeper } = op {
        lemma_without(state.gatekeepers, gatekeeper);
    }
}

/// What only the governance, or only the chain itself, may do is refused to everyone else, whatever
/// the state.
pub proof fn law_callers_are_checked<A, B>(state: RegistryState<A, B>, op: Operation<A, B>)
    requires
        op.unentitled(),
    ensures
        state.apply(op) == Err::<RegistryState<A, B>, _>(DispatchError::BadOrigin),
{
}

/// A refused operation leaves no trace.
pub proof fn law_refusal_leaves_no_trace<A, B>(
    pre: RegistryState<A, B>,
    op: Operation<A, B>,
    post: RegistryState<A, B>,
    result: DispatchResult,
)
    requires
        took(pre, pre.apply(op), post, result),
        result is Err,
    ensures
        post == pre,
{
}

/// During a rotation the gatekeepers do not change and no other rotation starts: such requests are
/// refused, and nothing else touches the gatekeepers.
pub proof fn law_gatekeepers_frozen_during_rotation<A, B>(
    state: RegistryState<A, B>,
    gatekeeper: WorkerPublicKey,
    op: Operation<A, B>,
)
    requires
        state.rotation_lock is Some,
    ensures
        state.register_gatekeeper(gatekeeper) == refuse::<RegistryState<A, B>>(
            Error::MasterKeyInRotation,
        ),
        state.unregister_gatekeeper(gatekeeper) == refuse::<RegistryState<A, B>>(
            Error::MasterKeyInRotation,
        ),
        state.rotate_master_key() == refuse::<RegistryState<A, B>>(Error::MasterKeyInRotation),
        state.after(op).gatekeepers == state.gatekeepers,
{
}

/// A rotation runs from its start to the report of the gatekeepers: the report under its id is
/// accepted, installs the new key, with which the gatekeepers sign from then on, and ends the
/// rotation, so that the same report is refused afterwards; a report under another id is refused.
pub proof fn law_rotation_round_trip<A, B>(
    state: RegistryState<A, B>,
    key: MasterPublicKey,
    other_id: u64,
)
    requires
        state.rotate_master_key() is Ok,
        state.rotation_counter < u64::MAX,
        other_id != state.rotation_counter + 1,
    ensures
        ({
            let rotating = state.rotate_master_key()->Ok_0;
            let id = (state.rotation_counter + 1) as u64;
            let report = GKRegistryEvent::RotatedMasterPubkey {
                rotation_id: id,
                master_pubkey: key,
            };
            let stray = GKRegistryEvent::RotatedMasterPubkey {
                rotation_id: other_id,
                master_pubkey: key,
            };
            let done = rotating.gk_message_received(MessageOrigin::Gatekeeper, report);
            &&& rotating.rotation_lock == Some(id)
            &&& rotating.rotation_counter == id
            &&& rotating.gk_message_received(MessageOrigin::Gatekeeper, stray) == refuse::<
                RegistryState<A, B>,
            >(Error::InvalidRotatedMasterPubkey)
            &&& done is Ok
            &&& done->Ok_0.master_pubkey == Some(key)
            &&& done->Ok_0.rotation_lock is None
            &&& done->Ok_0.sender_key(MessageOrigin::Gatekeeper) == Ok::<_, DispatchError>(key)
            &&& done->Ok_0.gk_message_received(MessageOrigin::Gatekeeper, report) == refuse::<
                RegistryState<A, B>,
            >(Error::InvalidRotatedMasterPubkey)
        }),
{
}

/// The rotation counter always equals the latest rotation id: a rotation gets the next id and
/// leaves it in the counter, and nothing else changes the counter.
pub proof fn law_counter_is_the_latest_rotation_id<A, B>(
    state: RegistryState<A, B>,
    op: Operation<A, B>,
)
    requires
        state.rotation_counter < u64::MAX,
    ensures
        op is RotateMasterKey && state.apply(op) is Ok ==> {
            &&& state.after(op).rotation_counter == state.rotation_counter + 1
            &&& state.after(op).rotation_lock == Some(state.after(op).rotation_counter)
        },
        !(op is RotateMasterKey && state.apply(op) is Ok) ==> state.after(op).rotation_counter
            == state.rotation_counter,
{
}

/// No two rotations have the same id: whatever happens between them, the later one has the larger
/// id.
pub proof fn law_rotation_ids_grow<A, B>(
    state: RegistryState<A, B>,
    history: Seq<Operation<A, B>>,
)
    requires
        state.wf(),
        state.rotate_master_key() is Ok,
        state.rotation_counter + history.len() + 2 <= u64::MAX,
        state.rotate_master_key()->Ok_0.after_all(history).rotate_master_key() is Ok,
    ensures
        ({
            let first = state.rotate_master_key()->Ok_0;
            let second = first.after_all(history).rotate_master_key()->Ok_0;
            first.rotation_lock->Some_0 < second.rotation_lock->Some_0
        }),
{
    let first = state.rotate_master_key()->Ok_0;
    law_operations_keep_wf(state, Operation::RotateMasterKey { authority: Ok(()) });
    law_history_keeps_wf(first, history);
}

/// An id below or at the counter that no rotation is under way for stays so.
proof fn lemma_spent_rotation_id_stays_spent<A, B>(
    state: RegistryState<A, B>,
    spent: u64,
    history: Seq<Operation<A, B>>,
)
    requires
        spent <= state.rotation_counter,
        state.rotation_lock matches Some(id) ==> spent < id,
        state.rotation_counter + history.len() <= u64::MAX,
    ensures
        spent <= state.after_all(history).rotation_counter,
        state.after_all(history).rotation_counter <= state.rotation_counter + history.len(),
        state.after_all(history).rotation_lock matches Some(id) ==> spent < id,
    decreases history.len(),
{
    if history.len() > 0 {
        lemma_spent_rotation_id_stays_spent(state, spent, history.drop_last());
    }
}

/// A rotation is reported once: after its report was accepted, and whatever happened since, every
/// report under its id is refused, whoever sends it and whichever key it names.
pub proof fn law_rotation_is_reported_once<A, B>(
    state: RegistryState<A, B>,
    rotation_id: u64,
    key: MasterPublicKey,
    history: Seq<Operation<A, B>>,
    sender: MessageOrigin,
    later_key: MasterPublicKey,
)
    requires
        state.wf(),
        state.gk_message_received(
            MessageOrigin::Gatekeeper,
            GKRegistryEvent::RotatedMasterPubkey { rotation_id, master_pubkey: key },
        ) is Ok,
        state.rotation_counter + history.len() <= u64::MAX,
    ensures
        ({
            let report = GKRegistryEvent::RotatedMasterPubkey { rotation_id, master_pubkey: key };
            let done = state.gk_message_received(MessageOrigin::Gatekeeper, report)->Ok_0;
            let repeated = GKRegistryEvent::RotatedMasterPubkey {
                rotation_id,
                master_pubkey: later_key,
            };
            done.after_all(history).gk_message_received(sender, repeated) == refuse::<
                RegistryState<A, B>,
            >(
                if sender is Gatekeeper {
                    Error::InvalidRotatedMasterPubkey
                } else {
                    Error::InvalidSender
                },
            )
        }),
{
    let report = GKRegistryEvent::RotatedMasterPubkey { rotation_id, master_pubkey: key };
    let done = state.gk_message_received(MessageOrigin::Gatekeeper, report)->Ok_0;
    lemma_spent_rotation_id_stays_spent(done, rotation_id, history);
}

/// The master key is there for good: once it was uploaded it is never unset, an upload never
/// replaces it, and only a report of a rotation does.
pub proof fn law_master_key_changes_by_rotation_only<A, B>(
    state: RegistryState<A, B>,
    op: Operation<A, B>,
)
    requires
        state.master_pubkey is Some,
    ensures
        state.after(op).master_pubkey is Some,
        !(op is GatekeeperMessage) ==> state.after(op).master_pubkey == state.master_pubkey,
        state.rotation_lock is None ==> state.after(op).master_pubkey == state.master_pubkey,
{
}

/// The first upload of the master key is kept: a repeated upload changes nothing, and an upload of
/// another key is refused.
pub proof fn law_first_master_key_upload_is_kept<A, B>(
    state: RegistryState<A, B>,
    first: WorkerPublicKey,
    second: WorkerPublicKey,
    key: MasterPublicKey,
    other: MasterPublicKey,
)
    requires
        state.master_pubkey is None,
        state.gatekeepers.contains(first),
        state.gatekeepers.contains(second),
        key != other,
    ensures
        ({
            let kept = state.upload_master_key(first, key);
            &&& kept is Ok
            &&& kept->Ok_0.master_pubkey == Some(key)
            &&& kept->Ok_0.upload_master_key(second, key) == kept
            &&& kept->Ok_0.upload_master_key(second, other) == refuse::<RegistryState<A, B>>(
                Error::MasterKeyMismatch,
            )
        }),
{
}

/// An allowed runtime is dated and cannot be allowed again; it can be taken off the list, which
/// leaves the registry as if it had never been allowed, and it cannot be taken off twice.
pub proof fn law_pruntime_added_and_removed<A, B>(
    state: RegistryState<A, B>,
    pruntime_hash: Seq<u8>,
    now: B,
    later: B,
)
    requires
        state.wf(),
        !state.pruntime_allowlist.contains(pruntime_hash),
    ensures
        ({
            let added = state.add_pruntime(pruntime_hash, now);
            &&& added is Ok
            &&& added->Ok_0.pruntime_allowlist.contains(pruntime_hash)
            &&& added->Ok_0.pruntime_timestamps[pruntime_hash] == now
            &&& added->Ok_0.add_pruntime(pruntime_hash, later) == refuse::<RegistryState<A, B>>(
                Error::PRuntimeAlreadyExists,
            )
            &&& added->Ok_0.remove_pruntime(pruntime_hash) == Ok::<_, DispatchError>(state)
        }),
        state.remove_pruntime(pruntime_hash) == refuse::<RegistryState<A, B>>(
            Error::PRuntimeNotFound,
        ),
{
    lemma_push_new(state.pruntime_allowlist, pruntime_hash);
    lemma_push_without(state.pruntime_allowlist, pruntime_hash);
    let added = state.add_pruntime(pruntime_hash, now)->Ok_0;
    assert(!state.pruntime_timestamps.contains_key(pruntime_hash));
    assert(added.pruntime_timestamps.remove(pruntime_hash) =~= state.pruntime_timestamps);
    assert(added.remove_pruntime(pruntime_hash)->Ok_0 =~= state);
}

/// A runtime that is taken off the list is off it, and can be allowed again.
pub proof fn law_removed_pruntime_is_gone<A, B>(
    state: RegistryState<A, B>,
    pruntime_hash: Seq<u8>,
    now: B,
)
    requires
        state.pruntime_allowlist.contains(pruntime_hash),
    ensures
        ({
            let removed = state.remove_pruntime(pruntime_hash);
            &&& removed is Ok
            &&& !removed->Ok_0.pruntime_allowlist.contains(pruntime_hash)
            &&& !removed->Ok_0.pruntime_timestamps.contains_key(pruntime_hash)
            &&& removed->Ok_0.remove_pruntime(pruntime_hash) == refuse::<RegistryState<A, B>>(
                Error::PRuntimeNotFound,
            )
            &&& removed->Ok_0.add_pruntime(pruntime_hash, now) is Ok
        }),
{
    lemma_without(state.pruntime_allowlist, pruntime_hash);
}

/// An allowed relay chain cannot be allowed again; it can be taken off the list, which leaves the
/// registry as if it had never been allowed, and it cannot be taken off twice.
pub proof fn law_genesis_added_and_removed<A, B>(
    state: RegistryState<A, B>,
    genesis_block_hash: H256,
)
    requires
        !state.genesis_allowlist.contains(genesis_block_hash),
    ensures
        ({
            let added = state.add_genesis(genesis_block_hash);
            &&& added is Ok
            &&& added->Ok_0.genesis_allowlist.contains(genesis_block_hash)
            &&& added->Ok_0.add_genesis(genesis_block_hash) == refuse::<RegistryState<A, B>>(
                Error::GenesisBlockHashAlreadyExists,
            )
            &&& added->Ok_0.remove_genesis(genesis_block_hash) == Ok::<_, DispatchError>(state)
        }),
        state.remove_genesis(genesis_block_hash) == refuse::<RegistryState<A, B>>(
            Error::GenesisBlockHashNotFound,
        ),
{
    lemma_push_new(state.genesis_allowlist, genesis_block_hash);
    lemma_push_without(state.genesis_allowlist, genesis_block_hash);
}

/// A relay chain that is taken off the list is off it, and can be allowed again.
pub proof fn law_removed_genesis_is_gone<A, B>(
    state: RegistryState<A, B>,
    genesis_block_hash: H256,
)
    requires
        state.genesis_allowlist.contains(genesis_block_hash),
    ensures
        ({
            let removed = state.remove_genesis(genesis_block_hash);
            &&& removed is Ok
            &&& !removed->Ok_0.genesis_allowlist.contains(genesis_block_hash)
            &&& removed->Ok_0.remove_genesis(genesis_block_hash) == refuse::<RegistryState<A, B>>(
                Error::GenesisBlockHashNotFound,
            )
            &&& removed->Ok_0.add_genesis(genesis_block_hash) is Ok
        }),
{
    lemma_without(state.genesis_allowlist, genesis_block_hash);
}

/// A gatekeeper that joins others is announced, and can leave again, which leaves the list as it
/// was; to join twice changes nothing.
pub proof fn law_gatekeeper_joins_and_leaves<A, B>(
    state: RegistryState<A, B>,
    gatekeeper: WorkerPublicKey,
)
    requires
        state.gatekeepers.len() > 0,
        !state.gatekeepers.contains(gatekeeper),
        state.register_gatekeeper(gatekeeper) is Ok,
    ensures
        ({
            let joined = state.register_gatekeeper(gatekeeper)->Ok_0;
            let again = joined.register_gatekeeper(gatekeeper);
            let left = joined.unregister_gatekeeper(gatekeeper);
            &&& joined.gatekeepers == state.gatekeepers.push(gatekeeper)
            &&& joined.events == state.events.push(Event::GatekeeperAdded { pubkey: gatekeeper })
            &&& again == Ok::<_, DispatchError>(joined)
            &&& left is Ok
            &&& left->Ok_0.gatekeepers == state.gatekeepers
        }),
{
    lemma_push_new(state.gatekeepers, gatekeeper);
    lemma_push_without(state.gatekeepers, gatekeeper);
}

/// A worker that registers is in the registry with what it stated; a worker that was there keeps
/// its ECDH key. It has no score, whether or not it was there, and the last message tells it to run
/// a benchmark. No other worker is touched.
pub proof fn law_registration_is_recorded<A, B>(
    state: RegistryState<A, B>,
    report: ConfidentialReport,
    verify_genesis: bool,
    info: WorkerRegistrationInfo<A>,
    now: u64,
)
    requires
        state.wf(),
        verify_genesis ==> state.genesis_allowlist.contains(info.genesis_block_hash),
    ensures
        ({
            let next = state.register_worker(Ok(report), verify_genesis, info, now);
            let worker = next->Ok_0.workers[info.pubkey];
            &&& next is Ok
            &&& next->Ok_0.workers.contains_key(info.pubkey)
            &&& worker.pubkey == info.pubkey
            &&& worker.operator == info.operator
            &&& worker.runtime_version == info.version
            &&& worker.last_updated == now
            &&& worker.confidence_level == report.confidence_level
            &&& worker.initial_score is None
            &&& worker.features == info.features@
            &&& worker.ecdh_pubkey == if state.workers.contains_key(info.pubkey) {
                state.workers[info.pubkey].ecdh_pubkey
            } else {
                info.ecdh_pubkey
            }
            &&& next->Ok_0.workers.remove(info.pubkey) == state.workers.remove(info.pubkey)
            &&& next->Ok_0.pushed.last() == worker_message(
                info.pubkey,
                WorkerEvent::BenchStart {
                    duration: match state.benchmark_duration {
                        Some(set) => set,
                        None => 0,
                    },
                },
            )
        }),
{
    let next = state.register_worker(Ok(report), verify_genesis, info, now)->Ok_0;
    assert(next.workers.remove(info.pubkey) =~= state.workers.remove(info.pubkey));
}

/// Where relay chains are verified, a worker of a chain that is not allowed does not register,
/// however its attestation is judged; and a worker whose attestation is turned down never does.
pub proof fn law_registration_is_guarded<A, B>(
    state: RegistryState<A, B>,
    report: Result<ConfidentialReport, AttestationError>,
    verify_genesis: bool,
    info: WorkerRegistrationInfo<A>,
    now: u64,
)
    requires
        report is Err || verify_genesis && !state.genesis_allowlist.contains(
            info.genesis_block_hash,
        ),
    ensures
        state.register_worker(report, verify_genesis, info, now) is Err,
{
}

/// A benchmark of a registered worker is recorded: the worker gets the score and the time of the
/// report in seconds, nobody else is touched, and the score is announced.
pub proof fn law_benchmark_is_recorded<A, B>(
    state: RegistryState<A, B>,
    worker: WorkerPublicKey,
    start_time: u64,
    iterations: u64,
    now: UnixTime,
)
    requires
        state.workers.contains_key(worker),
        start_time < now.saturated_millis(),
    ensures
        ({
            let next = state.bench_report(worker, start_time, iterations, now);
            let score = bench_score(start_time, now.saturated_millis(), iterations);
            &&& next is Ok
            &&& score <= MAX_SCORE
            &&& next->Ok_0.workers[worker] == (WorkerView {
                initial_score: Some(score),
                last_updated: now.secs,
                ..state.workers[worker]
            })
            &&& next->Ok_0.workers.remove(worker) == state.workers.remove(worker)
            &&& next->Ok_0.pushed == state.pushed.push(
                worker_message(worker, WorkerEvent::BenchScore(score)),
            )
        }),
{
    let next = state.bench_report(worker, start_time, iterations, now)->Ok_0;
    assert(next.workers.remove(worker) =~= state.workers.remove(worker));
}

/// While the iterations per six seconds fit in 32 bits, more iterations in the same time never earn
/// a lower score, and every score is a multiple of six.
pub proof fn law_more_iterations_never_lower_the_score(
    start_time: u64,
    now: u64,
    fewer: u64,
    more: u64,
)
    requires
        now - start_time >= 1000,
        fewer <= more,
        iterations_per_six_seconds(start_time, now, more) <= u32::MAX,
    ensures
        bench_score(start_time, now, fewer) <= bench_score(start_time, now, more),
        bench_score(start_time, now, fewer) % 6 == 0,
        bench_score(start_time, now, more) % 6 == 0,
{
    let seconds = (now - start_time) / 1000;
    lemma_div_is_ordered(0, fewer as int, seconds);
    lemma_div_is_ordered(fewer as int, more as int, seconds);
}

/// A message is accepted if and only if its sender has a key and the message bears a signature of
/// sixty-four bytes that is valid under this key.
pub proof fn law_accepted_messages_are_signed<A, B>(
    state: RegistryState<A, B>,
    sender: MessageOrigin,
    data: Seq<u8>,
    signature: Seq<u8>,
)
    ensures
        state.message_verdict(sender, data, signature) is Ok <==> {
            &&& state.sender_key(sender) is Ok
            &&& signature.len() == 64
            &&& sr25519_valid(signature, data, state.sender_key(sender)->Ok_0.0@)
        },
{
}

/// Once a rotation is reported, messages of the gatekeepers are checked under the new key and no
/// other.
pub proof fn law_rotated_key_checks_messages<A, B>(
    state: RegistryState<A, B>,
    rotation_id: u64,
    key: MasterPublicKey,
    data: Seq<u8>,
    signature: Seq<u8>,
)
    requires
        state.rotation_lock == Some(rotation_id),
    ensures
        ({
            let report = GKRegistryEvent::RotatedMasterPubkey { rotation_id, master_pubkey: key };
            let done = state.gk_message_received(MessageOrigin::Gatekeeper, report);
            &&& done is Ok
            &&& done->Ok_0.message_verdict(MessageOrigin::Gatekeeper, data, signature)
                == signature_verdict(signature.len(), sr25519_valid(signature, data, key.0@))
        }),
{
}

/// Workers only ever join: no operation forgets one.
pub proof fn law_workers_are_kept<A, B>(
    state: RegistryState<A, B>,
    op: Operation<A, B>,
    worker: WorkerPublicKey,
)
    requires
        state.workers.contains_key(worker),
    ensures
        state.after(op).workers.contains_key(worker),
{
}

/// What was sent and announced stays so: messages and events are only ever appended.
pub proof fn law_announcements_are_kept<A, B>(state: RegistryState<A, B>, op: Operation<A, B>)
    ensures
        state.pushed.is_prefix_of(state.after(op).pushed),
        state.queued == state.after(op).queued,
        state.events.is_prefix_of(state.after(op).events),
{
}

/// The keys of contracts and clusters are for others to set: no operation touches them.
pub proof fn law_contract_keys_are_untouched<A, B>(state: RegistryState<A, B>, op: Operation<A, B>)
    ensures
        state.after(op).contract_keys == state.contract_keys,
        state.after(op).cluster_keys == state.cluster_keys,
{
}

/// A genesis of an empty registry registers just the workers it lists, and makes gatekeepers of
/// those keys on its list that are workers.
pub proof fn law_genesis_registers_what_it_lists<A, B>(
    workers: Seq<(WorkerPublicKey, Vec<u8>, Option<A>)>,
    benchmark_duration: u32,
    gatekeepers: Seq<WorkerPublicKey>,
    key: WorkerPublicKey,
)
    ensures
        ({
            let built = RegistryState::<A, B>::empty().genesis_workers(
                workers,
                benchmark_duration,
            ).genesis_gatekeepers(gatekeepers);
            let listed = exists|i: int|
                0 <= i < workers.len() && (#[trigger] workers[i]).0 == key;
            &&& built.workers.contains_key(key) <==> listed
            &&& built.gatekeepers.contains(key) <==> listed && gatekeepers.contains(key)
            &&& built.benchmark_duration == if workers.len() > 0 {
                Some(benchmark_duration)
            } else {
                None
            }
        }),
{
    let empty = RegistryState::<A, B>::empty();
    let staffed = empty.genesis_workers(workers, benchmark_duration);
    lemma_genesis_workers_listed(empty, workers, benchmark_duration, key);
    let known = |gatekeeper: WorkerPublicKey| staffed.workers.contains_key(gatekeeper);
    lemma_filter_contains(gatekeepers, known, key);
    assert(staffed.gatekeepers =~= Seq::empty());
    assert(gatekeepers.filter(known).len() == 0 ==> gatekeepers.filter(known) =~= Seq::empty());
}

proof fn lemma_genesis_workers_listed<A, B>(
    state: RegistryState<A, B>,
    workers: Seq<(WorkerPublicKey, Vec<u8>, Option<A>)>,
    benchmark_duration: u32,
    key: WorkerPublicKey,
)
    ensures
        ({
            let staffed = state.genesis_workers(workers, benchmark_duration);
            &&& staffed.workers.contains_key(key) <==> state.workers.contains_key(key) || exists|
                i: int,
            |
                0 <= i < workers.len() && (#[trigger] workers[i]).0 == key
            &&& staffed.gatekeepers == state.gatekeepers
            &&& staffed.benchmark_duration == if workers.len() > 0 {
                Some(benchmark_duration)
            } else {
                state.benchmark_duration
            }
        }),
    decreases workers.len(),
{
    if workers.len() > 0 {
        let head = workers.drop_last();
        lemma_genesis_workers_listed(state, head, benchmark_duration, key);
        if exists|i: int| 0 <= i < head.len() && (#[trigger] head[i]).0 == key {
            let i = choose|i: int| 0 <= i < head.len() && (#[trigger] head[i]).0 == key;
            assert(workers[i].0 == key);
        }
        if exists|i: int| 0 <= i < workers.len() && (#[trigger] workers[i]).0 == key {
            let i = choose|i: int| 0 <= i < workers.len() && (#[trigger] workers[i]).0 == key;
            if i < head.len() {
                assert(head[i].0 == key);
            } else {
                assert(workers.last().0 == key);
            }
        }
        assert(workers[workers.len() - 1] == workers.last());
    }
}

/// A registry that is in order can always start a rotation, unless one is under way.
pub proof fn law_rotation_is_possible<A, B>(state: RegistryState<A, B>)
    requires
        state.wf(),
        state.rotation_lock is None,
    ensures
        state.rotate_master_key() is Ok,
{
}

/// The encoding that a worker attests holds what the worker states byte for byte, in this order: the
/// version in four bytes, the lowest one first; the length of the machine id and its bytes; the
/// thirty-two bytes each of the identity key, of the ECDH key and of the genesis block hash; the
/// number of features and four bytes for each of them; and a byte that tells whether there is an
/// operator, with the encoding of the operator behind it.
pub proof fn law_encoding_lays_out_the_fields<A: Account>(info: WorkerRegistrationInfo<A>)
    ensures
        ({
            let bytes = info.encoding();
            let id = compact_len(info.machine_id@.len());
            let count = compact_len(info.features@.len());
            let keys = 4 + id.len() + info.machine_id@.len();
            let features = keys + 96 + count.len();
            let end = features + 4 * info.features@.len();
            &&& bytes[0] + 0x100 * bytes[1] + 0x1_0000 * bytes[2] + 0x100_0000 * bytes[3]
                == info.version
            &&& forall|i: int|
                #![trigger id[i]]
                0 <= i < id.len() ==> bytes[4 + i] == id[i]
            &&& forall|i: int|
                #![trigger info.machine_id@[i]]
                0 <= i < info.machine_id@.len() ==> bytes[4 + id.len() + i] == info.machine_id@[i]
            &&& forall|i: int|
                #![trigger info.pubkey.0@[i]]
                0 <= i < 32 ==> bytes[keys + i] == info.pubkey.0@[i]
            &&& forall|i: int|
                #![trigger info.ecdh_pubkey.0@[i]]
                0 <= i < 32 ==> bytes[keys + 32 + i] == info.ecdh_pubkey.0@[i]
            &&& forall|i: int|
                #![trigger info.genesis_block_hash.0@[i]]
                0 <= i < 32 ==> bytes[keys + 64 + i] == info.genesis_block_hash.0@[i]
            &&& forall|i: int|
                #![trigger count[i]]
                0 <= i < count.len() ==> bytes[keys + 96 + i] == count[i]
            &&& forall|k: int|
                #![trigger info.features@[k]]
                0 <= k < info.features@.len() ==> {
                    let at = features + 4 * k;
                    bytes[at] + 0x100 * bytes[at + 1] + 0x1_0000 * bytes[at + 2] + 0x100_0000
                        * bytes[at + 3] == info.features@[k]
                }
            &&& info.operator is None ==> bytes.len() == end + 1 && bytes[end as int] == 0
            &&& info.operator is Some ==> {
                let operator = info.operator->Some_0.encoding();
                &&& bytes.len() == end + 1 + operator.len()
                &&& bytes[end as int] == 1
                &&& forall|i: int|
                    #![trigger operator[i]]
                    0 <= i < operator.len() ==> bytes[end + 1 + i] == operator[i]
            }
        }),
{
    let bytes = info.encoding();
    let count = compact_len(info.features@.len());
    let keys = 4 + compact_len(info.machine_id@.len()).len() + info.machine_id@.len();
    let features = keys + 96 + count.len();
    law_word_bytes(info.version);
    law_words_follow_one_another(info.features@);
    assert forall|k: int| #![trigger info.features@[k]] 0 <= k < info.features@.len() implies {
        let at = features + 4 * k;
        bytes[at] + 0x100 * bytes[at + 1] + 0x1_0000 * bytes[at + 2] + 0x100_0000 * bytes[at + 3]
            == info.features@[k]
    } by {
        let word = le_bytes(info.features@[k] as nat, 4);
        law_word_bytes(info.features@[k]);
        assert forall|j: int| 0 <= j < 4 implies bytes[features + 4 * k + j] == #[trigger] word[j] by {
            assert(words(info.features@)[4 * k + j] == word[j]);
        }
        assert(bytes[features + 4 * k] == word[0]);
        assert(bytes[features + 4 * k + 1] == word[1]);
        assert(bytes[features + 4 * k + 2] == word[2]);
        assert(bytes[features + 4 * k + 3] == word[3]);
    }
}

/// The encoding that a worker attests tells everything it states of itself: two statements with the
/// same encoding are the same, so the attested hash vouches for every field.
pub proof fn law_encoding_is_faithful<A: Account>(
    a: WorkerRegistrationInfo<A>,
    b: WorkerRegistrationInfo<A>,
)
    requires
        a.encodable(),
        b.encodable(),
        a.encoding() == b.encoding(),
    ensures
        a.version == b.version,
        a.machine_id@ == b.machine_id@,
        a.pubkey == b.pubkey,
        a.ecdh_pubkey == b.ecdh_pubkey,
        a.genesis_block_hash == b.genesis_block_hash,
        a.features@ == b.features@,
        a.operator == b.operator,
{
    let a6 = option_encoding(a.operator);
    let b6 = option_encoding(b.operator);
    let a5 = words_encoding(a.features@) + a6;
    let b5 = words_encoding(b.features@) + b6;
    let a4 = a.genesis_block_hash.0@ + a5;
    let b4 = b.genesis_block_hash.0@ + b5;
    let a3 = a.ecdh_pubkey.0@ + a4;
    let b3 = b.ecdh_pubkey.0@ + b4;
    let a2 = a.pubkey.0@ + a3;
    let b2 = b.pubkey.0@ + b3;
    let a1 = bytes_encoding(a.machine_id@) + a2;
    let b1 = bytes_encoding(b.machine_id@) + b2;
    assert(a.encoding() =~= le_bytes(a.version as nat, 4) + a1);
    assert(b.encoding() =~= le_bytes(b.version as nat, 4) + b1);
    lemma_word_peel(a.version, a1, b.version, b1);
    lemma_bytes_encoding_peel(a.machine_id@, a2, b.machine_id@, b2);
    lemma_peel(a.pubkey.0@, a3, b.pubkey.0@, b3);
    lemma_peel(a.ecdh_pubkey.0@, a4, b.ecdh_pubkey.0@, b4);
    lemma_peel(a.genesis_block_hash.0@, a5, b.genesis_block_hash.0@, b5);
    lemma_words_encoding_peel(a.features@, a6, b.features@, b6);
    lemma_option_encoding_injective(a.operator, b.operator);
    assert(a.pubkey.0 =~= b.pubkey.0);
    assert(a.ecdh_pubkey.0 =~= b.ecdh_pubkey.0);
    assert(a.genesis_block_hash.0 =~= b.genesis_block_hash.0);
}

} // verus!
