//! The messages that the registry takes in and sends out.

use crate::primitives::{
    ContractClusterId, ContractId, EcdhPublicKey, MasterPublicKey, WorkerPublicKey,
};
use vstd::prelude::*;

verus! {

/// Who sent a message.
#[derive(Clone, Copy, Debug)]
pub enum MessageOrigin {
    Worker(WorkerPublicKey),
    Cluster(ContractClusterId),
    Contract(ContractId),
    /// The gatekeepers, who sign with the master key.
    Gatekeeper,
    /// A sender whose key the registry does not keep, such as a pallet or an account.
    Other,
}

impl MessageOrigin {
    pub fn is_gatekeeper(&self) -> (r: bool)
        ensures
            r == (*self is Gatekeeper),
    {
        matches!(self, MessageOrigin::Gatekeeper)
    }
}

/// A message with the signature of its sender.
#[derive(Debug)]
pub struct SignedMessage {
    pub sender: MessageOrigin,
    /// The bytes that the sender signed.
    pub data_be_signed: Vec<u8>,
    pub signature: Vec<u8>,
}

/// A message whose signature was verified and whose payload was decoded.
#[derive(Debug)]
pub struct DecodedMessage<Payload> {
    pub sender: MessageOrigin,
    pub payload: Payload,
}

/// What a worker reports to the registry.
#[derive(Clone, Copy, Debug)]
pub enum RegistryEvent {
    BenchReport { start_time: u64, iterations: u64 },
    /// Only used for the first upload of the master public key. The sender is a worker, since
    /// there is no master public key to sign with yet.
    MasterPubkey { master_pubkey: MasterPublicKey },
}

/// What the gatekeepers report to the registry.
#[derive(Clone, Copy, Debug)]
pub enum GKRegistryEvent {
    RotatedMasterPubkey { rotation_id: u64, master_pubkey: MasterPublicKey },
}

/// The bytes of a text of ASCII characters.
pub open spec fn ascii(text: Seq<char>) -> Seq<u8> {
    text.map_values(|c: char| c as u8)
}

/// A text of ASCII characters has one byte for each of them, its code.
pub proof fn law_ascii_is_the_codes(text: Seq<char>)
    ensures
        ascii(text).len() == text.len(),
        forall|i: int|
            #![trigger ascii(text)[i]]
            0 <= i < text.len() ==> ascii(text)[i] == text[i] as u8,
{
}

impl RegistryEvent {
    /// The topic to which these reports are sent.
    pub fn topic() -> (r: Vec<u8>)
        ensures
            r@ == ascii("^phala/registry/event"@),
    {
        proof {
            reveal_strlit("^phala/registry/event");
            assert("^phala/registry/event".is_ascii());
        }
        let topic = "^phala/registry/event".as_bytes_vec();
        assert(topic@ =~= ascii("^phala/registry/event"@));
        topic
    }
}

impl GKRegistryEvent {
    /// The topic to which these reports are sent.
    pub fn topic() -> (r: Vec<u8>)
        ensures
            r@ == ascii("^phala/registry/gk_event"@),
    {
        proof {
            reveal_strlit("^phala/registry/gk_event");
            assert("^phala/registry/gk_event".is_ascii());
        }
        let topic = "^phala/registry/gk_event".as_bytes_vec();
        assert(topic@ =~= ascii("^phala/registry/gk_event"@));
        topic
    }
}

/// What the system tells of a registered worker.
#[derive(Clone, Copy, Debug)]
pub struct RegisteredWorker {
    pub confidence_level: u8,
}

/// An event in the life of a worker.
#[derive(Clone, Copy, Debug)]
pub enum WorkerEvent {
    Registered(RegisteredWorker),
    /// The worker is to run a benchmark for so many blocks.
    BenchStart { duration: u32 },
    BenchScore(u32),
}

/// A worker event and the worker that it is about.
#[derive(Clone, Copy, Debug)]
pub struct WorkerEventWithKey {
    pub pubkey: WorkerPublicKey,
    pub event: WorkerEvent,
}

#[derive(Clone, Copy, Debug)]
pub enum SystemEvent {
    WorkerEvent(WorkerEventWithKey),
}

/// The two public keys of a worker.
#[derive(Clone, Copy, Debug)]
pub struct WorkerIdentity {
    pub pubkey: WorkerPublicKey,
    pub ecdh_pubkey: EcdhPublicKey,
}

/// The launch of the gatekeepers and of their master key. The list of identities is a vector in
/// what is sent, and a sequence in what is said about it.
#[derive(Debug)]
pub enum GatekeeperLaunch<Identities> {
    FirstGatekeeper { pubkey: WorkerPublicKey, ecdh_pubkey: EcdhPublicKey },
    MasterPubkeyOnChain { master_pubkey: MasterPublicKey },
    RotateMasterKey { rotation_id: u64, gk_identities: Identities },
    MasterPubkeyRotated { master_pubkey: MasterPublicKey },
}

/// A change among the gatekeepers.
#[derive(Clone, Copy, Debug)]
pub enum GatekeeperChange {
    Registered { pubkey: WorkerPublicKey, ecdh_pubkey: EcdhPublicKey },
    Unregistered { pubkey: WorkerPublicKey },
}

/// An order to all gatekeepers.
#[derive(Clone, Copy, Debug)]
pub enum GatekeeperEvent {
    ShareMasterKeyHistory {},
}

/// A message of the registry to the off-chain side.
#[derive(Debug)]
pub enum Message<Identities> {
    System(SystemEvent),
    GatekeeperLaunch(GatekeeperLaunch<Identities>),
    GatekeeperChange(GatekeeperChange),
    Gatekeeper(GatekeeperEvent),
}

/// A message as it is sent.
pub type OutboundMessage = Message<Vec<WorkerIdentity>>;

/// A message as it is spoken of.
pub type MessageView = Message<Seq<WorkerIdentity>>;

impl View for Message<Vec<WorkerIdentity>> {
    type V = MessageView;

    open spec fn view(&self) -> MessageView {
        match *self {
            Message::System(event) => Message::System(event),
            Message::GatekeeperLaunch(launch) => Message::GatekeeperLaunch(
                match launch {
                    GatekeeperLaunch::FirstGatekeeper {
                        pubkey,
                        ecdh_pubkey,
                    } => GatekeeperLaunch::FirstGatekeeper { pubkey, ecdh_pubkey },
                    GatekeeperLaunch::MasterPubkeyOnChain {
                        master_pubkey,
                    } => GatekeeperLaunch::MasterPubkeyOnChain { master_pubkey },
                    GatekeeperLaunch::RotateMasterKey {
                        rotation_id,
                        gk_identities,
                    } => GatekeeperLaunch::RotateMasterKey {
                        rotation_id,
                        gk_identities: gk_identities@,
                    },
                    GatekeeperLaunch::MasterPubkeyRotated {
                        master_pubkey,
                    } => GatekeeperLaunch::MasterPubkeyRotated { master_pubkey },
                },
            ),
            Message::GatekeeperChange(change) => Message::GatekeeperChange(change),
            Message::Gatekeeper(event) => Message::Gatekeeper(event),
        }
    }
}

/// The message that tells of a worker event.
pub open spec fn worker_message(pubkey: WorkerPublicKey, event: WorkerEvent) -> MessageView {
    Message::System(SystemEvent::WorkerEvent(WorkerEventWithKey { pubkey, event }))
}

pub fn new_worker_event(pubkey: WorkerPublicKey, event: WorkerEvent) -> (r: OutboundMessage)
    ensures
        r@ == worker_message(pubkey, event),
{
    Message::System(SystemEvent::WorkerEvent(WorkerEventWithKey { pubkey, event }))
}

} // verus!
