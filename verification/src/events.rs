//! The events through which a transaction tells the host what to do once it
//! is committed.

use pink_extension::CacheOp as OutsideCacheOp;
use pink_extension::PinkEvent as OutsideEvent;
use vstd::prelude::*;
use crate::scale::{scale_bytes, scale_u64};
use crate::types::{AccountId, H256};

verus! {

/// An instruction to the host's cache.
#[derive(Debug, Clone, PartialEq, Eq)]
pub enum CacheOp {
    /// Store `value` under `key`.
    Put { key: Vec<u8>, value: Vec<u8> },
    /// Let the entry under `key` expire after `expiration` seconds.
    SetExpiration { key: Vec<u8>, expiration: u64 },
    /// Drop the entry under `key`.
    Remove { key: Vec<u8> },
}

/// The mathematical content of a [`CacheOp`].
pub enum CacheOpView {
    Put { key: Seq<u8>, value: Seq<u8> },
    SetExpiration { key: Seq<u8>, expiration: u64 },
    Remove { key: Seq<u8> },
}

impl View for CacheOp {
    type V = CacheOpView;

    open spec fn view(&self) -> CacheOpView {
        match self {
            CacheOp::Put { key, value } => CacheOpView::Put { key: key@, value: value@ },
            CacheOp::SetExpiration { key, expiration } => CacheOpView::SetExpiration {
                key: key@,
                expiration: *expiration,
            },
            CacheOp::Remove { key } => CacheOpView::Remove { key: key@ },
        }
    }
}

impl CacheOpView {
    /// The longest byte string that the instruction holds.
    pub open spec fn longest(self) -> nat {
        match self {
            CacheOpView::Put { key, value } => if key.len() >= value.len() {
                key.len()
            } else {
                value.len()
            },
            CacheOpView::SetExpiration { key, .. } => key.len(),
            CacheOpView::Remove { key } => key.len(),
        }
    }

    /// The layout of the instruction: the number of its kind, then its
    /// fields.
    pub open spec fn layout(self) -> Seq<u8> {
        match self {
            CacheOpView::Put { key, value } => seq![0u8] + scale_bytes(key) + scale_bytes(value),
            CacheOpView::SetExpiration { key, expiration } => seq![1u8] + scale_bytes(key)
                + scale_u64(expiration),
            CacheOpView::Remove { key } => seq![2u8] + scale_bytes(key),
        }
    }
}

/// An event that the runtime emits on behalf of a contract.
#[derive(Debug, Clone, PartialEq, Eq)]
pub enum PinkEvent {
    /// An instruction to the cache.
    CacheOp(CacheOp),
}

/// The mathematical content of a [`PinkEvent`].
pub enum PinkEventView {
    CacheOp(CacheOpView),
}

impl View for PinkEvent {
    type V = PinkEventView;

    open spec fn view(&self) -> PinkEventView {
        match self {
            PinkEvent::CacheOp(op) => PinkEventView::CacheOp(op@),
        }
    }
}

impl PinkEventView {
    /// The layout of the event: the number of its kind among the host's
    /// events, then its payload.
    pub open spec fn layout(self) -> Seq<u8> {
        match self {
            PinkEventView::CacheOp(op) => seq![5u8] + op.layout(),
        }
    }

    /// The longest byte string that the event holds.
    pub open spec fn longest(self) -> nat {
        match self {
            PinkEventView::CacheOp(op) => op.longest(),
        }
    }
}

/// The topic under which every event of the runtime is filed: the layout of
/// the byte string `phala.pink.event`, filled up with zeros to 32 bytes.
pub open spec fn pink_event_topic() -> Seq<u8> {
    seq![
        64u8, 112u8, 104u8, 97u8, 108u8, 97u8, 46u8, 112u8, 105u8, 110u8, 107u8, 46u8, 101u8,
        118u8, 101u8, 110u8, 116u8, 0u8, 0u8, 0u8, 0u8, 0u8, 0u8, 0u8, 0u8, 0u8, 0u8, 0u8, 0u8,
        0u8, 0u8, 0u8,
    ]
}

/// Calls `pink_extension::PinkEvent::event_topic`. Trusted: the topic is the
/// one constant that the function computes, written out in
/// [`pink_event_topic`].
#[verifier::external_body]
pub(crate) fn event_topic() -> (r: [u8; 32])
    ensures
        r@ == pink_event_topic(),
{
    OutsideEvent::event_topic()
}

/// Calls `parity_scale_codec::Encode::encode` on the host's event type,
/// `pink_extension::PinkEvent`, after copying the event into it. Trusted:
/// the result is the layout written out in [`PinkEventView::layout`]. Byte
/// strings of 2^32 bytes or more are left out: the encoder panics on them.
#[verifier::external_body]
pub(crate) fn encode_event(event: &PinkEvent) -> (r: Vec<u8>)
    requires
        event@.longest() <= u32::MAX,
    ensures
        r@ == event@.layout(),
{
    let PinkEvent::CacheOp(op) = event.clone();
    let op = match op {
        CacheOp::Put { key, value } => OutsideCacheOp::Set { key, value },
        CacheOp::SetExpiration { key, expiration } => OutsideCacheOp::SetExpiration { key, expiration },
        CacheOp::Remove { key } => OutsideCacheOp::Remove { key },
    };
    parity_scale_codec::Encode::encode(&OutsideEvent::CacheOp(op))
}

/// A record of one event that a contract emitted.
#[derive(Debug, Clone, PartialEq, Eq)]
pub struct ContractEmitted {
    /// The contract on whose behalf the event stands.
    pub contract: AccountId,
    /// The topics under which it is filed.
    pub topics: Vec<H256>,
    /// The layout of the event.
    pub data: Vec<u8>,
}

/// The mathematical content of a [`ContractEmitted`].
pub struct EmittedView {
    pub contract: Seq<u8>,
    pub topics: Seq<Seq<u8>>,
    pub data: Seq<u8>,
}

impl View for ContractEmitted {
    type V = EmittedView;

    open spec fn view(&self) -> EmittedView {
        EmittedView {
            contract: self.contract@,
            topics: Seq::new(self.topics@.len(), |i: int| self.topics@[i]@),
            data: self.data@,
        }
    }
}

/// The record of `event` emitted on behalf of `contract`.
pub open spec fn emitted(contract: Seq<u8>, event: PinkEventView) -> EmittedView {
    EmittedView { contract, topics: seq![pink_event_topic()], data: event.layout() }
}

/// The events that were deposited, oldest first.
#[derive(Debug)]
pub struct EventLog {
    /// The records.
    pub records: Vec<ContractEmitted>,
}

impl View for EventLog {
    type V = Seq<EmittedView>;

    open spec fn view(&self) -> Seq<EmittedView> {
        Seq::new(self.records@.len(), |i: int| self.records@[i]@)
    }
}

impl EventLog {
    /// A log without records.
    pub fn new() -> (r: EventLog)
        ensures
            r@ == Seq::<EmittedView>::empty(),
    {
        let r = EventLog { records: Vec::new() };
        assert(r@ =~= Seq::<EmittedView>::empty());
        r
    }
}

/// Files `event` on behalf of `contract`: one record more, under the topic
/// of the runtime's events, holding the layout of the event.
pub fn deposit_pink_event(log: &mut EventLog, contract: AccountId, event: PinkEvent)
    requires
        event@.longest() <= u32::MAX,
    ensures
        final(log)@ == old(log)@.push(emitted(contract@, event@)),
{
    let mut topics: Vec<H256> = Vec::new();
    topics.push(H256::new(event_topic()));
    let data = encode_event(&event);
    let record = ContractEmitted { contract, topics, data };
    assert(record@.topics =~= seq![pink_event_topic()]);
    log.records.push(record);
    assert(log@ =~= old(log)@.push(emitted(contract@, event@)));
}

/// Filing an event adds exactly one record and touches no other: the new
/// record is the last, stands on behalf of the given contract, and carries
/// the one topic of the runtime's events.
pub proof fn lemma_deposit_adds_one_record(
    before: Seq<EmittedView>,
    contract: Seq<u8>,
    event: PinkEventView,
)
    ensures
        ({
            let after = before.push(emitted(contract, event));
            &&& after.len() == before.len() + 1
            &&& after.last().contract == contract
            &&& after.last().topics == seq![pink_event_topic()]
            &&& after.last().data == event.layout()
            &&& forall|i: int| 0 <= i < before.len() ==> after[i] == before[i]
        }),
{
}

} // verus!
