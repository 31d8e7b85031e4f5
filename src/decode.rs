//! Decoding of the initiator contract's raw logs. Every field of these events
//! is a static ABI type, so the payload is a sequence of 32-byte words, one per
//! field of the event's schema, in order.
use vstd::prelude::*;
use vstd::string::StringSliceAdditionalSpecFns;
use crate::primitives::{keccak256, keccak256_of};
use crate::types::{
    Amount, BridgeContractInitiatorEvent, BridgeTransferDetails, BridgeTransferId, DetailsModel,
    EthAddress, HashLock, InitiatorAddress, InitiatorEventModel, RecipientAddress, TimeLock,
};

verus! {

/// The events of the initiator contract, each with its own fixed schema.
#[derive(Debug, Clone, Copy, PartialEq, Eq, Structural)]
pub enum EventName {
    /// Fields: transfer id (bytes32), initiator (address), recipient (bytes32),
    /// hash lock (bytes32), time lock (uint256), amount (uint256).
    Initiated,
    /// Fields: transfer id (bytes32), pre-image (bytes32).
    Completed,
    /// Fields: transfer id (bytes32).
    Refunded,
}

/// Why a raw log could not be decoded.
#[derive(Debug, Clone, Copy, PartialEq, Eq, Structural)]
pub enum DecodeError {
    /// The log has no topic, so no event signature.
    MalformedLog,
    /// The first topic is none of the configured event signatures.
    UnknownEventType,
    /// The payload's length is not that of the event's schema.
    SchemaMismatch { event: EventName, expected_len: usize, found_len: usize },
    /// The word of the field at `index` is not a value of the field's type.
    FieldDecodeError { event: EventName, index: usize },
}

/// A contract log as the node delivers it.
#[derive(Debug, Clone, PartialEq, Eq)]
pub struct RawLog {
    pub address: EthAddress,
    pub topics: Vec<[u8; 32]>,
    pub data: Vec<u8>,
}

/// The signature hashes that identify each event in a log's first topic.
#[derive(Debug, Clone, Copy, PartialEq, Eq)]
pub struct EventSignatures {
    pub initiated: [u8; 32],
    pub completed: [u8; 32],
    pub refunded: [u8; 32],
}

/// The number of payload bytes of an event.
pub open spec fn schema_len(name: EventName) -> nat {
    match name {
        EventName::Initiated => 192,
        EventName::Completed => 64,
        EventName::Refunded => 32,
    }
}

/// The word at position `i` of a payload.
pub open spec fn word(data: Seq<u8>, i: int) -> Seq<u8> {
    data.subrange(32 * i, 32 * i + 32)
}

pub open spec fn zero_prefix(w: Seq<u8>, n: int) -> bool {
    forall|k: int| 0 <= k < n ==> w[k] == 0
}

/// The value of a big-endian byte string.
pub open spec fn be_value(s: Seq<u8>) -> nat
    decreases s.len(),
{
    if s.len() == 0 {
        0
    } else {
        be_value(s.drop_last()) * 256 + s.last() as nat
    }
}

/// An address word is twelve zero bytes, then the address.
pub open spec fn address_word_ok(w: Seq<u8>) -> bool {
    zero_prefix(w, 12)
}

/// A uint256 word holds a `u64` when its first 24 bytes are zero.
pub open spec fn uint64_word_ok(w: Seq<u8>) -> bool {
    zero_prefix(w, 24)
}

pub open spec fn uint64_of(w: Seq<u8>) -> u64 {
    be_value(w.subrange(24, 32)) as u64
}

/// What a payload decodes to under the schema of `name`.
pub open spec fn decode_data_spec(name: EventName, data: Seq<u8>) -> Result<InitiatorEventModel, DecodeError> {
    if data.len() != schema_len(name) {
        Err(DecodeError::SchemaMismatch {
            event: name,
            expected_len: schema_len(name) as usize,
            found_len: data.len() as usize,
        })
    } else {
        match name {
            EventName::Initiated => {
                if !address_word_ok(word(data, 1)) {
                    Err(DecodeError::FieldDecodeError { event: name, index: 1 })
                } else if !uint64_word_ok(word(data, 4)) {
                    Err(DecodeError::FieldDecodeError { event: name, index: 4 })
                } else if !uint64_word_ok(word(data, 5)) {
                    Err(DecodeError::FieldDecodeError { event: name, index: 5 })
                } else {
                    Ok(InitiatorEventModel::Initiated(DetailsModel {
                        id: word(data, 0),
                        initiator: word(data, 1).subrange(12, 32),
                        recipient: word(data, 2),
                        hash_lock: word(data, 3),
                        time_lock: uint64_of(word(data, 4)),
                        amount: uint64_of(word(data, 5)),
                    }))
                }
            },
            EventName::Completed => Ok(InitiatorEventModel::Completed(word(data, 0))),
            EventName::Refunded => Ok(InitiatorEventModel::Refunded(word(data, 0))),
        }
    }
}

/// The event whose signature hash is `topic`, tried in the order
/// initiated, completed, refunded.
pub open spec fn event_name_of(sigs: EventSignatures, topic: Seq<u8>) -> Option<EventName> {
    if topic == sigs.initiated@ {
        Some(EventName::Initiated)
    } else if topic == sigs.completed@ {
        Some(EventName::Completed)
    } else if topic == sigs.refunded@ {
        Some(EventName::Refunded)
    } else {
        None
    }
}

/// What a log with these topics and payload decodes to.
pub open spec fn convert_spec(sigs: EventSignatures, topics: Seq<[u8; 32]>, data: Seq<u8>) -> Result<InitiatorEventModel, DecodeError> {
    if topics.len() == 0 {
        Err(DecodeError::MalformedLog)
    } else {
        match event_name_of(sigs, topics[0]@) {
            None => Err(DecodeError::UnknownEventType),
            Some(name) => decode_data_spec(name, data),
        }
    }
}

/// What a log decodes to.
pub open spec fn log_spec(sigs: EventSignatures, log: RawLog) -> Result<InitiatorEventModel, DecodeError> {
    convert_spec(sigs, log.topics@, log.data@)
}

pub open spec fn result_model(r: Result<BridgeContractInitiatorEvent, DecodeError>) -> Result<InitiatorEventModel, DecodeError> {
    match r {
        Ok(e) => Ok(e@),
        Err(x) => Err(x),
    }
}

impl EventSignatures {
    /// The signature hashes of the three canonical event signature texts.
    pub fn new(initiated: &str, completed: &str, refunded: &str) -> (r: EventSignatures)
        ensures
            r.initiated@ == keccak256_of(initiated.spec_bytes()),
            r.completed@ == keccak256_of(completed.spec_bytes()),
            r.refunded@ == keccak256_of(refunded.spec_bytes()),
    {
        EventSignatures {
            initiated: keccak256(initiated.as_bytes()),
            completed: keccak256(completed.as_bytes()),
            refunded: keccak256(refunded.as_bytes()),
        }
    }

    /// The signatures that the initiator contract's ABI declares.
    pub fn initiator_contract() -> (r: EventSignatures)
        ensures
            r.initiated@ == keccak256_of(
                "BridgeTransferInitiated(bytes32,address,bytes32,bytes32,uint256,uint256)".spec_bytes(),
            ),
            r.completed@ == keccak256_of("BridgeTransferCompleted(bytes32,bytes32)".spec_bytes()),
            r.refunded@ == keccak256_of("BridgeTransferRefunded(bytes32)".spec_bytes()),
    {
        EventSignatures::new(
            "BridgeTransferInitiated(bytes32,address,bytes32,bytes32,uint256,uint256)",
            "BridgeTransferCompleted(bytes32,bytes32)",
            "BridgeTransferRefunded(bytes32)",
        )
    }
}

/// The word at position `i` of the payload.
fn read_word(data: &Vec<u8>, i: usize) -> (r: [u8; 32])
    requires
        32 * i + 32 <= data@.len(),
    ensures
        r@ == word(data@, i as int),
{
    let len: usize = data.len();
    assert(32 * i + 32 <= len);
    let base: usize = 32 * i;
    let mut out: [u8; 32] = [0u8; 32];
    let mut k: usize = 0;
    while k < 32
        invariant
            k <= 32,
            base == 32 * i,
            base + 32 <= data@.len(),
            forall|m: int| 0 <= m < k ==> out@[m] == data@[base + m],
        decreases 32 - k,
    {
        out[k] = data[base + k];
        k += 1;
    }
    assert(out@ =~= word(data@, i as int));
    out
}

/// Whether the first `n` bytes of the word at position `i` are zero.
fn word_has_zero_prefix(data: &Vec<u8>, i: usize, n: usize) -> (r: bool)
    requires
        32 * i + 32 <= data@.len(),
        n <= 32,
    ensures
        r == zero_prefix(word(data@, i as int), n as int),
{
    let len: usize = data.len();
    assert(32 * i + 32 <= len);
    let base: usize = 32 * i;
    let mut k: usize = 0;
    while k < n
        invariant
            k <= n <= 32,
            base == 32 * i,
            base + 32 <= data@.len(),
            forall|m: int| 0 <= m < k ==> #[trigger] word(data@, i as int)[m] == 0,
        decreases n - k,
    {
        assert(word(data@, i as int)[k as int] == data@[base + k]);
        if data[base + k] != 0 {
            return false;
        }
        k += 1;
    }
    true
}

/// The address in the word at position `i`, if its padding is zero.
fn read_address(data: &Vec<u8>, i: usize) -> (r: Option<EthAddress>)
    requires
        32 * i + 32 <= data@.len(),
    ensures
        r is Some <==> address_word_ok(word(data@, i as int)),
        r matches Some(a) ==> a.0@ == word(data@, i as int).subrange(12, 32),
{
    if !word_has_zero_prefix(data, i, 12) {
        return None;
    }
    let len: usize = data.len();
    assert(32 * i + 32 <= len);
    let base: usize = 32 * i;
    let mut out: [u8; 20] = [0u8; 20];
    let mut k: usize = 0;
    while k < 20
        invariant
            k <= 20,
            base == 32 * i,
            base + 32 <= data@.len(),
            forall|m: int| 0 <= m < k ==> out@[m] == data@[base + 12 + m],
        decreases 20 - k,
    {
        out[k] = data[base + 12 + k];
        k += 1;
    }
    assert(out@ =~= word(data@, i as int).subrange(12, 32));
    Some(EthAddress(out))
}

spec fn pow256(n: nat) -> nat
    decreases n,
{
    if n == 0 {
        1
    } else {
        256 * pow256((n - 1) as nat)
    }
}

proof fn lemma_pow256_small(k: nat)
    requires
        k <= 7,
    ensures
        pow256(k) <= 72057594037927936,
{
    reveal_with_fuel(pow256, 8);
    assert(k == 0 || k == 1 || k == 2 || k == 3 || k == 4 || k == 5 || k == 6 || k == 7);
}

/// The `u64` in the uint256 word at position `i`, if it fits.
fn read_uint64(data: &Vec<u8>, i: usize) -> (r: Option<u64>)
    requires
        32 * i + 32 <= data@.len(),
    ensures
        r is Some <==> uint64_word_ok(word(data@, i as int)),
        r matches Some(v) ==> v == uint64_of(word(data@, i as int)),
{
    if !word_has_zero_prefix(data, i, 24) {
        return None;
    }
    let len: usize = data.len();
    assert(32 * i + 32 <= len);
    let base: usize = 32 * i;
    let mut acc: u64 = 0;
    let mut j: usize = 24;
    assert(data@.subrange(base + 24, base + 24) =~= Seq::<u8>::empty());
    while j < 32
        invariant
            24 <= j <= 32,
            base == 32 * i,
            base + 32 <= data@.len(),
            acc as nat == be_value(data@.subrange(base + 24, base + j)),
            acc < pow256((j - 24) as nat),
        decreases 32 - j,
    {
        let b: u64 = data[base + j] as u64;
        proof {
            lemma_pow256_small((j - 24) as nat);
            let p = pow256((j - 24) as nat);
            assert(acc * 256 + b < 256 * p) by (nonlinear_arith)
                requires
                    acc < p,
                    b < 256,
            ;
            assert(acc * 256 + b < 0x1_0000_0000_0000_0000) by (nonlinear_arith)
                requires
                    acc < 72057594037927936,
                    b < 256,
            ;
            let s = data@.subrange(base + 24, base + j + 1);
            assert(s.drop_last() =~= data@.subrange(base + 24, base + j));
        }
        acc = acc * 256 + b;
        j += 1;
    }
    assert(data@.subrange(base + 24, base + 32) =~= word(data@, i as int).subrange(24, 32));
    Some(acc)
}

/// Decodes a payload under the schema of the event `name`.
pub fn decode_log_data(name: EventName, data: &Vec<u8>) -> (r: Result<BridgeContractInitiatorEvent, DecodeError>)
    ensures
        result_model(r) == decode_data_spec(name, data@),
{
    let expected: usize = match name {
        EventName::Initiated => 192,
        EventName::Completed => 64,
        EventName::Refunded => 32,
    };
    if data.len() != expected {
        return Err(DecodeError::SchemaMismatch { event: name, expected_len: expected, found_len: data.len() });
    }
    match name {
        EventName::Initiated => {
            let id = read_word(data, 0);
            let initiator = match read_address(data, 1) {
                Some(a) => a,
                None => return Err(DecodeError::FieldDecodeError { event: name, index: 1 }),
            };
            let recipient = read_word(data, 2);
            let hash_lock = read_word(data, 3);
            let time_lock = match read_uint64(data, 4) {
                Some(v) => v,
                None => return Err(DecodeError::FieldDecodeError { event: name, index: 4 }),
            };
            let amount = match read_uint64(data, 5) {
                Some(v) => v,
                None => return Err(DecodeError::FieldDecodeError { event: name, index: 5 }),
            };
            Ok(BridgeContractInitiatorEvent::Initiated(BridgeTransferDetails {
                bridge_transfer_id: BridgeTransferId(id),
                initiator_address: InitiatorAddress(initiator),
                recipient_address: RecipientAddress(recipient),
                hash_lock: HashLock(hash_lock),
                time_lock: TimeLock(time_lock),
                amount: Amount(amount),
            }))
        },
        EventName::Completed => Ok(BridgeContractInitiatorEvent::Completed(BridgeTransferId(read_word(data, 0)))),
        EventName::Refunded => Ok(BridgeContractInitiatorEvent::Refunded(BridgeTransferId(read_word(data, 0)))),
    }
}

/// Whether two hashes are equal.
fn same_hash(a: &[u8; 32], b: &[u8; 32]) -> (r: bool)
    ensures
        r == (a@ == b@),
{
    let mut k: usize = 0;
    while k < 32
        invariant
            k <= 32,
            forall|m: int| 0 <= m < k ==> a@[m] == b@[m],
        decreases 32 - k,
    {
        if a[k] != b[k] {
            return false;
        }
        k += 1;
    }
    assert(a@ =~= b@);
    true
}

/// The event whose signature hash is `topic`, if any.
pub fn event_name_of_topic(sigs: &EventSignatures, topic: &[u8; 32]) -> (r: Option<EventName>)
    ensures
        r == event_name_of(*sigs, topic@),
{
    if same_hash(topic, &sigs.initiated) {
        Some(EventName::Initiated)
    } else if same_hash(topic, &sigs.completed) {
        Some(EventName::Completed)
    } else if same_hash(topic, &sigs.refunded) {
        Some(EventName::Refunded)
    } else {
        None
    }
}

/// Decodes a raw log of the initiator contract: its first topic picks the
/// event, whose schema then decodes the payload.
pub fn convert_log_to_event(sigs: &EventSignatures, log: &RawLog) -> (r: Result<BridgeContractInitiatorEvent, DecodeError>)
    ensures
        result_model(r) == log_spec(*sigs, *log),
{
    if log.topics.len() == 0 {
        return Err(DecodeError::MalformedLog);
    }
    match event_name_of_topic(sigs, &log.topics[0]) {
        None => Err(DecodeError::UnknownEventType),
        Some(name) => decode_log_data(name, &log.data),
    }
}

} // verus!
