//! Properties of decoding and of the relay/stream pipeline, proved over the
//! spec functions that the executable functions' contracts use.
use vstd::prelude::*;
use crate::decode::{
    be_value, convert_spec, decode_data_spec, log_spec, schema_len, uint64_of, word,
    DecodeError, EventName, EventSignatures, RawLog,
};
use crate::relay::{
    relay_step_spec, stream_step_spec, AbstractModel, ChannelPollModel, RelayActionModel,
    RelayInput, RelayState, StreamStepModel,
};
use crate::types::{DetailsModel, InitiatorEventModel};

verus! {

/// The big-endian bytes of the low `n` bytes of `v`.
pub open spec fn be_encode(v: nat, n: nat) -> Seq<u8>
    decreases n,
{
    if n == 0 {
        Seq::empty()
    } else {
        be_encode(v / 256, (n - 1) as nat).push((v % 256) as u8)
    }
}

/// The ABI word of a `u64`.
pub open spec fn uint_word(v: u64) -> Seq<u8> {
    Seq::new(24, |k: int| 0u8) + be_encode(v as nat, 8)
}

/// The ABI word of a 20-byte address.
pub open spec fn address_word(a: Seq<u8>) -> Seq<u8> {
    Seq::new(12, |k: int| 0u8) + a
}

/// The payload that the contract writes for an initiated transfer.
pub open spec fn initiated_payload(d: DetailsModel) -> Seq<u8> {
    d.id + address_word(d.initiator) + d.recipient + d.hash_lock + uint_word(d.time_lock) + uint_word(d.amount)
}

/// Whether a model's byte strings have the widths of their types.
pub open spec fn details_well_formed(d: DetailsModel) -> bool {
    d.id.len() == 32 && d.initiator.len() == 20 && d.recipient.len() == 32 && d.hash_lock.len() == 32
}

spec fn p256(n: nat) -> nat
    decreases n,
{
    if n == 0 {
        1
    } else {
        256 * p256((n - 1) as nat)
    }
}

proof fn lemma_be_encode(v: nat, n: nat)
    requires
        v < p256(n),
    ensures
        be_encode(v, n).len() == n,
        be_value(be_encode(v, n)) == v,
    decreases n,
{
    if n > 0 {
        let p = p256((n - 1) as nat);
        assert(v / 256 < p) by (nonlinear_arith)
            requires
                v < 256 * p,
        ;
        lemma_be_encode(v / 256, (n - 1) as nat);
        let s = be_encode(v, n);
        assert(s.drop_last() =~= be_encode(v / 256, (n - 1) as nat));
        assert((v / 256) * 256 + v % 256 == v) by (nonlinear_arith);
    }
}

proof fn lemma_uint_word(v: u64)
    ensures
        uint_word(v).len() == 32,
        forall|k: int| 0 <= k < 24 ==> #[trigger] uint_word(v)[k] == 0,
        uint64_of(uint_word(v)) == v,
{
    reveal_with_fuel(p256, 9);
    assert(p256(8) == 0x1_0000_0000_0000_0000);
    lemma_be_encode(v as nat, 8);
    assert(uint_word(v).subrange(24, 32) =~= be_encode(v as nat, 8));
}

/// Round trip: the payload built from a transfer's field values, in a log
/// whose first topic is the initiated signature, decodes to exactly those
/// values.
pub proof fn lemma_initiated_round_trip(sigs: EventSignatures, d: DetailsModel, topics: Seq<[u8; 32]>)
    requires
        details_well_formed(d),
        topics.len() >= 1,
        topics[0]@ == sigs.initiated@,
    ensures
        convert_spec(sigs, topics, initiated_payload(d)) == Ok::<InitiatorEventModel, DecodeError>(
            InitiatorEventModel::Initiated(d),
        ),
{
    let data = initiated_payload(d);
    lemma_uint_word(d.time_lock);
    lemma_uint_word(d.amount);
    assert(data.len() == 192);
    assert(word(data, 0) =~= d.id);
    assert(word(data, 1) =~= address_word(d.initiator));
    assert(word(data, 2) =~= d.recipient);
    assert(word(data, 3) =~= d.hash_lock);
    assert(word(data, 4) =~= uint_word(d.time_lock));
    assert(word(data, 5) =~= uint_word(d.amount));
    assert(word(data, 1).subrange(12, 32) =~= d.initiator);
}

/// Round trip: a completion payload (transfer id, then pre-image) decodes to
/// the completion of that transfer.
pub proof fn lemma_completed_round_trip(sigs: EventSignatures, id: Seq<u8>, pre_image: Seq<u8>, topics: Seq<[u8; 32]>)
    requires
        id.len() == 32,
        pre_image.len() == 32,
        topics.len() >= 1,
        topics[0]@ == sigs.completed@,
        sigs.completed@ != sigs.initiated@,
    ensures
        convert_spec(sigs, topics, id + pre_image) == Ok::<InitiatorEventModel, DecodeError>(
            InitiatorEventModel::Completed(id),
        ),
{
    assert(word(id + pre_image, 0) =~= id);
}

/// Round trip: a refund payload decodes to the refund of that transfer.
pub proof fn lemma_refunded_round_trip(sigs: EventSignatures, id: Seq<u8>, topics: Seq<[u8; 32]>)
    requires
        id.len() == 32,
        topics.len() >= 1,
        topics[0]@ == sigs.refunded@,
        sigs.refunded@ != sigs.initiated@,
        sigs.refunded@ != sigs.completed@,
    ensures
        convert_spec(sigs, topics, id) == Ok::<InitiatorEventModel, DecodeError>(
            InitiatorEventModel::Refunded(id),
        ),
{
    assert(word(id, 0) =~= id);
}

/// A log whose first topic is none of the signatures is an unknown event.
pub proof fn lemma_unknown_signature(sigs: EventSignatures, topics: Seq<[u8; 32]>, data: Seq<u8>)
    requires
        topics.len() >= 1,
        topics[0]@ != sigs.initiated@,
        topics[0]@ != sigs.completed@,
        topics[0]@ != sigs.refunded@,
    ensures
        convert_spec(sigs, topics, data) == Err::<InitiatorEventModel, DecodeError>(DecodeError::UnknownEventType),
{
}

/// A payload shorter than its event's schema is a schema mismatch.
pub proof fn lemma_truncated_payload(name: EventName, data: Seq<u8>)
    requires
        data.len() < schema_len(name),
    ensures
        decode_data_spec(name, data) == Err::<InitiatorEventModel, DecodeError>(DecodeError::SchemaMismatch {
            event: name,
            expected_len: schema_len(name) as usize,
            found_len: data.len() as usize,
        }),
{
}

/// Decoding depends on the log's topic bytes and payload alone: two logs with
/// the same bytes decode alike.
pub proof fn lemma_decode_deterministic(sigs: EventSignatures, a: RawLog, b: RawLog)
    requires
        a.topics@.len() == b.topics@.len(),
        forall|i: int| 0 <= i < a.topics@.len() ==> #[trigger] a.topics@[i]@ == b.topics@[i]@,
        a.data@ == b.data@,
    ensures
        log_spec(sigs, a) == log_spec(sigs, b),
{
    if a.topics@.len() > 0 {
        assert(a.topics@[0]@ == b.topics@[0]@);
    }
}

/// The items that the relay forwards for these logs, in order.
pub open spec fn relayed(sigs: EventSignatures, logs: Seq<RawLog>) -> Seq<AbstractModel>
    decreases logs.len(),
{
    if logs.len() == 0 {
        Seq::empty()
    } else {
        match relay_step_spec(sigs, RelayState::Running, RelayInput::LogArrived(logs[0])).1 {
            RelayActionModel::Forward(e) => seq![e] + relayed(sigs, logs.drop_first()),
            _ => relayed(sigs, logs.drop_first()),
        }
    }
}

/// The events that the stream hands to the consumer for these items, in order.
pub open spec fn emitted(items: Seq<AbstractModel>) -> Seq<InitiatorEventModel>
    decreases items.len(),
{
    if items.len() == 0 {
        Seq::empty()
    } else {
        match stream_step_spec(ChannelPollModel::Ready(items[0])) {
            StreamStepModel::Emit(e) => seq![e] + emitted(items.drop_first()),
            _ => emitted(items.drop_first()),
        }
    }
}

/// The logs' successful decodes, in the logs' order.
pub open spec fn decoded_in_order(sigs: EventSignatures, logs: Seq<RawLog>) -> Seq<InitiatorEventModel>
    decreases logs.len(),
{
    if logs.len() == 0 {
        Seq::empty()
    } else {
        match log_spec(sigs, logs[0]) {
            Ok(e) => seq![e] + decoded_in_order(sigs, logs.drop_first()),
            Err(_) => decoded_in_order(sigs, logs.drop_first()),
        }
    }
}

/// Ordering: the consumer receives the decoded events of the logs in the
/// order the logs arrived; a log that fails to decode leaves no gap that
/// would reorder the others.
pub proof fn lemma_order_kept(sigs: EventSignatures, logs: Seq<RawLog>)
    ensures
        emitted(relayed(sigs, logs)) == decoded_in_order(sigs, logs),
    decreases logs.len(),
{
    if logs.len() > 0 {
        lemma_order_kept(sigs, logs.drop_first());
        let e = AbstractModel::Initiator(log_spec(sigs, logs[0]));
        let rest = relayed(sigs, logs.drop_first());
        assert((seq![e] + rest).drop_first() =~= rest);
    }
}

/// How many items the relay forwards for a sequence of inputs.
pub open spec fn relay_forwards(sigs: EventSignatures, state: RelayState, inputs: Seq<RelayInput>) -> nat
    decreases inputs.len(),
{
    if inputs.len() == 0 {
        0
    } else {
        let (next, action) = relay_step_spec(sigs, state, inputs[0]);
        let here: nat = match action {
            RelayActionModel::Forward(_) => 1,
            _ => 0,
        };
        here + relay_forwards(sigs, next, inputs.drop_first())
    }
}

/// Cancellation: once the relay learns that the receiver is gone, it
/// forwards nothing more, whatever comes after.
pub proof fn lemma_cancellation(sigs: EventSignatures, state: RelayState, inputs: Seq<RelayInput>)
    ensures
        relay_forwards(sigs, state, seq![RelayInput::ReceiverGone] + inputs) == 0,
{
    let all = seq![RelayInput::ReceiverGone] + inputs;
    assert(all.drop_first() =~= inputs);
    lemma_stopped_forwards_nothing(sigs, inputs);
}

proof fn lemma_stopped_forwards_nothing(sigs: EventSignatures, inputs: Seq<RelayInput>)
    ensures
        relay_forwards(sigs, RelayState::Stopped, inputs) == 0,
    decreases inputs.len(),
{
    if inputs.len() > 0 {
        lemma_stopped_forwards_nothing(sigs, inputs.drop_first());
    }
}

} // verus!
