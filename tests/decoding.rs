use bridge_events::decode::{
    convert_log_to_event, decode_log_data, event_name_of_topic, DecodeError, EventName,
    EventSignatures, RawLog,
};
use bridge_events::primitives::AddressParseError;
use bridge_events::types::{
    Amount, BridgeContractInitiatorEvent, BridgeTransferDetails, BridgeTransferId, EthAddress,
    HashLock, InitiatorAddress, RecipientAddress, TimeLock,
};

fn hex32(s: &str) -> [u8; 32] {
    let mut out = [0u8; 32];
    for i in 0..32 {
        out[i] = u8::from_str_radix(&s[2 * i..2 * i + 2], 16).unwrap();
    }
    out
}

fn uint_word(v: u64) -> Vec<u8> {
    let mut w = vec![0u8; 24];
    w.extend_from_slice(&v.to_be_bytes());
    w
}

fn address_word(a: [u8; 20]) -> Vec<u8> {
    let mut w = vec![0u8; 12];
    w.extend_from_slice(&a);
    w
}

fn sample_details() -> BridgeTransferDetails {
    BridgeTransferDetails {
        bridge_transfer_id: BridgeTransferId([1u8; 32]),
        initiator_address: InitiatorAddress(EthAddress([0xaa; 20])),
        recipient_address: RecipientAddress([0xbb; 32]),
        hash_lock: HashLock([0xcc; 32]),
        time_lock: TimeLock(3600),
        amount: Amount(100),
    }
}

fn initiated_payload(d: &BridgeTransferDetails) -> Vec<u8> {
    let mut data = d.bridge_transfer_id.0.to_vec();
    data.extend(address_word(d.initiator_address.0 .0));
    data.extend_from_slice(&d.recipient_address.0);
    data.extend_from_slice(&d.hash_lock.0);
    data.extend(uint_word(d.time_lock.0));
    data.extend(uint_word(d.amount.0));
    data
}

fn log(topic: [u8; 32], data: Vec<u8>) -> RawLog {
    RawLog { address: EthAddress([0x11; 20]), topics: vec![topic], data }
}

#[test]
fn signature_hash_is_keccak_of_text() {
    let sigs = EventSignatures::new(
        "Transfer(address,address,uint256)",
        "Approval(address,address,uint256)",
        "Deposit(address,uint256)",
    );
    assert_eq!(
        sigs.initiated,
        hex32("ddf252ad1be2c89b69c2b068fc378daa952ba7f163c4a11628f55a4df523b3ef")
    );
    assert_eq!(
        sigs.completed,
        hex32("8c5be1e5ebec7d5bd14f71427d1e84f3dd0314c0f7b2291e5b200ac8c7c3b925")
    );
}

#[test]
fn contract_signatures_are_distinct() {
    let sigs = EventSignatures::initiator_contract();
    assert_ne!(sigs.initiated, sigs.completed);
    assert_ne!(sigs.initiated, sigs.refunded);
    assert_ne!(sigs.completed, sigs.refunded);
    assert_eq!(event_name_of_topic(&sigs, &sigs.refunded), Some(EventName::Refunded));
}

#[test]
fn initiated_round_trip() {
    let sigs = EventSignatures::initiator_contract();
    let d = sample_details();
    let r = convert_log_to_event(&sigs, &log(sigs.initiated, initiated_payload(&d)));
    assert_eq!(r, Ok(BridgeContractInitiatorEvent::Initiated(d)));
}

#[test]
fn initiated_round_trip_large_values() {
    let sigs = EventSignatures::initiator_contract();
    let mut d = sample_details();
    d.time_lock = TimeLock(u64::MAX);
    d.amount = Amount(0x0102_0304_0506_0708);
    let r = convert_log_to_event(&sigs, &log(sigs.initiated, initiated_payload(&d)));
    assert_eq!(r, Ok(BridgeContractInitiatorEvent::Initiated(d)));
}

#[test]
fn completed_round_trip() {
    let sigs = EventSignatures::initiator_contract();
    let mut data = vec![7u8; 32];
    data.extend_from_slice(&[9u8; 32]);
    let r = convert_log_to_event(&sigs, &log(sigs.completed, data));
    assert_eq!(r, Ok(BridgeContractInitiatorEvent::Completed(BridgeTransferId([7u8; 32]))));
}

#[test]
fn refunded_round_trip() {
    let sigs = EventSignatures::initiator_contract();
    let r = convert_log_to_event(&sigs, &log(sigs.refunded, vec![5u8; 32]));
    assert_eq!(r, Ok(BridgeContractInitiatorEvent::Refunded(BridgeTransferId([5u8; 32]))));
}

#[test]
fn unknown_signature_is_typed_error() {
    let sigs = EventSignatures::initiator_contract();
    let r = convert_log_to_event(&sigs, &log([0x42; 32], vec![5u8; 32]));
    assert_eq!(r, Err(DecodeError::UnknownEventType));
}

#[test]
fn log_without_topics_is_malformed() {
    let sigs = EventSignatures::initiator_contract();
    let raw = RawLog { address: EthAddress([0; 20]), topics: vec![], data: vec![5u8; 32] };
    assert_eq!(convert_log_to_event(&sigs, &raw), Err(DecodeError::MalformedLog));
}

#[test]
fn truncated_payload_is_schema_mismatch() {
    let sigs = EventSignatures::initiator_contract();
    let d = sample_details();
    let mut data = initiated_payload(&d);
    data.truncate(100);
    let r = convert_log_to_event(&sigs, &log(sigs.initiated, data));
    assert_eq!(
        r,
        Err(DecodeError::SchemaMismatch { event: EventName::Initiated, expected_len: 192, found_len: 100 })
    );
    assert_eq!(
        decode_log_data(EventName::Completed, &vec![]),
        Err(DecodeError::SchemaMismatch { event: EventName::Completed, expected_len: 64, found_len: 0 })
    );
}

#[test]
fn overlong_payload_is_schema_mismatch() {
    assert_eq!(
        decode_log_data(EventName::Refunded, &vec![0u8; 33]),
        Err(DecodeError::SchemaMismatch { event: EventName::Refunded, expected_len: 32, found_len: 33 })
    );
}

#[test]
fn dirty_address_padding_is_field_error() {
    let mut data = initiated_payload(&sample_details());
    data[32] = 1;
    assert_eq!(
        decode_log_data(EventName::Initiated, &data),
        Err(DecodeError::FieldDecodeError { event: EventName::Initiated, index: 1 })
    );
}

#[test]
fn oversized_uint_is_field_error() {
    let mut data = initiated_payload(&sample_details());
    data[4 * 32 + 23] = 1;
    assert_eq!(
        decode_log_data(EventName::Initiated, &data),
        Err(DecodeError::FieldDecodeError { event: EventName::Initiated, index: 4 })
    );
    let mut data = initiated_payload(&sample_details());
    data[5 * 32] = 0x80;
    assert_eq!(
        decode_log_data(EventName::Initiated, &data),
        Err(DecodeError::FieldDecodeError { event: EventName::Initiated, index: 5 })
    );
}

#[test]
fn decoding_twice_gives_same_result() {
    let sigs = EventSignatures::initiator_contract();
    let good = log(sigs.initiated, initiated_payload(&sample_details()));
    assert_eq!(convert_log_to_event(&sigs, &good), convert_log_to_event(&sigs, &good));
    let bad = log(sigs.initiated, vec![1u8; 10]);
    assert_eq!(convert_log_to_event(&sigs, &bad), convert_log_to_event(&sigs, &bad));
}

#[test]
fn checksummed_address_parses() {
    let a = EthAddress::from_checksummed("0xf39Fd6e51aad88F6F4ce6aB8827279cffFb92266").unwrap();
    let mut expected = [0u8; 20];
    let hex = "f39fd6e51aad88f6f4ce6ab8827279cfffb92266";
    for i in 0..20 {
        expected[i] = u8::from_str_radix(&hex[2 * i..2 * i + 2], 16).unwrap();
    }
    assert_eq!(a, EthAddress(expected));
}

#[test]
fn bad_checksum_is_refused() {
    assert_eq!(
        EthAddress::from_checksummed("0xf39fd6e51aad88F6F4ce6aB8827279cffFb92266"),
        Err(AddressParseError::InvalidChecksum)
    );
    assert_eq!(EthAddress::from_checksummed("0x1234"), Err(AddressParseError::InvalidHex));
    assert_eq!(
        EthAddress::from_checksummed("f39Fd6e51aad88F6F4ce6aB8827279cffFb92266"),
        Err(AddressParseError::InvalidHex)
    );
}

#[test]
fn address_from_bytes_checks_length() {
    assert_eq!(EthAddress::from_bytes(&[3u8; 20]), Ok(EthAddress([3u8; 20])));
    assert_eq!(EthAddress::from_bytes(&[3u8; 19]), Err(AddressParseError::WrongLength));
    assert_eq!(EthAddress::from_bytes(&[3u8; 32]), Err(AddressParseError::WrongLength));
}
