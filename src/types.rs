//! The chain-agnostic data model of bridge transfer events, with the Ethereum
//! representations of addresses and hashes.
use vstd::prelude::*;
use crate::primitives::{checksummed_address_of, parse_checksummed, AddressParseError};

verus! {

/// A 32-byte hash: a transfer identifier or a hash-lock value.
pub type EthHash = [u8; 32];

/// A 20-byte Ethereum account address.
#[derive(Debug, Clone, Copy, PartialEq, Eq, Hash)]
pub struct EthAddress(pub [u8; 20]);

impl EthAddress {
    /// The address that an EIP-55 checksummed text (`0x` and 40 hexadecimal
    /// digits) stands for.
    pub fn from_checksummed(text: &str) -> (r: Result<EthAddress, AddressParseError>)
        ensures
            match r {
                Ok(a) => checksummed_address_of(text@) == Some(a.0@),
                Err(e) => checksummed_address_of(text@).is_none() && e != AddressParseError::WrongLength,
            },
    {
        match parse_checksummed(text) {
            Ok(bytes) => Ok(EthAddress(bytes)),
            Err(e) => Err(e),
        }
    }

    /// The address with these raw bytes; any length but 20 is refused.
    pub fn from_bytes(bytes: &[u8]) -> (r: Result<EthAddress, AddressParseError>)
        ensures
            match r {
                Ok(a) => bytes@.len() == 20 && a.0@ == bytes@,
                Err(e) => bytes@.len() != 20 && e == AddressParseError::WrongLength,
            },
    {
        if bytes.len() != 20 {
            return Err(AddressParseError::WrongLength);
        }
        let mut out: [u8; 20] = [0u8; 20];
        let mut k: usize = 0;
        while k < 20
            invariant
                k <= 20,
                bytes@.len() == 20,
                forall|m: int| 0 <= m < k ==> out@[m] == bytes@[m],
            decreases 20 - k,
        {
            out[k] = bytes[k];
            k += 1;
        }
        assert(out@ =~= bytes@);
        Ok(EthAddress(out))
    }
}

#[derive(Debug, Clone, Copy, PartialEq, Eq, Hash)]
pub struct BridgeTransferId(pub EthHash);

#[derive(Debug, Clone, Copy, PartialEq, Eq, Hash)]
pub struct HashLock(pub EthHash);

#[derive(Debug, Clone, Copy, PartialEq, Eq, Hash)]
pub struct TimeLock(pub u64);

#[derive(Debug, Clone, Copy, PartialEq, Eq, Hash)]
pub struct Amount(pub u64);

#[derive(Debug, Clone, Copy, PartialEq, Eq, Hash)]
pub struct InitiatorAddress(pub EthAddress);

/// The recipient on the counterparty chain, as the 32-byte word the contract logs.
#[derive(Debug, Clone, Copy, PartialEq, Eq, Hash)]
pub struct RecipientAddress(pub [u8; 32]);

/// The secret whose hash is a hash lock.
#[derive(Debug, Clone, PartialEq, Eq, Hash)]
pub struct HashLockPreImage(pub Vec<u8>);

/// Everything the initiator contract records when a transfer starts.
#[derive(Debug, Clone, Copy, PartialEq, Eq, Hash)]
pub struct BridgeTransferDetails {
    pub bridge_transfer_id: BridgeTransferId,
    pub initiator_address: InitiatorAddress,
    pub recipient_address: RecipientAddress,
    pub hash_lock: HashLock,
    pub time_lock: TimeLock,
    pub amount: Amount,
}

/// What the counterparty contract records when it locks a mirrored transfer.
#[derive(Debug, Clone, Copy, PartialEq, Eq, Hash)]
pub struct LockDetails {
    pub bridge_transfer_id: BridgeTransferId,
    pub recipient_address: EthAddress,
    pub hash_lock: HashLock,
    pub time_lock: TimeLock,
    pub amount: Amount,
}

/// What the counterparty contract records when a transfer is claimed.
#[derive(Debug, Clone, PartialEq, Eq, Hash)]
pub struct CompletedDetails {
    pub bridge_transfer_id: BridgeTransferId,
    pub recipient_address: EthAddress,
    pub hash_lock: HashLock,
    pub secret: HashLockPreImage,
    pub amount: Amount,
}

/// The mathematical content of a `BridgeTransferDetails`.
pub struct DetailsModel {
    pub id: Seq<u8>,
    pub initiator: Seq<u8>,
    pub recipient: Seq<u8>,
    pub hash_lock: Seq<u8>,
    pub time_lock: u64,
    pub amount: u64,
}

impl View for BridgeTransferDetails {
    type V = DetailsModel;

    open spec fn view(&self) -> DetailsModel {
        DetailsModel {
            id: self.bridge_transfer_id.0@,
            initiator: self.initiator_address.0.0@,
            recipient: self.recipient_address.0@,
            hash_lock: self.hash_lock.0@,
            time_lock: self.time_lock.0,
            amount: self.amount.0,
        }
    }
}

/// The three events of the initiator contract, as the coordination layer sees them.
#[derive(Debug, Clone, Copy, PartialEq, Eq, Hash)]
pub enum BridgeContractInitiatorEvent {
    Initiated(BridgeTransferDetails),
    Completed(BridgeTransferId),
    Refunded(BridgeTransferId),
}

/// The mathematical content of a `BridgeContractInitiatorEvent`.
pub enum InitiatorEventModel {
    Initiated(DetailsModel),
    Completed(Seq<u8>),
    Refunded(Seq<u8>),
}

impl View for BridgeContractInitiatorEvent {
    type V = InitiatorEventModel;

    open spec fn view(&self) -> InitiatorEventModel {
        match self {
            BridgeContractInitiatorEvent::Initiated(d) => InitiatorEventModel::Initiated(d@),
            BridgeContractInitiatorEvent::Completed(id) => InitiatorEventModel::Completed(id.0@),
            BridgeContractInitiatorEvent::Refunded(id) => InitiatorEventModel::Refunded(id.0@),
        }
    }
}

/// The initiator contract's events with the revealed secret kept on completion.
#[derive(Debug, Clone, PartialEq, Eq)]
pub enum EthInitiatorEvent {
    InitiatedBridgeTransfer(BridgeTransferDetails),
    CompletedBridgeTransfer(BridgeTransferId, HashLockPreImage),
}

/// The counterparty contract's events.
#[derive(Debug, Clone, PartialEq, Eq)]
pub enum MoveCounterpartyEvent {
    LockedBridgeTransfer(LockDetails),
    CompletedBridgeTransfer(CompletedDetails),
}

#[derive(Debug, Clone, Copy, PartialEq, Eq, Structural)]
pub enum MoveCounterpartyError {
    TransferNotFound,
    InvalidHashLockPreImage,
}

#[derive(Debug, Clone, Copy, PartialEq, Eq, Structural)]
pub enum EthInitiatorError {
    InitiateTransferError,
    TransferNotFound,
    InvalidHashLockPreImage,
}

} // verus!
