//! The Ethereum primitives that alloy-primitives computes for the library:
//! Keccak-256 digests and EIP-55 checksummed address parsing.
use vstd::prelude::*;

verus! {

/// The Keccak-256 digest of a byte string.
pub uninterp spec fn keccak256_of(bytes: Seq<u8>) -> Seq<u8>;

/// The 20 bytes that an EIP-55 checksummed address text stands for, if the
/// text is one.
pub uninterp spec fn checksummed_address_of(text: Seq<char>) -> Option<Seq<u8>>;

/// Relies on alloy_primitives::keccak256: the 32-byte Keccak-256 digest of the input.
#[verifier::external_body]
pub(crate) fn keccak256(bytes: &[u8]) -> (r: [u8; 32])
    ensures
        r@ == keccak256_of(bytes@),
{
    alloy_primitives::keccak256(bytes).0
}

/// Why a text is not a checksummed address.
#[derive(Debug, Clone, Copy, PartialEq, Eq, Structural)]
pub enum AddressParseError {
    /// Not `0x` followed by 40 hexadecimal digits.
    InvalidHex,
    /// Well-formed hexadecimal whose letter case breaks the EIP-55 checksum.
    InvalidChecksum,
    /// A byte string whose length is not that of an address.
    WrongLength,
}

/// Relies on alloy_primitives::Address::parse_checksummed (no chain id): the
/// address bytes when the text is a valid EIP-55 checksummed address, an error
/// otherwise.
#[verifier::external_body]
pub(crate) fn parse_checksummed(text: &str) -> (r: Result<[u8; 20], AddressParseError>)
    ensures
        match r {
            Ok(a) => checksummed_address_of(text@) == Some(a@),
            Err(e) => checksummed_address_of(text@).is_none() && e != AddressParseError::WrongLength,
        },
{
    match alloy_primitives::Address::parse_checksummed(text, None) {
        Ok(a) => Ok(a.0.0),
        Err(alloy_primitives::AddressError::Hex(_)) => Err(AddressParseError::InvalidHex),
        Err(alloy_primitives::AddressError::InvalidChecksum) => Err(AddressParseError::InvalidChecksum),
    }
}

} // verus!
