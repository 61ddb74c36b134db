use vstd::prelude::*;
use crate::errors::ServiceError;

verus! {

/// Length in bytes of a binary destination address.
pub const ADDRESS_SIZE: usize = 20;

/// An on-chain-executable output produced during advance processing.
///
/// Invariant enforced before any device write: `destination` is a
/// `0x`-prefixed hex string of exactly `2 * ADDRESS_SIZE + 2` bytes.
pub struct Voucher {
    pub destination: String,
    pub payload: Vec<u8>,
}

/// An off-chain-verifiable output produced during advance processing.
pub struct Notice {
    pub payload: Vec<u8>,
}

/// A diagnostic output with no on-chain effect.
pub struct Report {
    pub payload: Vec<u8>,
}

/// The diagnostic record a DApp emits when it cannot proceed; by protocol
/// convention the last record of a processing cycle, which this layer does
/// not enforce.
pub struct RollupException {
    pub payload: Vec<u8>,
}

/// A generic I/O passthrough request; the device answers with raw bytes.
pub struct GIORequest {
    pub domain: u16,
    pub id: Vec<u8>,
    pub payload: Vec<u8>,
}

/// A well-formed voucher destination: exactly `2 * ADDRESS_SIZE + 2` bytes
/// in its UTF-8 encoding, beginning with the two bytes `"0x"` (0x30, 0x78).
pub open spec fn valid_destination(dest: Seq<char>) -> bool {
    let bytes = vstd::utf8::encode_utf8(dest);
    &&& bytes.len() == 2 * ADDRESS_SIZE + 2
    &&& bytes[0] == 48u8
    &&& bytes[1] == 120u8
}

impl Voucher {
    /// Whether this voucher's destination is well formed.
    pub fn has_valid_destination(&self) -> (r: bool)
        ensures
            r == valid_destination(self.destination@),
    {
        let bytes: &[u8] = self.destination.as_str().as_bytes();
        bytes.len() == 2 * ADDRESS_SIZE + 2 && bytes[0] == 48u8 && bytes[1] == 120u8
    }
}

/// Screens a voucher before it may reach the device: a malformed destination
/// is rejected here, with no device interaction.
pub fn validate_voucher(voucher: &Voucher) -> (r: Result<(), ServiceError>)
    ensures
        r is Ok <==> valid_destination(voucher.destination@),
        r is Err ==> r->Err_0 == ServiceError::InvalidAddress,
{
    if voucher.has_valid_destination() {
        Ok(())
    } else {
        Err(ServiceError::InvalidAddress)
    }
}

} // verus!
