//! Reading what a stream still holds locked.

use vstd::prelude::*;
use crate::fee_router::FeeRouterError;

verus! {

/// The number that the first eight bytes of `b` spell, least significant
/// byte first.
pub open spec fn le_u64(b: Seq<u8>) -> nat {
    (b[0] as nat) + (b[1] as nat) * 0x100 + (b[2] as nat) * 0x1_0000 + (b[3] as nat) * 0x100_0000
        + (b[4] as nat) * 0x1_0000_0000 + (b[5] as nat) * 0x100_0000_0000 + (b[6] as nat)
        * 0x1_0000_0000_0000 + (b[7] as nat) * 0x100_0000_0000_0000
}

/// What a stream's record says is still locked: its first eight bytes,
/// little-endian; nothing where the record is shorter than that.
pub open spec fn locked_in(data: Seq<u8>) -> nat {
    if data.len() < 8 {
        0
    } else {
        le_u64(data)
    }
}

/// A way of reading the still-locked amount out of a stream's record.
pub trait StreamLockedReader {
    /// The amount that the stream with the record `data` still has locked.
    fn locked_amount(data: &[u8]) -> Result<u64, FeeRouterError>;
}

impl StreamLockedReader for () {
    /// Reads the first eight bytes as a little-endian number.
    fn locked_amount(data: &[u8]) -> (r: Result<u64, FeeRouterError>)
        ensures
            r == Ok::<u64, FeeRouterError>(locked_in(data@) as u64),
            locked_in(data@) <= u64::MAX,
    {
        if data.len() < 8 {
            return Ok(0);
        }
        let value: u64 = (data[0] as u64) + (data[1] as u64) * 0x100 + (data[2] as u64) * 0x1_0000
            + (data[3] as u64) * 0x100_0000 + (data[4] as u64) * 0x1_0000_0000 + (data[5] as u64)
            * 0x100_0000_0000 + (data[6] as u64) * 0x1_0000_0000_0000 + (data[7] as u64)
            * 0x100_0000_0000_0000;
        Ok(value)
    }
}

} // verus!
