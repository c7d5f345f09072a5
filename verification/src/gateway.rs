//! The default gateway, as the platform reports it.

use vstd::prelude::*;
use crate::error::Error;
use crate::wire::spec_u32_be_bytes;

verus! {

/// Tells the default gateway from what the platform's lookup reported: its
/// status, which is 0 where it found a gateway, and the address that it
/// found, as a number whose most significant byte is the first octet.
pub fn get_default_gateway(status: i32, address: u32) -> (gateway: Result<[u8; 4], Error>)
    ensures
        match gateway {
            Ok(octets) => status == 0 && octets@ == spec_u32_be_bytes(address),
            Err(error) => status != 0 && error == Error::NATPMP_ERR_CANNOTGETGATEWAY,
        },
{
    if status == 0 {
        let octets: [u8; 4] = [
            (address / 16_777_216) as u8,
            (address / 65_536 % 256) as u8,
            (address / 256 % 256) as u8,
            (address % 256) as u8,
        ];
        assert(octets@ =~= spec_u32_be_bytes(address));
        return Ok(octets);
    }
    Err(Error::NATPMP_ERR_CANNOTGETGATEWAY)
}

} // verus!
