//! Device identity and small byte utilities.
//!
//! The node derives its stable identifier from the factory MAC address;
//! the bus glue reads the six address bytes, this module folds them.
//! Fixed-width wire fields (model name, network name) are built from
//! byte strings with [`to_array`].

use vstd::prelude::*;

use vstd::array::ArrayAdditionalExecFns;

verus! {

/// Zero-pads a byte string into a fixed-width array: the bytes of `s`
/// first, zeroes after.
pub fn to_array<const N: usize>(s: &[u8]) -> (a: [u8; N])
    requires
        s@.len() <= N,
    ensures
        forall|k: int| 0 <= k < s@.len() ==> a@[k] == s@[k],
        forall|k: int| s@.len() <= k < N ==> a@[k] == 0,
{
    let mut a: [u8; N] = [0; N];
    let n: usize = s.len();
    let mut i: usize = 0;
    while i < n
        invariant
            n == s@.len(),
            n <= N,
            i <= n,
            forall|k: int| 0 <= k < i ==> a@[k] == s@[k],
            forall|k: int| i <= k < N ==> a@[k] == 0,
        decreases n - i,
    {
        a.set(i, s[i]);
        i += 1;
    }
    a
}

/// The 32-bit device id of a MAC address: the first four bytes taken as
/// a little-endian word, xor-folded with the last two bytes taken as a
/// little-endian half-word.
pub open spec fn spec_device_id(mac: [u8; 6]) -> u32 {
    ((mac[0] + mac[1] * 0x100 + mac[2] * 0x10000 + mac[3] * 0x1000000) as u32) ^ ((mac[4] + mac[5]
        * 0x100) as u32)
}

/// Folds a MAC address into the node's stable 32-bit device id.
pub fn device_id(mac: &[u8; 6]) -> (id: u32)
    ensures
        id == spec_device_id(*mac),
{
    let v1: u32 = mac[0] as u32 + (mac[1] as u32) * 0x100 + (mac[2] as u32) * 0x10000 + (
    mac[3] as u32) * 0x1000000;
    let v2: u32 = mac[4] as u32 + (mac[5] as u32) * 0x100;
    v1 ^ v2
}

} // verus!
