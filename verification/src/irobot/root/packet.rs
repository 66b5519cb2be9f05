//! The packet that carries a command: twenty bytes, the last of them a
//! checksum over the nineteen before it.

use crc::{Algorithm, Crc};
use vstd::prelude::*;

verus! {

/// Every packet on the wire is this long.
pub const PACKET_LEN: usize = 20;

/// The part of a packet that the checksum covers: everything but the last byte.
pub const BODY_LEN: usize = 19;

/// Generator polynomial of the packet checksum (x^8 + x^2 + x + 1).
pub const CRC_POLY: u8 = 0x07;

/// Initial value of the checksum register.
pub const CRC_INIT: u8 = 0x00;

/// Value xor-ed onto the register at the end.
pub const CRC_XOROUT: u8 = 0x00;

/// The 8-bit CRC of `bytes` under the given parameters (generator polynomial,
/// initial register, input and output reflection, final xor), as the `crc`
/// crate computes it.
pub uninterp spec fn crc8_checksum(
    poly: u8,
    init: u8,
    refin: bool,
    refout: bool,
    xorout: u8,
    bytes: Seq<u8>,
) -> u8;

/// The checksum that closes a packet whose first bytes are `body`:
/// CRC-8 with polynomial 0x07, register starting at zero, no reflection of
/// input or output, nothing xor-ed at the end.
pub open spec fn packet_checksum(body: Seq<u8>) -> u8 {
    crc8_checksum(CRC_POLY, CRC_INIT, false, false, CRC_XOROUT, body)
}

/// `payload` followed by as many zero bytes as it takes to fill the body of
/// a packet.
pub open spec fn zero_padded(payload: Seq<u8>) -> Seq<u8>
    recommends
        payload.len() <= BODY_LEN,
{
    payload + Seq::new((BODY_LEN - payload.len()) as nat, |i: int| 0u8)
}

/// The packet that carries `payload`: the padded body, then its checksum.
pub open spec fn checked_packet(payload: Seq<u8>) -> Seq<u8>
    recommends
        payload.len() <= BODY_LEN,
{
    zero_padded(payload).push(packet_checksum(zero_padded(payload)))
}

/// Trusted: `crc::Crc::<u8>::new` on an `Algorithm` with the packet's
/// parameters, then `Crc::<u8>::checksum` over `bytes`. The crate runs the
/// register over the bytes in order and reads nothing else, so the result is
/// the CRC that these parameters and these bytes determine; `check` and
/// `residue` only document an algorithm and are never read.
#[verifier::external_body]
fn crc8_of(bytes: &[u8]) -> (sum: u8)
    ensures
        sum == crc8_checksum(CRC_POLY, CRC_INIT, false, false, CRC_XOROUT, bytes@),
{
    Crc::<u8>::new(
        &Algorithm {
            poly: CRC_POLY,
            init: CRC_INIT,
            refin: false,
            refout: false,
            xorout: CRC_XOROUT,
            check: 0x00,
            residue: 0x00,
        },
    ).checksum(bytes)
}

/// Fills `packet` with zero bytes up to the length of a packet body.
pub fn pad_packet(mut packet: Vec<u8>) -> (body: Vec<u8>)
    requires
        packet@.len() < PACKET_LEN,
    ensures
        body@ == zero_padded(packet@),
        body@.len() == BODY_LEN,
{
    let ghost payload = packet@;
    while packet.len() < BODY_LEN
        invariant
            payload.len() <= packet@.len() <= BODY_LEN,
            packet@ == payload + Seq::new((packet@.len() - payload.len()) as nat, |i: int| 0u8),
        decreases BODY_LEN - packet@.len(),
    {
        packet.push(0x00);
    }
    packet
}

/// Closes a packet body with its checksum byte.
pub fn seal_packet(mut body: Vec<u8>, checksum: u8) -> (packet: Vec<u8>)
    requires
        body@.len() == BODY_LEN,
    ensures
        packet@ == body@.push(checksum),
        packet@.len() == PACKET_LEN,
{
    body.push(checksum);
    body
}

/// Builds the packet that goes on the wire for `packet`, the bytes of one
/// command: device, command, request id and parameters.
///
/// The command is padded with zeros to 19 bytes; byte 19 is the checksum of
/// those 19 bytes, so it depends on nothing but them.
pub fn build_checked_packet(packet: Vec<u8>) -> (checked: Vec<u8>)
    requires
        packet@.len() < PACKET_LEN,
    ensures
        checked@ == checked_packet(packet@),
        checked@.len() == PACKET_LEN,
        checked@.subrange(0, BODY_LEN as int) == zero_padded(packet@),
        checked@[BODY_LEN as int] == packet_checksum(checked@.subrange(0, BODY_LEN as int)),
{
    let body = pad_packet(packet);
    let checksum = crc8_of(body.as_slice());
    let checked = seal_packet(body, checksum);
    assert(checked@.subrange(0, BODY_LEN as int) == zero_padded(packet@));
    checked
}

} // verus!
