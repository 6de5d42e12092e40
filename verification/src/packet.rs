//! The packet entity and its header codec.
//!
//! A datagram's first six bytes encode the destination to relay to: four
//! address octets followed by a big-endian port. Before transmission the
//! relay overwrites those six bytes with the original sender's address and
//! port, so the far end can reply through the relay.

use vstd::prelude::*;
use crate::buffer::Buffer;
use crate::buffer::MAX_BUFFER_SIZE;

verus! {

/// An IPv4 address (four octets) and a port.
#[derive(Clone, Copy, PartialEq, Eq, Debug)]
pub struct Endpoint {
    pub ip: (u8, u8, u8, u8),
    pub port: u16,
}

impl Endpoint {
    /// The six-byte wire encoding: the address octets, then the port in
    /// big-endian order.
    pub open spec fn wire_bytes(self) -> Seq<u8> {
        seq![
            self.ip.0,
            self.ip.1,
            self.ip.2,
            self.ip.3,
            (self.port / 256) as u8,
            (self.port % 256) as u8,
        ]
    }
}

/// Why a datagram's header could not be parsed.
#[derive(Clone, Copy, PartialEq, Eq, Debug)]
pub enum PacketError {
    /// The payload is too short; this many more bytes are needed.
    InvalidLength(usize),
    /// The address octets could not be extracted.
    InvalidAddress,
    /// The port could not be extracted.
    InvalidPort,
}

/// The destination encoded in the first six bytes of a payload.
pub open spec fn spec_destination(bytes: Seq<u8>) -> Endpoint
    recommends
        bytes.len() >= 6,
{
    Endpoint {
        ip: (bytes[0], bytes[1], bytes[2], bytes[3]),
        port: (bytes[4] * 256 + bytes[5]) as u16,
    }
}

/// What parsing a payload yields: the destination when at least six bytes
/// are present, otherwise the exact shortfall, counted first toward the
/// four address octets and then toward the two port bytes.
pub open spec fn spec_parse_destination(bytes: Seq<u8>) -> Result<Endpoint, PacketError> {
    if bytes.len() < 4 {
        Err(PacketError::InvalidLength((4 - bytes.len()) as usize))
    } else if bytes.len() < 6 {
        Err(PacketError::InvalidLength((6 - bytes.len()) as usize))
    } else {
        Ok(spec_destination(bytes))
    }
}

/// Extract the destination from the start of a payload.
pub fn parse_destination(payload: &[u8]) -> (r: Result<Endpoint, PacketError>)
    ensures
        r == spec_parse_destination(payload@),
        payload@.len() >= 6 <==> r is Ok,
{
    let n = payload.len();
    if n < 4 {
        Err(PacketError::InvalidLength(4 - n))
    } else if n < 6 {
        Err(PacketError::InvalidLength(6 - n))
    } else {
        let b0 = *vstd::slice::slice_index_get(payload, 0);
        let b1 = *vstd::slice::slice_index_get(payload, 1);
        let b2 = *vstd::slice::slice_index_get(payload, 2);
        let b3 = *vstd::slice::slice_index_get(payload, 3);
        let hi = *vstd::slice::slice_index_get(payload, 4);
        let lo = *vstd::slice::slice_index_get(payload, 5);
        let port: u16 = (hi as u16) * 256 + (lo as u16);
        Ok(Endpoint { ip: (b0, b1, b2, b3), port })
    }
}

/// A datagram accepted for scheduling: where it goes, its bytes, and the
/// time at which it becomes eligible for transmission.
#[derive(Debug)]
pub struct Packet {
    pub dst: Endpoint,
    pub data: Buffer,
    pub exit_time: u64,
}

impl Packet {
    /// Parse the destination from the first bytes of `data[0..len]`; on
    /// success, overwrite the first six bytes with the original sender's
    /// address and port, leave the rest of the payload untouched, and set
    /// the logical length to `len`. On failure the buffer comes back
    /// unmodified together with the error.
    pub fn create(orig: &Endpoint, data: Buffer, len: usize, exit_time: u64) -> (r: Result<
        Packet,
        (PacketError, Buffer),
    >)
        requires
            data.wf(),
            len <= MAX_BUFFER_SIZE,
        ensures
            (len >= 6) == r is Ok,
            r matches Ok(p) ==> p.dst == spec_destination(data.storage().take(len as int))
                && p.data.wf() && p.data.spec_len() == len && p.data.storage()
                == orig.wire_bytes() + data.storage().skip(6) && p.exit_time == exit_time,
            r matches Err(e) ==> e.0 == spec_parse_destination(data.storage().take(len as int))->Err_0
                && e.1 == data,
    {
        let mut data = data;
        let ghost orig_storage = data.storage();
        let dst = match parse_destination(data.prefix(len)) {
            Ok(dst) => dst,
            Err(e) => {
                return Err((e, data));
            },
        };
        data.set_byte(0, orig.ip.0);
        data.set_byte(1, orig.ip.1);
        data.set_byte(2, orig.ip.2);
        data.set_byte(3, orig.ip.3);
        data.set_byte(4, (orig.port / 256) as u8);
        data.set_byte(5, (orig.port % 256) as u8);
        data.set_len(len);
        proof {
            assert(data.storage() =~= orig.wire_bytes() + orig_storage.skip(6));
        }
        Ok(Packet { dst, data, exit_time })
    }

    /// How long until this packet is due, saturated at zero: a packet
    /// already due yields a zero wait.
    pub fn get_duration_till_next(&self, now: u64) -> (r: Option<u64>)
        ensures
            r == Some(
                if now <= self.exit_time {
                    (self.exit_time - now) as u64
                } else {
                    0u64
                },
            ),
    {
        if now <= self.exit_time {
            Some(self.exit_time - now)
        } else {
            Some(0)
        }
    }

    /// The packet's destination.
    pub fn dst(&self) -> (r: Endpoint)
        ensures
            r == self.dst,
    {
        self.dst
    }
}

} // verus!
