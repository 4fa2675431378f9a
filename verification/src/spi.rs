//! The wire protocol: a five-octet frame per register operation.
//!
//! Octet 0 packs the transfer direction into its high bit and the seven-bit
//! register address into its low bits; octets 1 to 4 carry the 32-bit payload
//! most-significant byte first.
use vstd::prelude::*;

use crate::Tmc4671Error;

pub mod constants;
pub mod registers;

verus! {

/// Mask of the first wire octet's direction bit: set for a write, clear for
/// a read.  The low seven bits of that octet are the register address.
pub const ADDR_WRITE_BIT: u8 = 0x80;

/// One logical register operation: a direction, a seven-bit register
/// address, and a 32-bit payload.
#[derive(Debug, Copy, Clone, PartialEq, Eq, Structural)]
pub struct Datagram {
    pub write_not_read: bool,
    pub address: u8,
    pub data: u32,
}

impl Datagram {
    /// A well-formed datagram keeps its address within the low seven bits,
    /// so that the direction flag alone occupies the high bit of octet 0.
    pub open spec fn wf(self) -> bool {
        self.address < ADDR_WRITE_BIT
    }

    /// The five wire octets of this datagram: direction and address packed
    /// into octet 0, the payload big-endian in octets 1 to 4.
    pub open spec fn spec_bytes(self) -> Seq<u8> {
        seq![
            if self.write_not_read {
                self.address | ADDR_WRITE_BIT
            } else {
                self.address
            },
            ((self.data >> 24) & 0xff) as u8,
            ((self.data >> 16) & 0xff) as u8,
            ((self.data >> 8) & 0xff) as u8,
            (self.data & 0xff) as u8,
        ]
    }

    /// The datagram read from the first five octets of a buffer: the high
    /// bit of octet 0 is the direction, its low seven bits the address, and
    /// octets 1 to 4 the big-endian payload.
    pub open spec fn spec_parse(bytes: Seq<u8>) -> Datagram
        recommends
            bytes.len() >= 5,
    {
        Datagram {
            write_not_read: bytes[0] & ADDR_WRITE_BIT != 0,
            address: bytes[0] & 0x7f,
            data: (bytes[1] as u32) << 24 | (bytes[2] as u32) << 16 | (bytes[3] as u32) << 8
                | (bytes[4] as u32),
        }
    }

    /// Encode this datagram into its five wire octets.
    pub fn bytes(&self) -> (out: [u8; 5])
        requires
            self.wf(),
        ensures
            out@ == self.spec_bytes(),
    {
        let mut out: [u8; 5] = [0u8; 5];

        out[0] = self.address;
        if self.write_not_read {
            out[0] = out[0] | ADDR_WRITE_BIT;
        }

        proof {
            let x = self.data;
            assert(((x >> 24) & 0xff) < 256 && ((x >> 16) & 0xff) < 256 && ((x >> 8) & 0xff)
                < 256 && (x & 0xff) < 256) by (bit_vector);
        }
        out[1] = ((self.data >> 24) & 0xff) as u8;
        out[2] = ((self.data >> 16) & 0xff) as u8;
        out[3] = ((self.data >> 8) & 0xff) as u8;
        out[4] = (self.data & 0xff) as u8;

        assert(out@ =~= self.spec_bytes());
        out
    }

    /// Decode a received buffer into a datagram.  Fails exactly when fewer
    /// than five octets are available; only the first five are consulted.
    pub fn parse(input: &[u8]) -> (r: Result<Datagram, Tmc4671Error>)
        ensures
            input@.len() >= 5 ==> (r matches Ok(d) && d == Self::spec_parse(input@)),
            input@.len() < 5 ==> (r matches Err(e) && e is ParseError),
    {
        if input.len() < 5 {
            return Err(Tmc4671Error::ParseError);
        }

        let b0: u8 = input[0];
        let data: u32 = (input[1] as u32) << 24 | (input[2] as u32) << 16 | (input[3] as u32)
            << 8 | (input[4] as u32);

        let datagram = Datagram {
            write_not_read: (b0 & ADDR_WRITE_BIT) != 0,
            address: b0 & 0x7f,
            data,
        };

        Ok(datagram)
    }
}

/// The request datagram of a register read: payload conventionally zero,
/// ignored by the device.
pub open spec fn read_request(register: u8) -> Datagram {
    Datagram { write_not_read: false, address: register, data: 0 }
}

/// The request datagram of a register write carrying `data`.
pub open spec fn write_request(register: u8, data: u32) -> Datagram {
    Datagram { write_not_read: true, address: register, data }
}

/// Law: decoding is the inverse of encoding.  For every well-formed datagram
/// the five encoded octets parse back to the identical datagram.
pub proof fn lemma_bytes_parse_round_trip(d: Datagram)
    requires
        d.wf(),
    ensures
        Datagram::spec_parse(d.spec_bytes()) == d,
{
    let a = d.address;
    let x = d.data;
    assert(a < 0x80 ==> ((a | 0x80) & 0x80) != 0 && ((a | 0x80) & 0x7f) == a) by (bit_vector);
    assert(a < 0x80 ==> (a & 0x80) == 0 && (a & 0x7f) == a) by (bit_vector);
    assert(((x >> 24) & 0xff) < 256 && ((x >> 16) & 0xff) < 256 && ((x >> 8) & 0xff) < 256 && (
    x & 0xff) < 256) by (bit_vector);
    assert(x == ((x >> 24) & 0xff) << 24 | ((x >> 16) & 0xff) << 16 | ((x >> 8) & 0xff) << 8 | (
    x & 0xff)) by (bit_vector);
}

/// Law: the direction bit never overlaps the address bits.  In the encoding
/// of a well-formed datagram, octet 0's low seven bits are exactly the
/// address and its high bit is set exactly for a write.
pub proof fn lemma_direction_bit_isolation(d: Datagram)
    requires
        d.wf(),
    ensures
        d.spec_bytes()[0] & 0x7f == d.address,
        (d.spec_bytes()[0] & ADDR_WRITE_BIT != 0) <==> d.write_not_read,
        !d.write_not_read ==> d.spec_bytes()[0] == d.address,
{
    let a = d.address;
    assert(a < 0x80 ==> ((a | 0x80) & 0x80) != 0 && ((a | 0x80) & 0x7f) == a) by (bit_vector);
    assert(a < 0x80 ==> (a & 0x80) == 0 && (a & 0x7f) == a) by (bit_vector);
}

/// Law: decoding never lets the direction bit leak into the address.  A
/// datagram parsed from any buffer is well formed.
pub proof fn lemma_parse_wf(bytes: Seq<u8>)
    requires
        bytes.len() >= 5,
    ensures
        Datagram::spec_parse(bytes).wf(),
{
    let b0 = bytes[0];
    assert((b0 & 0x7f) < 0x80) by (bit_vector);
}

/// Law: decoding consults only the first five octets.  Two buffers that
/// agree on those octets parse to the same datagram.
pub proof fn lemma_parse_uses_prefix_only(b1: Seq<u8>, b2: Seq<u8>)
    requires
        b1.len() >= 5,
        b2.len() >= 5,
        b1.subrange(0, 5) == b2.subrange(0, 5),
    ensures
        Datagram::spec_parse(b1) == Datagram::spec_parse(b2),
{
    assert forall|i: int| 0 <= i < 5 implies b1[i] == b2[i] by {
        assert(b1.subrange(0, 5)[i] == b1[i]);
        assert(b2.subrange(0, 5)[i] == b2[i]);
    }
}

} // verus!
