//! The three-byte request packet of the register protocol.

use vstd::prelude::*;

use crate::protocol::{crc7, get_crc, Packet};

verus! {

/// A packet to be sent to the board. Every packet is exactly three bytes long:
///
/// - **register byte**: bit 7 is the read/write flag (set for a write, clear
///   for a read) and bits 0 to 6 are the register address;
/// - **value byte**: when writing, the value to store at the address; when
///   reading, the number of bytes to read starting from the address;
/// - **checksum byte**: the CRC-7 of the first two bytes, computed after the
///   write flag is applied, so the checksum always covers the wire-exact
///   bytes.
#[derive(Clone, Copy, Debug, PartialEq, Eq, Structural)]
pub struct RegisterPacket {
    /// Write flag and register address.
    pub register: u8,
    /// Write payload or read length.
    pub value: u8,
    /// CRC-7 of the first two bytes; filled in while packing.
    pub checksum: u8,
}

impl RegisterPacket {
    /// The three wire bytes carrying the given register and value bytes.
    pub open spec fn wire_of(reg: u8, val: u8) -> Seq<u8> {
        seq![reg, val, crc7(seq![reg, val])]
    }

    /// Build a read request for `len` bytes starting at register `reg`.
    pub fn new(reg: u8, len: u8) -> (r: Self)
        ensures
            r.register == reg,
            r.value == len,
            r.checksum == 0,
    {
        RegisterPacket { register: reg, value: len, checksum: 0 }
    }
}

/// Compute the checksum over a register byte and a value byte.
fn checksum_of(reg: u8, val: u8) -> (r: u8)
    ensures
        r == crc7(seq![reg, val]),
{
    let bytes: [u8; 2] = [reg, val];
    proof {
        assert(bytes@.take(2) =~= seq![reg, val]);
    }
    get_crc(bytes.as_slice(), 2)
}

impl Packet for RegisterPacket {
    open spec fn wire_spec(&self) -> Seq<u8> {
        RegisterPacket::wire_of(self.register, self.value)
    }

    open spec fn wire_write_spec(&self) -> Seq<u8> {
        RegisterPacket::wire_of(self.register | 0x80, self.value)
    }

    fn len(&self) -> (r: usize) {
        3
    }

    fn pack(self) -> (r: Vec<u8>) {
        let c = checksum_of(self.register, self.value);
        let mut out: Vec<u8> = Vec::new();
        out.push(self.register);
        out.push(self.value);
        out.push(c);
        proof {
            assert(out@ =~= self.wire_spec());
        }
        out
    }

    fn pack_write(self) -> (r: Vec<u8>) {
        // The write flag joins the register byte before the checksum is
        // computed, so the checksum covers the flagged byte.
        let flagged = RegisterPacket {
            register: self.register | 0x80,
            value: self.value,
            checksum: self.checksum,
        };
        flagged.pack()
    }
}

/// Law: a read request for a 7-bit `address` and a `length` packs into three
/// bytes whose first two are exactly the address and the length, and whose
/// third is the checksum that validates against them.
pub proof fn lemma_read_request_round_trip(address: u8, length: u8)
    requires
        address < 0x80,
    ensures
        ({
            let wire = RegisterPacket::wire_of(address, length);
            &&& wire.len() == 3
            &&& wire[0] == address
            &&& wire[1] == length
            &&& crc7(wire.take(2)) == wire[2]
        }),
{
    let wire = RegisterPacket::wire_of(address, length);
    assert(wire.take(2) =~= seq![address, length]);
}

} // verus!
