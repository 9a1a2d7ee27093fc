//! The shared surface of the board protocol: the checksum, the packet and
//! decoding traits, the transport boundary, and the failure taxonomy.

use vstd::prelude::*;

pub mod ahrs;

verus! {

/// Polynomial of the board's 7-bit cyclic redundancy check. The device uses a
/// non-standard variant: least-significant-bit first, eight rounds per input
/// byte, no initial and no final exclusive-or.
pub const CRC7_POLY: u8 = 0x91;

/// One checksum round: fold the polynomial in when the low bit is set, then
/// shift the register right once.
pub open spec fn crc7_round(c: u8) -> u8 {
    if c & 1 == 1 {
        (c ^ CRC7_POLY) >> 1
    } else {
        c >> 1
    }
}

/// The eight checksum rounds that one input byte goes through.
pub open spec fn crc7_byte(c: u8) -> u8 {
    crc7_round(crc7_round(crc7_round(crc7_round(crc7_round(crc7_round(crc7_round(crc7_round(
        c,
    ))))))))
}

/// The board's checksum of a byte span: bytes are folded in left to right,
/// starting from a zero register.
pub open spec fn crc7(s: Seq<u8>) -> u8
    decreases s.len(),
{
    if s.len() == 0 {
        0
    } else {
        crc7_byte(crc7(s.drop_last()) ^ s.last())
    }
}

/// One executable checksum round, exactly [`crc7_round`].
fn crc7_round_step(c: u8) -> (r: u8)
    ensures
        r == crc7_round(c),
{
    if c & 1 == 1 {
        (c ^ CRC7_POLY) >> 1
    } else {
        c >> 1
    }
}

/// The eight executable rounds for one input byte, exactly [`crc7_byte`].
pub(crate) fn crc7_byte_step(c: u8) -> (r: u8)
    ensures
        r == crc7_byte(c),
{
    let c = crc7_round_step(c);
    let c = crc7_round_step(c);
    let c = crc7_round_step(c);
    let c = crc7_round_step(c);
    let c = crc7_round_step(c);
    let c = crc7_round_step(c);
    let c = crc7_round_step(c);
    crc7_round_step(c)
}

/// Checksum of the first `length` bytes of `message`.
pub fn get_crc(message: &[u8], length: usize) -> (r: u8)
    requires
        length <= message@.len(),
    ensures
        r == crc7(message@.take(length as int)),
{
    let mut crc: u8 = 0;
    let mut i: usize = 0;
    while i < length
        invariant
            i <= length,
            length <= message@.len(),
            crc == crc7(message@.take(i as int)),
        decreases length - i,
    {
        proof {
            assert(message@.take(i + 1).drop_last() =~= message@.take(i as int));
            assert(message@.take(i + 1).last() == message@[i as int]);
        }
        crc = crc7_byte_step(crc ^ message[i]);
        i = i + 1;
    }
    proof {
        assert(message@.take(length as int) =~= message@.take(i as int));
    }
    crc
}

/// Recompute the checksum of `payload` and compare it with the checksum byte
/// that came with a response frame.
pub fn validate_response(payload: &[u8], checksum: u8) -> (r: bool)
    ensures
        r == (crc7(payload@) == checksum),
{
    proof {
        assert(payload@.take(payload@.len() as int) =~= payload@);
    }
    get_crc(payload, payload.len()) == checksum
}

/// After its eight rounds, one input byte always leaves a 7-bit register.
pub proof fn lemma_crc7_byte_bound(c: u8)
    ensures
        crc7_byte(c) < 0x80,
{
    assert(crc7_byte(c) < 0x80) by (bit_vector);
}

/// The checksum of any span fits in 7 bits.
pub proof fn lemma_crc7_bound(s: Seq<u8>)
    ensures
        crc7(s) < 0x80,
    decreases s.len(),
{
    if s.len() == 0 {
    } else {
        lemma_crc7_byte_bound(crc7(s.drop_last()) ^ s.last());
    }
}

/// Two register values collide through the eight rounds only when they are
/// equal or differ exactly by the polynomial.
proof fn lemma_crc7_byte_collision(a: u8, b: u8)
    requires
        a != b,
        a ^ b != CRC7_POLY,
    ensures
        crc7_byte(a) != crc7_byte(b),
{
    assert(crc7_byte(a) != crc7_byte(b)) by (bit_vector)
        requires
            a != b,
            a ^ b != 0x91u8,
    ;
}

/// Law: the checksum leaves no single-bit corruption undetected. Flipping any
/// one bit of any byte of a span changes its checksum. (Determinism needs no
/// statement of its own: the checksum is a pure function of the span.)
pub proof fn lemma_crc7_single_bit_flip(s: Seq<u8>, i: int, k: u8)
    requires
        0 <= i < s.len(),
        k < 8,
    ensures
        crc7(s.update(i, s[i] ^ (1u8 << k))) != crc7(s),
    decreases s.len(),
{
    let t = s.update(i, s[i] ^ (1u8 << k));
    assert(t.len() == s.len());
    if i == s.len() - 1 {
        assert(t.drop_last() =~= s.drop_last());
        let c = crc7(s.drop_last());
        let a = c ^ s.last();
        let b = c ^ t.last();
        assert(t.last() == s[i] ^ (1u8 << k));
        let x = s.last();
        assert({
            let y = x ^ (1u8 << k);
            (c ^ x) != (c ^ y) && ((c ^ x) ^ (c ^ y)) != 0x91u8
        }) by (bit_vector)
            requires
                k < 8u8,
        ;
        lemma_crc7_byte_collision(a, b);
    } else {
        assert(t.drop_last() =~= s.drop_last().update(i, s.drop_last()[i] ^ (1u8 << k)));
        lemma_crc7_single_bit_flip(s.drop_last(), i, k);
        lemma_crc7_bound(s.drop_last());
        lemma_crc7_bound(t.drop_last());
        let c1 = crc7(s.drop_last());
        let c2 = crc7(t.drop_last());
        let x = s.last();
        assert(t.last() == x);
        assert({
            (c1 ^ x) != (c2 ^ x) && ((c1 ^ x) ^ (c2 ^ x)) != 0x91u8
        }) by (bit_vector)
            requires
                c1 != c2,
                c1 < 0x80u8,
                c2 < 0x80u8,
        ;
        lemma_crc7_byte_collision(c1 ^ x, c2 ^ x);
    }
}

/// How one request attempt can fail, as the polling worker classifies it:
/// a `Transient` attempt is silently retried, an `Invalid` attempt is one
/// discarded exchange, and a `Fatal` failure stops the worker for good.
#[derive(Clone, Copy, Debug, PartialEq, Eq, Structural)]
pub enum Failure {
    /// A short or interrupted exchange; the next attempt may well succeed.
    Transient,
    /// The response frame failed its checksum or did not decode; the attempt
    /// is discarded and the connection is still presumed healthy.
    Invalid,
    /// The transport itself is broken; no further attempt is made.
    Fatal(FatalReason),
}

/// Why a transport is considered broken. The value is copyable so that any
/// number of observers can re-read a cached failure.
#[derive(Clone, Copy, Debug, PartialEq, Eq, Structural)]
pub enum FatalReason {
    /// Fewer bytes than a whole request packet were accepted.
    ShortWrite,
    /// The worker that owned the transport is gone without an answer.
    Disconnected,
    /// A device or operating-system error, carried as its raw code.
    Device(i32),
}

/// A duplex byte channel to the board: the one capability this crate consumes.
/// Implementations wrap the actual bus; the driver never inspects bus
/// configuration. Both operations may block.
pub trait Transport {
    /// Write the given bytes; the count actually accepted is returned and may
    /// fall short of `data.len()`.
    fn write(&mut self, data: &[u8]) -> Result<usize, Failure>;

    /// Read up to `max` bytes; fewer may arrive.
    fn read(&mut self, max: usize) -> Result<Vec<u8>, Failure>;
}

/// One blocking request/response exchange producing a `T`. The watcher polls
/// through this trait; [`crate::register::RegisterIO`] implements it over any
/// [`Transport`].
pub trait Request<T> {
    /// Request to read a value. This operation is blocking.
    fn read(&mut self) -> Result<T, Failure>;
}

/// A typed value with an infallible decode from a byte span of fixed width.
pub trait FromBuffer: Sized {
    /// The width the decoder consumes.
    spec fn fixed_len() -> nat;

    /// What the decoder returns for a span.
    spec fn read_spec(b: Seq<u8>) -> Self;

    /// Decode the leading `fixed_len` bytes of `buf`.
    fn read(buf: &[u8]) -> (r: Self)
        requires
            buf@.len() >= Self::fixed_len(),
        ensures
            r == Self::read_spec(buf@),
    ;
}

/// A typed value whose decode may fail even on a span of the right width,
/// for layouts with interior encodings that reject some bit patterns.
pub trait FromBufferFallible: Sized {
    /// The width the decoder consumes.
    spec fn buffer_len() -> nat;

    /// What the decoder returns for a span: the value, or nothing when the
    /// span does not decode.
    spec fn decode_spec(b: Seq<u8>) -> Option<Self>;

    /// Decode the leading `buffer_len` bytes of `buf`.
    fn try_read(buf: &[u8]) -> (r: Option<Self>)
        requires
            buf@.len() >= Self::buffer_len(),
        ensures
            r == Self::decode_spec(buf@),
    ;
}

impl<T: FromBuffer> FromBufferFallible for T {
    open spec fn buffer_len() -> nat {
        T::fixed_len()
    }

    open spec fn decode_spec(b: Seq<u8>) -> Option<T> {
        Some(T::read_spec(b))
    }

    fn try_read(buf: &[u8]) -> (r: Option<T>) {
        Some(T::read(buf))
    }
}

/// A request packet that can be serialized to its wire bytes. The checksum is
/// computed while packing, so the packed bytes are always self-consistent.
pub trait Packet: Sized {
    /// The wire bytes of the packet as a read command.
    spec fn wire_spec(&self) -> Seq<u8>;

    /// The wire bytes of the packet as a write command.
    spec fn wire_write_spec(&self) -> Seq<u8>;

    /// How many bytes the packed packet occupies.
    fn len(&self) -> (r: usize)
        ensures
            r == self.wire_spec().len(),
            r == self.wire_write_spec().len(),
    ;

    /// Serialize as a read command.
    fn pack(self) -> (r: Vec<u8>)
        ensures
            r@ == self.wire_spec(),
    ;

    /// Serialize as a write command: the write flag is raised before the
    /// checksum is computed, so the checksum covers the flagged bytes.
    fn pack_write(self) -> (r: Vec<u8>)
        ensures
            r@ == self.wire_write_spec(),
    ;
}

/// Capabilities and limits reported by a board; filled in by the handshake
/// that a host performs when it first opens a transport.
pub struct BoardSpec {}

/// The handle an application holds on a board, wrapping the transport-level
/// driver `T` together with what is known about the board.
pub struct NavX<T> {
    inner: T,
    board: BoardSpec,
}

impl<T> NavX<T> {
    /// The wrapped transport-level driver.
    pub closed spec fn spec_inner(&self) -> &T {
        &self.inner
    }

    /// Wrap a transport-level driver.
    pub fn init(io: T) -> (r: Self)
        ensures
            r.spec_inner() == io,
    {
        NavX { inner: io, board: BoardSpec {} }
    }

    /// Hand the transport-level driver back.
    pub fn into_inner(self) -> (r: T)
        ensures
            r == self.spec_inner(),
    {
        self.inner
    }
}

/// The driver for the text-framed streaming variant of the protocol; only its
/// shared decoders live in this crate.
pub struct SerialIO<T> {
    inner: T,
}

impl<T> SerialIO<T> {
    /// The wrapped byte channel.
    pub closed spec fn spec_inner(&self) -> &T {
        &self.inner
    }

    /// Wrap a byte channel.
    pub fn new(inner: T) -> (r: Self)
        ensures
            r.spec_inner() == inner,
    {
        SerialIO { inner }
    }
}

} // verus!
