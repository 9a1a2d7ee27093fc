//! Framing for the text-framed streaming variant: collecting incoming bytes
//! and locating the start of the next packet.

use vstd::prelude::*;

verus! {

/// The byte that opens every packet of the streaming protocol.
pub const PACKET_INDICATOR: u8 = 0x21;

/// Collects the bytes arriving from a stream and tracks where the current
/// packet candidate starts. The caller reads from its transport and hands
/// each chunk to [`PacketReader::feed`]; this type does no reading of its
/// own.
pub struct PacketReader {
    buf: Vec<u8>,
    start: usize,
}

impl PacketReader {
    /// The bytes collected so far.
    pub closed spec fn spec_buf(&self) -> Seq<u8> {
        self.buf@
    }

    /// Where the current packet candidate starts.
    pub closed spec fn spec_start(&self) -> int {
        self.start as int
    }

    /// The reader always points `start` at the first packet indicator of the
    /// collected bytes, or at their end when none has arrived yet.
    pub open spec fn wf(&self) -> bool {
        &&& 0 <= self.spec_start() <= self.spec_buf().len()
        &&& (self.spec_start() == self.spec_buf().len() || self.spec_buf()[self.spec_start()]
            == PACKET_INDICATOR)
        &&& forall|j: int|
            0 <= j < self.spec_start() ==> self.spec_buf()[j] != PACKET_INDICATOR
    }

    /// A fresh reader with nothing collected.
    pub fn new() -> (r: Self)
        ensures
            r.spec_buf() == Seq::<u8>::empty(),
            r.wf(),
    {
        PacketReader { buf: Vec::new(), start: 0 }
    }

    /// Hand the reader the next chunk read from the stream. The chunk is
    /// appended and the packet start advances to the first indicator byte, if
    /// one has now arrived.
    pub fn feed(&mut self, chunk: &[u8])
        requires
            old(self).wf(),
            old(self).spec_buf().len() + chunk@.len() <= usize::MAX,
        ensures
            final(self).spec_buf() == old(self).spec_buf() + chunk@,
            final(self).wf(),
    {
        let ghost orig = *self;
        let old_len = self.buf.len();
        let mut i: usize = 0;
        while i < chunk.len()
            invariant
                orig.wf(),
                i <= chunk@.len(),
                old_len == orig.spec_buf().len(),
                old_len + chunk@.len() <= usize::MAX,
                self.buf@ == orig.spec_buf() + chunk@.take(i as int),
                self.start == orig.spec_start(),
            decreases chunk@.len() - i,
        {
            self.buf.push(chunk[i]);
            proof {
                assert(orig.spec_buf() + chunk@.take(i as int) + seq![chunk@[i as int]]
                    =~= orig.spec_buf() + chunk@.take(i + 1));
            }
            i = i + 1;
        }
        proof {
            assert(chunk@.take(chunk@.len() as int) =~= chunk@);
        }
        if self.start == old_len {
            // Nothing found before: search the bytes that just arrived.
            match find_byte(PACKET_INDICATOR, chunk) {
                Some(pos) => {
                    self.start = old_len + pos;
                },
                None => {
                    self.start = self.buf.len();
                },
            }
        }
    }

    /// Where the current packet candidate starts in the collected bytes; the
    /// end of the collected bytes when no indicator has arrived.
    pub fn packet_start(&self) -> (r: usize)
        ensures
            r == self.spec_start(),
    {
        self.start
    }

    /// How many bytes have been collected.
    pub fn collected(&self) -> (r: usize)
        ensures
            r == self.spec_buf().len(),
    {
        self.buf.len()
    }

    /// Whether a packet indicator has arrived.
    pub fn has_packet(&self) -> (r: bool)
        requires
            self.wf(),
        ensures
            r == (self.spec_start() < self.spec_buf().len()),
    {
        self.start < self.buf.len()
    }
}

/// Relies on memchr::memchr: the returned index is the first occurrence of
/// `needle` in `haystack`, below the slice's length, and no earlier byte
/// equals the needle; `None` means the needle does not occur at all.
#[verifier::external_body]
fn find_byte(needle: u8, haystack: &[u8]) -> (r: Option<usize>)
    ensures
        match r {
            Some(i) => i < haystack@.len() && haystack@[i as int] == needle && forall|j: int|
                0 <= j < i ==> haystack@[j] != needle,
            None => forall|j: int| 0 <= j < haystack@.len() ==> haystack@[j] != needle,
        },
{
    memchr::memchr(needle, haystack)
}

} // verus!
