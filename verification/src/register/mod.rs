//! The register protocol: one blocking request/response exchange per record,
//! with checksum validation and decoding of the response frame.

use vstd::prelude::*;
use vstd::slice::slice_subrange;

use crate::protocol::{crc7, validate_response, Failure, FatalReason, FromBufferFallible, Packet, Request, Transport};
use crate::register::packet::RegisterPacket;
use crate::register::storage::Addressable;
use crate::watch::{CacheEntry, Watch, Watcher};

pub mod packet;
pub mod storage;

verus! {

/// What a response frame of `buffer_len + 1` bytes stands for: the decoded
/// record when the checksum over the payload matches the trailing checksum
/// byte and the payload decodes, and an invalid attempt otherwise. A frame
/// that fails its checksum is never decoded.
pub open spec fn response_outcome<V: FromBufferFallible>(frame: Seq<u8>) -> Result<V, Failure>
    recommends
        frame.len() == V::buffer_len() + 1,
{
    let payload = frame.take(frame.len() - 1);
    if crc7(payload) != frame.last() {
        Err(Failure::Invalid)
    } else {
        match V::decode_spec(payload) {
            Some(v) => Ok(v),
            None => Err(Failure::Invalid),
        }
    }
}

/// Validate and decode one response frame: `buffer_len` payload bytes
/// followed by one checksum byte.
pub fn process_response<V: FromBufferFallible>(frame: &[u8]) -> (r: Result<V, Failure>)
    requires
        frame@.len() == V::buffer_len() + 1,
    ensures
        r == response_outcome::<V>(frame@),
{
    let n = frame.len();
    let checksum = frame[n - 1];
    let payload = slice_subrange(frame, 0, n - 1);
    proof {
        assert(payload@ =~= frame@.take(frame@.len() - 1));
        assert(frame@.last() == checksum);
    }
    if !validate_response(payload, checksum) {
        return Err(Failure::Invalid);
    }
    match V::try_read(payload) {
        Some(v) => Ok(v),
        None => Err(Failure::Invalid),
    }
}

/// What one transport write of a request's wire bytes stands for: success
/// exactly when the transport accepted the full length; any other count is
/// the fatal short-write failure; a transport error passes through
/// unchanged.
pub open spec fn write_outcome(expected: nat, outcome: Result<usize, Failure>) -> Result<
    (),
    Failure,
> {
    match outcome {
        Ok(n) => if n == expected {
            Ok(())
        } else {
            Err(Failure::Fatal(FatalReason::ShortWrite))
        },
        Err(e) => Err(e),
    }
}

/// Classify a transport write result against the byte count that was handed
/// out.
fn classify_write(expected: usize, outcome: Result<usize, Failure>) -> (r: Result<(), Failure>)
    ensures
        r == write_outcome(expected as nat, outcome),
{
    match outcome {
        Ok(n) => {
            if n == expected {
                Ok(())
            } else {
                Err(Failure::Fatal(FatalReason::ShortWrite))
            }
        },
        Err(e) => Err(e),
    }
}

/// What a whole frame read back from the transport stands for: a frame of
/// the wrong length is one transient attempt, since short reads on a polled
/// bus are often momentary; a frame of the right length is classified by
/// [`response_outcome`].
pub open spec fn frame_outcome<V: FromBufferFallible>(frame: Seq<u8>) -> Result<V, Failure> {
    if frame.len() != V::buffer_len() + 1 {
        Err(Failure::Transient)
    } else {
        response_outcome::<V>(frame)
    }
}

/// Classify whatever frame came back from the transport for the record `V`:
/// a wrong-length frame is transient, a right-length frame is validated and
/// decoded.
pub fn process_frame<V: Addressable>(frame: &[u8]) -> (r: Result<V, Failure>)
    ensures
        r == frame_outcome::<V>(frame@),
{
    let len = V::len();
    if frame.len() != len as usize + 1 {
        return Err(Failure::Transient);
    }
    process_response::<V>(frame)
}

/// What one whole request/response exchange stands for, given what the
/// transport did with the three wire bytes of the request and what it
/// answered: the classified write result, then a read error passed through,
/// then the classification of the returned frame.
pub open spec fn exchange_outcome<V: FromBufferFallible>(
    written: Result<usize, Failure>,
    answered: Result<Seq<u8>, Failure>,
) -> Result<V, Failure> {
    match write_outcome(3, written) {
        Err(e) => Err(e),
        Ok(()) => match answered {
            Err(e) => Err(e),
            Ok(frame) => frame_outcome::<V>(frame),
        },
    }
}

/// Law: corrupting the checksum byte of a well-formed response frame, by
/// flipping any one of its bits, turns the frame invalid: it is rejected and
/// never decoded, exactly as any other invalid attempt.
pub proof fn lemma_corrupted_checksum_rejected<V: FromBufferFallible>(frame: Seq<u8>, k: u8)
    requires
        frame.len() == V::buffer_len() + 1,
        crc7(frame.take(frame.len() - 1)) == frame.last(),
        k < 8,
    ensures
        ({
            let corrupted = frame.update(frame.len() - 1, frame.last() ^ (1u8 << k));
            response_outcome::<V>(corrupted) == Err::<V, Failure>(Failure::Invalid)
        }),
{
    let last = frame.len() - 1;
    let corrupted = frame.update(last, frame.last() ^ (1u8 << k));
    assert(corrupted.take(last) =~= frame.take(last));
    assert(corrupted.last() == frame.last() ^ (1u8 << k));
    let c = frame.last();
    assert(c ^ (1u8 << k) != c) by (bit_vector)
        requires
            k < 8u8,
    ;
}

/// Law: corrupting any payload bit of a well-formed response frame also turns
/// the frame invalid, because the checksum detects every single-bit change.
pub proof fn lemma_corrupted_payload_rejected<V: FromBufferFallible>(frame: Seq<u8>, i: int, k: u8)
    requires
        frame.len() == V::buffer_len() + 1,
        crc7(frame.take(frame.len() - 1)) == frame.last(),
        0 <= i < frame.len() - 1,
        k < 8,
    ensures
        ({
            let corrupted = frame.update(i, frame[i] ^ (1u8 << k));
            response_outcome::<V>(corrupted) == Err::<V, Failure>(Failure::Invalid)
        }),
{
    let last = frame.len() - 1;
    let corrupted = frame.update(i, frame[i] ^ (1u8 << k));
    let payload = frame.take(last);
    let corrupted_payload = corrupted.take(last);
    assert(corrupted_payload =~= payload.update(i, payload[i] ^ (1u8 << k)));
    crate::protocol::lemma_crc7_single_bit_flip(payload, i, k);
    assert(corrupted.last() == frame.last());
}

/// The register-protocol driver over a duplex byte transport: it owns the
/// transport, issues read requests and validates and decodes the response
/// frames.
pub struct RegisterIO<T> {
    inner: T,
}

impl<T: Transport> RegisterIO<T> {
    /// The owned transport.
    pub closed spec fn spec_inner(&self) -> &T {
        &self.inner
    }

    /// Take ownership of a transport.
    pub fn new(inner: T) -> (r: Self)
        ensures
            r.spec_inner() == inner,
    {
        RegisterIO { inner }
    }

    /// Hand the transport back.
    pub fn into_inner(self) -> (r: T)
        ensures
            r == self.spec_inner(),
    {
        self.inner
    }

    /// Pack a request and write its three wire bytes to the transport. The
    /// result is the classified write outcome: whole write, short write, or
    /// the transport's own error.
    fn write(&mut self, packet: RegisterPacket) -> (r: Result<(), Failure>)
        ensures
            exists|w: Result<usize, Failure>| r == #[trigger] write_outcome(3, w),
    {
        let bytes = packet.pack();
        proof {
            assert(packet.wire_spec().len() == 3);
        }
        let outcome = self.inner.write(bytes.as_slice());
        let r = classify_write(bytes.len(), outcome);
        proof {
            assert(r == write_outcome(3, outcome));
        }
        r
    }

    /// One blocking request/response exchange for the record `V`: write the
    /// read request, read `length + 1` bytes back, validate the checksum and
    /// decode. The result is exactly the classified exchange for what the
    /// transport did: a short write is fatal, a read error passes through, a
    /// wrong-length frame is transient, and a right-length frame stands or
    /// falls by its checksum and decode. In particular a record comes back
    /// only out of a frame that passed its checksum and whose payload
    /// decodes to that record.
    pub fn request_record<V: Addressable>(&mut self) -> (r: Result<V, Failure>)
        ensures
            exists|written: Result<usize, Failure>, answered: Result<Seq<u8>, Failure>|
                r == #[trigger] exchange_outcome::<V>(written, answered),
            r matches Ok(v) ==> exists|frame: Seq<u8>|
                frame.len() == V::buffer_len() + 1 && crc7(frame.take(frame.len() - 1))
                    == frame.last() && #[trigger] V::decode_spec(frame.take(frame.len() - 1))
                    == Some(v),
    {
        match self.write(V::request()) {
            Ok(()) => (),
            Err(e) => {
                proof {
                    let w = choose|w: Result<usize, Failure>|
                        Err::<(), Failure>(e) == #[trigger] write_outcome(3, w);
                    assert(Err::<V, Failure>(e) == exchange_outcome::<V>(
                        w,
                        Ok(Seq::<u8>::empty()),
                    ));
                }
                return Err(e);
            },
        }
        let len = V::len();
        let frame = match self.inner.read(len as usize + 1) {
            Ok(f) => f,
            Err(e) => {
                proof {
                    let w = choose|w: Result<usize, Failure>|
                        Ok::<(), Failure>(()) == #[trigger] write_outcome(3, w);
                    assert(Err::<V, Failure>(e) == exchange_outcome::<V>(
                        w,
                        Err(e),
                    ));
                }
                return Err(e);
            },
        };
        let r = process_frame::<V>(frame.as_slice());
        proof {
            let w = choose|w: Result<usize, Failure>|
                Ok::<(), Failure>(()) == #[trigger] write_outcome(3, w);
            assert(r == exchange_outcome::<V>(w, Ok(frame@)));
            if r is Ok {
                let payload = frame@.take(frame@.len() - 1);
                assert(frame@.len() == V::buffer_len() + 1);
                assert(payload.len() == V::buffer_len());
                assert(crc7(payload) == frame@.last());
                assert(V::decode_spec(payload) == Some(r->Ok_0));
            }
        }
        r
    }
}

impl<T: Transport, V: Addressable> Request<V> for RegisterIO<T> {
    fn read(&mut self) -> Result<V, Failure> {
        self.request_record()
    }
}

impl<T: Transport, V: Addressable + Copy> Watch<V> for RegisterIO<T> {
    type Provider = RegisterIO<T>;

    // No additional setup is needed: a fresh watcher state around the driver.
    fn watch(self) -> (r: Watcher<V, RegisterIO<T>>) {
        Watcher::new(self)
    }
}

} // verus!
