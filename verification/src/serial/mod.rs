//! The text-framed streaming variant of the protocol: packet framing and the
//! records its streams carry. Only the framing and the decoders live here;
//! driving the stream is the host's concern.

pub mod packet;
pub mod storage;
