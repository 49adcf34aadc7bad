//! Decoder for received report buffers: strips the two-byte report envelope
//! and recovers the payload the remote UART peer sent.

use vstd::prelude::*;

use crate::frames::{padded_data_write_frame, MAX_DATA_PAYLOAD};
use crate::ProtocolError;

verus! {

/// What decoding a received buffer yields: byte 0 is the report id (ignored),
/// byte 1 declares the payload length, and the payload follows. A declared
/// length exceeding the buffer's remaining capacity is a protocol violation.
pub open spec fn spec_decode(buffer: Seq<u8>) -> Result<Seq<u8>, ProtocolError>
    recommends
        buffer.len() >= 2,
{
    if buffer[1] as int <= buffer.len() - 2 {
        Ok(buffer.subrange(2, 2 + buffer[1] as int))
    } else {
        Err(ProtocolError::MalformedFrame)
    }
}

/// Recovers the payload from a received report buffer, rejecting a length
/// byte that claims more than the buffer holds rather than reading past it.
pub fn decode(buffer: &[u8]) -> (r: Result<Vec<u8>, ProtocolError>)
    requires
        buffer@.len() >= 2,
    ensures
        (match r {
            Ok(payload) => spec_decode(buffer@) == Ok::<Seq<u8>, ProtocolError>(payload@),
            Err(e) => spec_decode(buffer@) == Err::<Seq<u8>, ProtocolError>(e),
        }),
{
    let length = buffer[1] as usize;
    if length > buffer.len() - 2 {
        return Err(ProtocolError::MalformedFrame);
    }
    let mut payload: Vec<u8> = Vec::new();
    let mut i: usize = 0;
    while i < length
        invariant
            i <= length,
            length == buffer@[1] as int,
            length + 2 <= buffer@.len(),
            payload@ == buffer@.subrange(2, 2 + i as int),
        decreases length - i,
    {
        payload.push(buffer[2 + i]);
        i = i + 1;
        proof {
            assert(payload@ =~= buffer@.subrange(2, 2 + i as int));
        }
    }
    proof {
        assert(payload@ =~= buffer@.subrange(2, 2 + buffer@[1] as int));
    }
    Ok(payload)
}

/// Law: a data-write frame padded to the fixed report size has exactly the
/// received-buffer shape, and decoding it yields back the payload it was
/// built from.
pub proof fn lemma_data_write_round_trip(payload: Seq<u8>)
    requires
        payload.len() <= MAX_DATA_PAYLOAD,
    ensures
        spec_decode(padded_data_write_frame(payload)) == Ok::<Seq<u8>, ProtocolError>(payload),
{
    let frame = padded_data_write_frame(payload);
    assert(frame[1] == payload.len() as u8);
    assert(frame.subrange(2, 2 + payload.len() as int) =~= payload);
}

} // verus!
