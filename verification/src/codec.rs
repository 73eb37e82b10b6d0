use crate::error::NamedPipeError;
use vstd::bytes::{
    lemma_auto_spec_u32_to_from_le_bytes, spec_u32_from_le_bytes, spec_u32_to_le_bytes,
    u32_from_le_bytes, u32_to_le_bytes,
};
use vstd::prelude::*;
use vstd::slice::{slice_subrange, slice_to_vec};

verus! {

/// The bytes of one wire frame: a 4-byte little-endian length prefix
/// followed by the payload itself. The prefix always equals the byte
/// length of the payload that follows.
pub open spec fn spec_frame(payload: Seq<u8>) -> Seq<u8>
    recommends
        payload.len() <= u32::MAX,
{
    spec_u32_to_le_bytes(payload.len() as u32) + payload
}

/// Encode one payload as the frame that goes on the wire.
pub fn write_frame(payload: &Vec<u8>) -> (frame: Vec<u8>)
    requires
        payload@.len() <= u32::MAX,
    ensures
        frame@ == spec_frame(payload@),
        frame@.len() == payload@.len() + 4,
{
    let mut frame = u32_to_le_bytes(payload.len() as u32);
    frame.extend_from_slice(payload.as_slice());
    proof {
        assert(frame@ =~= spec_frame(payload@));
    }
    frame
}

/// Decode one complete frame back into its payload.
///
/// Succeeds exactly when `frame` is `spec_frame` of some payload: at least
/// 4 bytes long, with the prefix equal to the length of the rest.
pub fn read_frame(frame: &Vec<u8>) -> (r: Result<Vec<u8>, NamedPipeError>)
    ensures
        r matches Ok(p) ==> p@.len() <= u32::MAX && frame@ == spec_frame(p@),
        forall|p: Seq<u8>|
            p.len() <= u32::MAX && frame@ == spec_frame(p) ==> (r matches Ok(q) && q@ == p),
        r matches Err(e) ==> e == NamedPipeError::Data,
{
    proof {
        lemma_auto_spec_u32_to_from_le_bytes();
    }
    if frame.len() < 4 {
        return Err(NamedPipeError::Data);
    }
    let declared = u32_from_le_bytes(slice_subrange(frame.as_slice(), 0, 4));
    if declared as usize != frame.len() - 4 {
        proof {
            assert forall|p: Seq<u8>| p.len() <= u32::MAX && frame@ == spec_frame(p) implies false by {
                assert(frame@.subrange(0, 4) =~= spec_u32_to_le_bytes(p.len() as u32));
                assert(spec_u32_from_le_bytes(spec_u32_to_le_bytes(p.len() as u32)) == p.len() as u32);
            }
        }
        return Err(NamedPipeError::Data);
    }
    let payload = slice_to_vec(slice_subrange(frame.as_slice(), 4, frame.len()));
    proof {
        assert forall|p: Seq<u8>|
            p.len() <= u32::MAX && frame@ == spec_frame(p) implies payload@ == p by {
            assert(payload@ =~= p);
        }
        assert(frame@ =~= spec_frame(payload@));
    }
    Ok(payload)
}

/// Decode the 4-byte length prefix of a frame, for callers that read the
/// prefix and the payload from the transport in two steps.
pub fn decode_frame_len(prefix: &Vec<u8>) -> (len: u32)
    requires
        prefix@.len() == 4,
    ensures
        len == spec_u32_from_le_bytes(prefix@),
{
    u32_from_le_bytes(prefix.as_slice())
}

/// Framing fidelity: the frame written for a payload reads back as exactly
/// that payload, whatever the payload's bytes and length (zero included).
pub proof fn lemma_frame_round_trip(payload: Seq<u8>)
    requires
        payload.len() <= u32::MAX,
    ensures
        spec_frame(payload).len() == payload.len() + 4,
        spec_frame(payload).skip(4) == payload,
        spec_u32_from_le_bytes(spec_frame(payload).take(4)) == payload.len() as u32,
{
    lemma_auto_spec_u32_to_from_le_bytes();
    assert(spec_frame(payload).skip(4) =~= payload);
    assert(spec_frame(payload).take(4) =~= spec_u32_to_le_bytes(payload.len() as u32));
}

} // verus!
