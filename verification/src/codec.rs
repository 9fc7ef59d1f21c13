//! The fixed binary layout of a vote account's data, and its codec.
//!
//! The record is exactly twelve bytes: the `yes`, `abstained` and `no`
//! counters, in that order, each as four little-endian bytes.

use vstd::prelude::*;
use vstd::bytes::*;
use crate::tally::VoteAccount;

verus! {

/// The encoded size of a tally: three four-byte counters.
pub const TALLY_LEN: usize = 12;

/// Why a buffer could not be read as a tally. `BadLength` is the length
/// gate; `Malformed` is reserved for corrupt framing, which the canonical
/// twelve-byte layout cannot exhibit, so `decode` never returns it.
#[derive(Clone, Copy, Debug, PartialEq, Eq, Structural)]
pub enum DecodeError {
    BadLength,
    Malformed,
}

/// Why a tally could not be written back.
#[derive(Clone, Copy, Debug, PartialEq, Eq, Structural)]
pub enum EncodeError {
    BufferTooSmall,
}

/// The twelve bytes that encode a tally.
pub open spec fn encoding(t: VoteAccount) -> Seq<u8> {
    spec_u32_to_le_bytes(t.yes) + spec_u32_to_le_bytes(t.abstained) + spec_u32_to_le_bytes(t.no)
}

/// The tally that a twelve-byte buffer encodes: its three four-byte
/// fields, in declared order.
pub open spec fn decoded(bytes: Seq<u8>) -> VoteAccount
    recommends
        bytes.len() == TALLY_LEN,
{
    VoteAccount {
        yes: spec_u32_from_le_bytes(bytes.subrange(0, 4)),
        abstained: spec_u32_from_le_bytes(bytes.subrange(4, 8)),
        no: spec_u32_from_le_bytes(bytes.subrange(8, 12)),
    }
}

/// Reads a tally out of a buffer. Succeeds exactly on buffers of twelve
/// bytes; any other length is a `BadLength` failure.
pub fn decode(bytes: &[u8]) -> (r: Result<VoteAccount, DecodeError>)
    ensures
        bytes@.len() == TALLY_LEN ==> r == Ok::<VoteAccount, DecodeError>(decoded(bytes@)),
        bytes@.len() != TALLY_LEN ==> r == Err::<VoteAccount, DecodeError>(DecodeError::BadLength),
{
    if bytes.len() != TALLY_LEN {
        return Err(DecodeError::BadLength);
    }
    let yes = u32_from_le_bytes(&bytes[0..4]);
    let abstained = u32_from_le_bytes(&bytes[4..8]);
    let no = u32_from_le_bytes(&bytes[8..12]);
    Ok(VoteAccount { yes, abstained, no })
}

/// Writes a tally into the first twelve bytes of a buffer, leaving any
/// bytes past them as they were. Fails, and leaves the whole buffer
/// untouched, exactly when the buffer is shorter than twelve bytes.
pub fn encode(tally: &VoteAccount, out: &mut Vec<u8>) -> (r: Result<(), EncodeError>)
    ensures
        old(out)@.len() < TALLY_LEN ==> {
            &&& r == Err::<(), EncodeError>(EncodeError::BufferTooSmall)
            &&& final(out)@ == old(out)@
        },
        old(out)@.len() >= TALLY_LEN ==> {
            &&& r == Ok::<(), EncodeError>(())
            &&& final(out)@ == encoding(*tally) + old(out)@.skip(TALLY_LEN as int)
        },
{
    if out.len() < TALLY_LEN {
        return Err(EncodeError::BufferTooSmall);
    }
    write_u32_le(out, 0, tally.yes);
    write_u32_le(out, 4, tally.abstained);
    write_u32_le(out, 8, tally.no);
    proof {
        assert(out@ =~= encoding(*tally) + old(out)@.skip(TALLY_LEN as int));
    }
    Ok(())
}

/// Writes one counter as four little-endian bytes at the given offset.
fn write_u32_le(out: &mut Vec<u8>, offset: usize, v: u32)
    requires
        offset + 4 <= old(out)@.len(),
    ensures
        final(out)@.len() == old(out)@.len(),
        final(out)@.subrange(offset as int, offset + 4) == spec_u32_to_le_bytes(v),
        forall|i: int|
            0 <= i < old(out)@.len() && !(offset <= i < offset + 4) ==> final(out)@[i] == old(
                out,
            )@[i],
{
    proof {
        assert(out.len() == out@.len());
    }
    let bytes = u32_to_le_bytes(v);
    out[offset] = bytes[0];
    out[offset + 1] = bytes[1];
    out[offset + 2] = bytes[2];
    out[offset + 3] = bytes[3];
    proof {
        assert(out@.subrange(offset as int, offset + 4) =~= spec_u32_to_le_bytes(v));
    }
}

/// Round trip, tally side: decoding what a tally encodes to gives that
/// tally back, for every tally.
pub proof fn lemma_decode_of_encoding(t: VoteAccount)
    ensures
        decoded(encoding(t)) == t,
{
    lemma_auto_spec_u32_to_from_le_bytes();
    assert(encoding(t).subrange(0, 4) =~= spec_u32_to_le_bytes(t.yes));
    assert(encoding(t).subrange(4, 8) =~= spec_u32_to_le_bytes(t.abstained));
    assert(encoding(t).subrange(8, 12) =~= spec_u32_to_le_bytes(t.no));
}

/// Round trip, buffer side: a twelve-byte buffer is reproduced byte for
/// byte by encoding the tally it decodes to.
pub proof fn lemma_encoding_of_decoded(bytes: Seq<u8>)
    requires
        bytes.len() == TALLY_LEN,
    ensures
        encoding(decoded(bytes)) == bytes,
{
    lemma_auto_spec_u32_to_from_le_bytes();
    assert(encoding(decoded(bytes)) =~= bytes);
}

} // verus!
