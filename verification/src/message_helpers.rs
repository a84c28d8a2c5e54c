//! The boundary classifier: stateless predicates over byte slices.
//!
//! Each predicate takes the currently buffered partial message (possibly
//! empty) and the newly arrived chunk, and answers one question: exactly one
//! full message? partial? several messages back-to-back? the rest of the
//! message being waited for? or, while waiting, the start of an unrelated
//! new message (the resynchronization heuristic)?

use vstd::prelude::*;
use vstd::slice::slice_subrange;
use crate::framing::be16;
use crate::framing::is_complete_message;
use crate::framing::is_incomplete;
use crate::iso_message::code_bytes;
use crate::iso_message::IsoMessageTypes;
use crate::LENGTH_PREFIX_SIZE;
use crate::ProtocolError;

verus! {

/// Largest body length the resynchronization heuristic will believe: a
/// declared length above this is not a plausible message start.
pub const MAX_MESSAGE_SIZE: u16 = 3418;

/// A chunk is classified partial when it is too short to even hold a length
/// prefix, or when everything gathered so far — buffered bytes plus the new
/// chunk — still falls short of the length the prefix declares.
pub open spec fn spec_partial_message(context: Seq<u8>, chunk: Seq<u8>) -> bool {
    if chunk.len() < LENGTH_PREFIX_SIZE {
        true
    } else {
        is_incomplete(context + chunk)
    }
}

/// The chunk holds at least one complete message plus trailing bytes.
pub open spec fn spec_multi_message(chunk: Seq<u8>) -> bool {
    chunk.len() >= LENGTH_PREFIX_SIZE && be16(chunk) < chunk.len() - LENGTH_PREFIX_SIZE
}

/// `code` is one of the six request-class MTI codes a peer opens a message
/// with.
pub open spec fn is_request_mti(code: Seq<u8>) -> bool {
    ||| code == code_bytes(IsoMessageTypes::Authorization)
    ||| code == code_bytes(IsoMessageTypes::AuthorizationAdvice)
    ||| code == code_bytes(IsoMessageTypes::Financial)
    ||| code == code_bytes(IsoMessageTypes::FinancialAdvice)
    ||| code == code_bytes(IsoMessageTypes::Reversal)
    ||| code == code_bytes(IsoMessageTypes::NetworkManagement)
}

/// The resynchronization heuristic: the chunk plausibly starts a message of
/// its own, unrelated to the partial one being waited for. It must carry a
/// believable length prefix, and then either be a suspiciously well-formed
/// standalone message, open with a request-class MTI, or show the
/// fixed-bitmap-presence pattern (top three bits `111`) in the byte after
/// the MTI. Intentionally permissive: it trades some false positives for
/// fast recovery from desynchronization.
pub open spec fn spec_probably_new(chunk: Seq<u8>) -> bool {
    &&& chunk.len() >= 6
    &&& be16(chunk) <= MAX_MESSAGE_SIZE as int
    &&& {
        ||| be16(chunk) == chunk.len() - LENGTH_PREFIX_SIZE
        ||| is_request_mti(chunk.subrange(2, 6))
        ||| (chunk.len() >= 7 && chunk[6] >> 5u8 == 7u8)
    }
}

/// Decodes the first two bytes of `buf` as the big-endian body length, or
/// reports a malformed length when not even the prefix is there.
pub fn get_message_length(buf: &[u8]) -> (r: Result<u16, ProtocolError>)
    ensures
        buf@.len() >= LENGTH_PREFIX_SIZE ==> r == Ok::<u16, ProtocolError>(be16(buf@) as u16),
        buf@.len() < LENGTH_PREFIX_SIZE ==> r == Err::<u16, ProtocolError>(
            ProtocolError::MalformedLength,
        ),
{
    if buf.len() < LENGTH_PREFIX_SIZE {
        return Err(ProtocolError::MalformedLength);
    }
    let hi = buf[0];
    let lo = buf[1];
    Ok((hi as u16) * 256 + (lo as u16))
}

/// The chunk is exactly one message: a prefix plus exactly the declared
/// number of body bytes.
pub fn received_full_message(bytes: &[u8]) -> (r: bool)
    ensures
        r == is_complete_message(bytes@),
{
    if bytes.len() >= LENGTH_PREFIX_SIZE {
        let message_size = get_message_length(bytes).unwrap();
        let data_size = bytes.len() - LENGTH_PREFIX_SIZE;

        if message_size as usize == data_size {
            return true;
        }
    }

    false
}

/// Combined with what is already buffered, the chunk still does not reach
/// the declared message length.
pub fn received_partial_message(context_buffer: &[u8], bytes: &[u8]) -> (r: bool)
    requires
        context_buffer@.len() + bytes@.len() <= usize::MAX,
    ensures
        r == spec_partial_message(context_buffer@, bytes@),
{
    if bytes.len() < LENGTH_PREFIX_SIZE {
        return true;
    }

    if context_buffer.len() == 0 {
        let message_size = get_message_length(bytes).unwrap();
        let data_size = bytes.len() - LENGTH_PREFIX_SIZE;
        proof {
            assert(context_buffer@ + bytes@ =~= bytes@);
        }
        message_size as usize > data_size
    } else if context_buffer.len() == 1 {
        // Only one buffered byte: the prefix completes with the chunk's
        // first byte.
        let hi = context_buffer[0];
        let lo = bytes[0];
        let message_size = (hi as usize) * 256 + (lo as usize);
        let received_size = context_buffer.len() + bytes.len();
        proof {
            assert((context_buffer@ + bytes@)[0] == hi);
            assert((context_buffer@ + bytes@)[1] == lo);
        }
        message_size + LENGTH_PREFIX_SIZE > received_size
    } else {
        let message_size = get_message_length(context_buffer).unwrap();
        let data_size = bytes.len();
        let received_size = context_buffer.len() + data_size;
        proof {
            assert((context_buffer@ + bytes@)[0] == context_buffer@[0]);
            assert((context_buffer@ + bytes@)[1] == context_buffer@[1]);
        }
        message_size as usize + LENGTH_PREFIX_SIZE > received_size
    }
}

/// With nothing buffered, the chunk holds at least one complete message and
/// more bytes after it.
pub fn received_multiple_messages(bytes: &[u8]) -> (r: bool)
    ensures
        r == spec_multi_message(bytes@),
{
    if bytes.len() >= LENGTH_PREFIX_SIZE {
        let message_size = get_message_length(bytes).unwrap();
        let data_size = bytes.len() - LENGTH_PREFIX_SIZE;

        if (message_size as usize) < data_size {
            return true;
        }
    }

    false
}

/// The chunk supplies at least the bytes still needed to complete the
/// message being waited for.
pub fn received_rest_of_message(bytes_remaining: usize, bytes: &[u8]) -> (r: bool)
    ensures
        r == (bytes@.len() >= bytes_remaining),
{
    bytes.len() >= bytes_remaining
}

/// While waiting on a partial message: does this chunk look like the start
/// of an unrelated new message instead?
pub fn received_new_message(bytes: &[u8]) -> (r: bool)
    ensures
        r == spec_probably_new(bytes@),
{
    is_probably_new_message(bytes)
}

fn is_probably_new_message(bytes: &[u8]) -> (r: bool)
    ensures
        r == spec_probably_new(bytes@),
{
    if bytes.len() < 6 {
        return false;
    }

    let maybe_message_size = get_message_length(bytes).unwrap();

    if maybe_message_size > MAX_MESSAGE_SIZE {
        return false;
    }

    if maybe_message_size as usize == bytes.len() - LENGTH_PREFIX_SIZE {
        return true;
    }

    let mti = slice_subrange(bytes, 2, 6);
    let c0 = mti[0];
    let c1 = mti[1];
    let c2 = mti[2];
    let c3 = mti[3];
    proof {
        assert(bytes@.subrange(2, 6) =~= seq![c0, c1, c2, c3]);
    }
    let in_request_mtis = (c0 == 48 && c1 == 49 && c2 == 48 && c3 == 48) || (c0 == 48 && c1 == 49
        && c2 == 50 && c3 == 48) || (c0 == 48 && c1 == 50 && c2 == 48 && c3 == 48) || (c0 == 48
        && c1 == 50 && c2 == 50 && c3 == 48) || (c0 == 48 && c1 == 52 && c2 == 50 && c3 == 48) || (
    c0 == 48 && c1 == 56 && c2 == 48 && c3 == 48);

    if in_request_mtis {
        return true;
    }

    if bytes.len() >= 7 {
        let maybe_bitmap_1_byte_1 = bytes[6];

        // The first three bits of the bitmap should always be 111
        if maybe_bitmap_1_byte_1 >> 5u8 == 7u8 {
            return true;
        }
    }

    false
}

/// With nothing buffered, the three Ready-state classifications — full,
/// partial, multiple — are complete and mutually exclusive, so every chunk
/// takes exactly one of the defined transitions and a framing violation
/// cannot occur.
pub proof fn lemma_classification_exhaustive(chunk: Seq<u8>)
    ensures
        is_complete_message(chunk) || spec_partial_message(Seq::empty(), chunk)
            || spec_multi_message(chunk),
        !(is_complete_message(chunk) && spec_partial_message(Seq::empty(), chunk)),
        !(is_complete_message(chunk) && spec_multi_message(chunk)),
        !(spec_partial_message(Seq::empty(), chunk) && spec_multi_message(chunk)),
{
    assert(Seq::<u8>::empty() + chunk =~= chunk);
}

} // verus!
