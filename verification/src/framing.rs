//! Mathematical model of the wire format.
//!
//! A stream position holds zero or more complete messages, each a two-byte
//! big-endian length prefix followed by exactly that many body bytes, and
//! then at most one incomplete tail. [`extract_msgs`] and [`extract_rest`]
//! split a byte sequence into those two parts; the reassembly engine's
//! contracts are stated over them.

use vstd::prelude::*;

verus! {

/// The body length declared by the two-byte big-endian prefix at the front
/// of `s`.
pub open spec fn be16(s: Seq<u8>) -> int
    recommends
        s.len() >= 2,
{
    (s[0] as int) * 256 + (s[1] as int)
}

/// `s` is exactly one message: a prefix plus exactly the declared number of
/// body bytes.
pub open spec fn is_complete_message(s: Seq<u8>) -> bool {
    s.len() >= 2 && s.len() == be16(s) + 2
}

/// `s` does not yet hold a whole message: either the prefix itself is
/// incomplete, or fewer body bytes have arrived than the prefix declares.
pub open spec fn is_incomplete(s: Seq<u8>) -> bool {
    s.len() < 2 || s.len() < be16(s) + 2
}

/// The body bytes of the message at the front of `s`.
pub open spec fn msg_body(s: Seq<u8>) -> Seq<u8>
    recommends
        s.len() >= 2,
        s.len() >= be16(s) + 2,
{
    s.subrange(2, be16(s) + 2)
}

/// The bodies of all complete messages at the front of `s`, in order.
pub open spec fn extract_msgs(s: Seq<u8>) -> Seq<Seq<u8>>
    decreases s.len(),
{
    if s.len() >= 2 && s.len() >= be16(s) + 2 {
        seq![msg_body(s)] + extract_msgs(s.skip(be16(s) + 2))
    } else {
        Seq::empty()
    }
}

/// What is left of `s` once every complete message at the front has been
/// taken: an incomplete tail, possibly empty.
pub open spec fn extract_rest(s: Seq<u8>) -> Seq<u8>
    decreases s.len(),
{
    if s.len() >= 2 && s.len() >= be16(s) + 2 {
        extract_rest(s.skip(be16(s) + 2))
    } else {
        s
    }
}

/// The leftover of extraction is always itself incomplete, so extraction
/// never stops while a whole message is still available.
pub proof fn lemma_rest_incomplete(s: Seq<u8>)
    ensures
        is_incomplete(extract_rest(s)),
    decreases s.len(),
{
    if s.len() >= 2 && s.len() >= be16(s) + 2 {
        lemma_rest_incomplete(s.skip(be16(s) + 2));
    }
}

/// An incomplete sequence yields no messages and is its own leftover.
pub proof fn lemma_incomplete_extracts_nothing(s: Seq<u8>)
    requires
        is_incomplete(s),
    ensures
        extract_msgs(s) == Seq::<Seq<u8>>::empty(),
        extract_rest(s) == s,
{
}

/// A single message feeds through whole: it yields exactly its own body and
/// leaves nothing behind.
pub proof fn lemma_single_message(m: Seq<u8>)
    requires
        is_complete_message(m),
    ensures
        extract_msgs(m) == seq![msg_body(m)],
        extract_rest(m) == Seq::<u8>::empty(),
{
    assert(m.skip(be16(m) + 2) =~= Seq::<u8>::empty());
    lemma_incomplete_extracts_nothing(m.skip(be16(m) + 2));
    assert(extract_msgs(m) =~= seq![msg_body(m)]);
}

/// A complete message at the front of a stream is taken whole, and
/// extraction continues on what follows it, unchanged.
pub proof fn lemma_message_prepend(m: Seq<u8>, rest: Seq<u8>)
    requires
        is_complete_message(m),
    ensures
        extract_msgs(m + rest) == seq![msg_body(m)] + extract_msgs(rest),
        extract_rest(m + rest) == extract_rest(rest),
{
    let s = m + rest;
    assert(be16(s) == be16(m));
    assert(s.skip(be16(s) + 2) =~= rest);
    assert(msg_body(s) =~= msg_body(m));
    assert(extract_msgs(s) =~= seq![msg_body(m)] + extract_msgs(rest));
}

/// Two messages concatenated into one chunk come out as exactly their two
/// bodies, in order, with nothing left over.
pub proof fn lemma_two_messages(m1: Seq<u8>, m2: Seq<u8>)
    requires
        is_complete_message(m1),
        is_complete_message(m2),
    ensures
        extract_msgs(m1 + m2) == seq![msg_body(m1), msg_body(m2)],
        extract_rest(m1 + m2) == Seq::<u8>::empty(),
{
    lemma_message_prepend(m1, m2);
    lemma_single_message(m2);
    assert(extract_msgs(m1 + m2) =~= seq![msg_body(m1), msg_body(m2)]);
}

/// A strict prefix of a message is incomplete: it yields nothing and must
/// be kept pending as it stands.
pub proof fn lemma_prefix_incomplete(m: Seq<u8>, k: int)
    requires
        is_complete_message(m),
        0 <= k < m.len(),
    ensures
        is_incomplete(m.take(k)),
        extract_msgs(m.take(k)) == Seq::<Seq<u8>>::empty(),
        extract_rest(m.take(k)) == m.take(k),
{
    if k >= 2 {
        assert(be16(m.take(k)) == be16(m));
    }
    lemma_incomplete_extracts_nothing(m.take(k));
}

/// One step of reassembling a message split at arbitrary offsets: with the
/// bytes up to `k` pending, feeding the bytes from `k` to `j` yields the
/// whole body exactly when `j` reaches the end of the message, and nothing
/// before that.
pub proof fn lemma_split_feed(m: Seq<u8>, k: int, j: int)
    requires
        is_complete_message(m),
        0 <= k < j <= m.len(),
    ensures
        extract_msgs(m.take(k) + m.subrange(k, j)) == if j == m.len() {
            seq![msg_body(m)]
        } else {
            Seq::<Seq<u8>>::empty()
        },
        extract_rest(m.take(k) + m.subrange(k, j)) == if j == m.len() {
            Seq::<u8>::empty()
        } else {
            m.take(j)
        },
{
    assert(m.take(k) + m.subrange(k, j) =~= m.take(j));
    if j == m.len() {
        assert(m.take(j) =~= m);
        lemma_single_message(m);
    } else {
        lemma_prefix_incomplete(m, j);
    }
}

/// Offsets `0 == o_0 < o_1 < ... < o_{N} == m.len()` that cut `m` into `N`
/// non-empty chunks.
pub open spec fn is_valid_split(m: Seq<u8>, offsets: Seq<int>) -> bool {
    &&& offsets.len() >= 2
    &&& offsets[0] == 0
    &&& offsets[offsets.len() - 1] == m.len()
    &&& forall|i: int, j: int| 0 <= i < j < offsets.len() ==> offsets[i] < offsets[j]
}

/// A message split into chunks at arbitrary offsets reassembles to exactly
/// one envelope: while the bytes up to the current offset are pending, each
/// chunk but the last yields nothing and extends the pending prefix, and
/// the last chunk alone yields the one body, leaving nothing pending.
pub proof fn lemma_chunked_reassembly(m: Seq<u8>, offsets: Seq<int>, i: int)
    requires
        is_complete_message(m),
        is_valid_split(m, offsets),
        0 <= i < offsets.len() - 1,
    ensures
        extract_msgs(m.take(offsets[i]) + m.subrange(offsets[i], offsets[i + 1])) == if i
            == offsets.len() - 2 {
            seq![msg_body(m)]
        } else {
            Seq::<Seq<u8>>::empty()
        },
        extract_rest(m.take(offsets[i]) + m.subrange(offsets[i], offsets[i + 1])) == if i
            == offsets.len() - 2 {
            Seq::<u8>::empty()
        } else {
            m.take(offsets[i + 1])
        },
{
    if i + 1 < offsets.len() - 1 {
        assert(offsets[i + 1] < offsets[offsets.len() - 1]);
    }
    lemma_split_feed(m, offsets[i], offsets[i + 1]);
}

} // verus!
