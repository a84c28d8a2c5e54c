//! The reassembly engine: a state machine over read chunks.
//!
//! One engine instance serves one connection. Each `process` call takes the
//! bytes of one socket read and hands back every message body they complete,
//! in arrival order; an incomplete tail is kept pending for later calls. The
//! contract pins the behaviour to the stream model in [`crate::framing`]:
//! what a call emits is exactly `extract_msgs` of the pending bytes plus the
//! chunk, and what stays pending is exactly `extract_rest` of them — no body
//! delivered twice, truncated, or merged with a neighbour.

use vstd::prelude::*;
use vstd::slice::slice_subrange;
use vstd::slice::slice_to_vec;
use crate::framing::be16;
use crate::framing::extract_msgs;
use crate::framing::extract_rest;
use crate::framing::is_incomplete;
use crate::framing::lemma_incomplete_extracts_nothing;
use crate::framing::lemma_rest_incomplete;
use crate::framing::lemma_single_message;
use crate::framing::msg_body;
use crate::iso_message::IsoMessage;
use crate::message_helpers::get_message_length;
use crate::message_helpers::lemma_classification_exhaustive;
use crate::message_helpers::received_full_message;
use crate::message_helpers::received_multiple_messages;
use crate::message_helpers::received_new_message;
use crate::message_helpers::received_partial_message;
use crate::message_helpers::received_rest_of_message;
use crate::message_helpers::spec_probably_new;
use crate::LENGTH_PREFIX_SIZE;

verus! {

/// Where the engine stands. `Ready`: nothing pending. `Waiting`: a partial
/// message is buffered and more bytes are needed. `Delivering` is transient:
/// it exists only inside a single `process` call, between extraction and the
/// handback, and always resolves to `Ready` or `Waiting` before the call
/// returns.
#[derive(Clone, Copy, Debug, PartialEq, Eq, Structural)]
pub enum State {
    Ready,
    Waiting,
    Delivering,
}

/// The bodies of the envelopes in `ms`, in order.
pub open spec fn views_of(ms: Seq<IsoMessage>) -> Seq<Seq<u8>> {
    ms.map_values(|m: IsoMessage| m@)
}

/// The reassembly engine for one connection.
pub struct StateMachine {
    buffer: Vec<u8>,
    messages: Vec<IsoMessage>,
    inner_state: State,
}

impl StateMachine {
    /// The accumulated bytes of the message known to be incomplete,
    /// length prefix included; empty when no message is pending.
    pub closed spec fn pending(&self) -> Seq<u8> {
        self.buffer@
    }

    /// The engine's current state.
    pub closed spec fn spec_state(&self) -> State {
        self.inner_state
    }

    /// The bodies extracted in the current `process` call and not yet
    /// handed back; empty between calls.
    pub closed spec fn undelivered(&self) -> Seq<Seq<u8>> {
        views_of(self.messages@)
    }

    /// Well-formed between `process` calls: whatever is pending is known to
    /// be incomplete, the engine is `Ready` exactly when nothing is pending,
    /// `Delivering` never persists, and no extracted body is still waiting
    /// to be handed back.
    pub open spec fn wf(&self) -> bool {
        &&& is_incomplete(self.pending())
        &&& (self.spec_state() is Ready <==> self.pending().len() == 0)
        &&& !(self.spec_state() is Delivering)
        &&& self.undelivered().len() == 0
    }

    /// A fresh engine: nothing pending, ready for the first chunk.
    pub fn new() -> (r: Self)
        ensures
            r.wf(),
            r.pending().len() == 0,
            r.spec_state() is Ready,
    {
        StateMachine {
            buffer: Vec::with_capacity(4096),
            messages: Vec::new(),
            inner_state: State::Ready,
        }
    }

    /// The engine's current state, for callers outside the engine.
    pub fn state(&self) -> (r: State)
        ensures
            r == self.spec_state(),
    {
        self.inner_state
    }

    /// Feeds the bytes of one socket read through the engine.
    ///
    /// Normally the call emits exactly the bodies that the pending bytes
    /// plus this chunk complete, in arrival order — `Some` of them if there
    /// is at least one, `None` otherwise — and keeps exactly the leftover
    /// tail pending. The one exception: while waiting on a partial message,
    /// a chunk that looks like the start of an unrelated new message (see
    /// [`spec_probably_new`]) makes the engine discard the stale partial and
    /// return to `Ready` without consuming the chunk, which the caller must
    /// re-offer.
    pub fn process(&mut self, bytes: &[u8]) -> (r: Option<Vec<IsoMessage>>)
        requires
            old(self).wf(),
            bytes@.len() >= 1,
            old(self).pending().len() + bytes@.len() <= usize::MAX,
        ensures
            final(self).wf(),
            ({
                if old(self).spec_state() is Waiting && spec_probably_new(bytes@) {
                    &&& r is None
                    &&& final(self).pending().len() == 0
                    &&& final(self).spec_state() is Ready
                } else {
                    let s = old(self).pending() + bytes@;
                    &&& final(self).pending() == extract_rest(s)
                    &&& match r {
                        Some(v) => views_of(v@) == extract_msgs(s) && extract_msgs(s).len() > 0,
                        None => extract_msgs(s).len() == 0,
                    }
                }
            }),
    {
        match self.inner_state {
            State::Ready => self.process_ready(bytes),
            State::Waiting => self.process_waiting(bytes),
            State::Delivering => unreached(),
        }

        proof {
            lemma_rest_incomplete(old(self).pending() + bytes@);
        }

        if self.messages.len() > 0 {
            return self.process_delivering();
        }

        None
    }

    /// Handles a chunk that arrives with nothing pending: exactly one
    /// message, a partial one, or several — the three cases are exhaustive,
    /// so no chunk is ever rejected here.
    fn process_ready(&mut self, bytes: &[u8])
        requires
            old(self).wf(),
            old(self).spec_state() is Ready,
            bytes@.len() >= 1,
            old(self).buffer@.len() + bytes@.len() <= usize::MAX,
        ensures
            views_of(final(self).messages@) == extract_msgs(old(self).buffer@ + bytes@),
            final(self).buffer@ == extract_rest(old(self).buffer@ + bytes@),
            final(self).messages@.len() == 0 ==> final(self).inner_state is Waiting
                && final(self).buffer@.len() > 0,
    {
        proof {
            assert(self.buffer@ + bytes@ =~= bytes@);
        }
        if received_full_message(bytes) {
            self.inner_state = State::Delivering;
            proof {
                lemma_single_message(bytes@);
            }
            self.extract_messages(bytes);
            return;
        }

        if received_partial_message(self.buffer.as_slice(), bytes) {
            self.inner_state = State::Waiting;
            proof {
                lemma_incomplete_extracts_nothing(bytes@);
            }
            self.extract_messages(bytes);
            return;
        }

        if received_multiple_messages(bytes) {
            self.inner_state = State::Delivering;
            self.extract_messages(bytes);
            return;
        }

        // The three classifications above are complete and mutually
        // exclusive, so this point cannot be reached.
        proof {
            assert(self.buffer@ =~= Seq::<u8>::empty());
            lemma_classification_exhaustive(bytes@);
        }
        unreached()
    }

    /// Handles a chunk while a partial message is pending: resynchronize
    /// onto a new message, keep accumulating, or complete the pending
    /// message (and whatever whole messages follow it in the chunk).
    fn process_waiting(&mut self, bytes: &[u8])
        requires
            old(self).wf(),
            old(self).spec_state() is Waiting,
            bytes@.len() >= 1,
            old(self).buffer@.len() + bytes@.len() <= usize::MAX,
        ensures
            ({
                if spec_probably_new(bytes@) {
                    &&& final(self).messages@.len() == 0
                    &&& final(self).buffer@.len() == 0
                    &&& final(self).inner_state is Ready
                } else {
                    &&& views_of(final(self).messages@) == extract_msgs(
                        old(self).buffer@ + bytes@,
                    )
                    &&& final(self).buffer@ == extract_rest(old(self).buffer@ + bytes@)
                    &&& (final(self).messages@.len() == 0 ==> final(self).inner_state is Waiting
                        && final(self).buffer@.len() > 0)
                }
            }),
    {
        if received_new_message(bytes) {
            // The buffered partial will never be completed: treat it as
            // abandoned and do not consume the chunk as part of it.
            self.inner_state = State::Ready;
            self.buffer.clear();
            return;
        }

        if received_partial_message(self.buffer.as_slice(), bytes) {
            self.inner_state = State::Waiting;
            self.extract_messages(bytes);
            proof {
                // A chunk under two bytes is classified partial even in the
                // rare case where it completes the pending message; whether
                // anything was emitted is read off the extraction itself.
                let s = old(self).buffer@ + bytes@;
                if self.messages@.len() == 0 {
                    assert(extract_msgs(s).len() == 0);
                    assert(is_incomplete(s));
                    assert(extract_rest(s) == s);
                }
            }
            return;
        }

        if self.buffer.len() >= LENGTH_PREFIX_SIZE {
            let declared = get_message_length(self.buffer.as_slice()).unwrap();
            // How many more bytes complete the pending message: the
            // declared body length plus the prefix, less what is buffered.
            let bytes_remaining = declared as usize + LENGTH_PREFIX_SIZE - self.buffer.len();
            proof {
                assert((self.buffer@ + bytes@)[0] == self.buffer@[0]);
                assert((self.buffer@ + bytes@)[1] == self.buffer@[1]);
            }
            if received_rest_of_message(bytes_remaining, bytes) {
                self.inner_state = State::Delivering;
                self.extract_messages(bytes);
                return;
            }
            // Not partial means the chunk holds at least the remainder, so
            // this point cannot be reached.
            proof {
                assert(false);
            }
            unreached()
        } else {
            // Only one buffered byte: the chunk completes the prefix, and
            // not-partial means it completes at least one message too.
            self.inner_state = State::Delivering;
            proof {
                assert(!is_incomplete(self.buffer@ + bytes@));
            }
            self.extract_messages(bytes);
        }
    }

    /// Hands back the envelopes extracted in this call and resolves the
    /// transient `Delivering` state: `Ready` if nothing is pending,
    /// `Waiting` otherwise.
    fn process_delivering(&mut self) -> (r: Option<Vec<IsoMessage>>)
        requires
            old(self).messages@.len() > 0,
        ensures
            match r {
                Some(v) => v@ == old(self).messages@,
                None => false,
            },
            final(self).messages@.len() == 0,
            final(self).buffer@ == old(self).buffer@,
            final(self).inner_state is Ready <==> final(self).buffer@.len() == 0,
            !(final(self).inner_state is Delivering),
    {
        let iso_messages = self.messages.split_off(0);
        proof {
            assert(iso_messages@ =~= old(self).messages@);
            assert(self.messages@ =~= Seq::<IsoMessage>::empty());
        }

        if self.buffer.is_empty() {
            self.inner_state = State::Ready;
        } else {
            self.inner_state = State::Waiting;
        }
        Some(iso_messages)
    }

    /// The extraction algorithm: consumes the pending bytes plus the chunk
    /// left to right, emitting an envelope for each complete message and
    /// re-buffering the incomplete tail, with no byte examined twice.
    fn extract_messages(&mut self, bytes: &[u8])
        requires
            old(self).buffer@.len() + bytes@.len() <= usize::MAX,
            is_incomplete(old(self).buffer@),
        ensures
            final(self).inner_state == old(self).inner_state,
            views_of(final(self).messages@) == views_of(old(self).messages@) + extract_msgs(
                old(self).buffer@ + bytes@,
            ),
            final(self).buffer@ == extract_rest(old(self).buffer@ + bytes@),
    {
        let ghost s = old(self).buffer@ + bytes@;
        let mut data: Vec<u8> = Vec::new();
        data.append(&mut self.buffer);
        data.extend_from_slice(bytes);
        proof {
            assert(data@ =~= s);
            assert(s.skip(0) =~= s);
        }

        let mut pos: usize = 0;
        loop
            invariant
                pos <= data@.len(),
                data@ == s,
                self.buffer@.len() == 0,
                self.inner_state == old(self).inner_state,
                views_of(self.messages@) + extract_msgs(s.skip(pos as int)) == views_of(
                    old(self).messages@,
                ) + extract_msgs(s),
                extract_rest(s.skip(pos as int)) == extract_rest(s),
            ensures
                pos <= data@.len(),
                data@ == s,
                self.buffer@.len() == 0,
                self.inner_state == old(self).inner_state,
                views_of(self.messages@) == views_of(old(self).messages@) + extract_msgs(s),
                s.skip(pos as int) == extract_rest(s),
            decreases data@.len() - pos,
        {
            let remaining = data.len() - pos;
            if remaining < LENGTH_PREFIX_SIZE {
                proof {
                    lemma_incomplete_extracts_nothing(s.skip(pos as int));
                }
                break ;
            }
            let hi = data[pos];
            let lo = data[pos + 1];
            let n = (hi as usize) * 256 + (lo as usize);
            proof {
                assert(s.skip(pos as int)[0] == hi);
                assert(s.skip(pos as int)[1] == lo);
                assert(be16(s.skip(pos as int)) == n);
            }
            if remaining < n + LENGTH_PREFIX_SIZE {
                proof {
                    lemma_incomplete_extracts_nothing(s.skip(pos as int));
                }
                break ;
            }

            let body_slice = slice_subrange(data.as_slice(), pos + 2, pos + 2 + n);
            let body = slice_to_vec(body_slice);
            let msg = IsoMessage::new(body);
            let ghost messages_before = self.messages@;
            self.messages.push(msg);
            proof {
                let tail = s.skip(pos as int);
                assert(tail.skip(n + 2) =~= s.skip(pos + n + 2));
                assert(msg_body(tail) =~= s.subrange(pos + 2, pos + 2 + n));
                assert(extract_msgs(tail) == seq![msg@] + extract_msgs(s.skip(pos + n + 2)));
                assert(views_of(self.messages@) =~= views_of(messages_before) + seq![msg@]);
                assert(views_of(self.messages@) + extract_msgs(s.skip(pos + n + 2)) =~= views_of(
                    messages_before,
                ) + extract_msgs(tail));
            }
            pos = pos + n + LENGTH_PREFIX_SIZE;
        }

        let tail_slice = slice_subrange(data.as_slice(), pos, data.len());
        let tail = slice_to_vec(tail_slice);
        self.buffer = tail;
    }
}

} // verus!
