use iso_8583_message::IsoMessageTypes;
use iso_8583_message::State;
use iso_8583_message::StateMachine;

/// Builds one wire message: a two-byte big-endian length prefix followed by
/// the body.
fn frame(body: &[u8]) -> Vec<u8> {
    let len = body.len() as u16;
    let mut out = vec![(len >> 8) as u8, (len & 0xff) as u8];
    out.extend_from_slice(body);
    out
}

/// A body of `n` bytes opening with the given MTI code, padded with 0x01.
fn body_with_mti(mti: &str, n: usize) -> Vec<u8> {
    let mut body = mti.as_bytes().to_vec();
    body.resize(n, 1);
    body
}

#[test]
fn it_works() {
    let _state_machine = StateMachine::new();
}

#[test]
fn single_full_message_yields_one_envelope_and_returns_to_ready() {
    let body = body_with_mti("0110", 40);
    let wire = frame(&body);

    let mut machine = StateMachine::new();
    let result = machine.process(&wire).expect("one envelope expected");

    assert_eq!(result.len(), 1);
    assert_eq!(result[0].body().as_slice(), &body[..]);
    assert_eq!(machine.state(), State::Ready);
}

#[test]
fn empty_body_message_yields_empty_envelope() {
    let wire = frame(&[]);

    let mut machine = StateMachine::new();
    let result = machine.process(&wire).expect("one envelope expected");

    assert_eq!(result.len(), 1);
    assert_eq!(result[0].body().len(), 0);
    assert_eq!(machine.state(), State::Ready);
}

#[test]
fn split_at_every_offset_reassembles_exactly_once() {
    let body = body_with_mti("0110", 40);
    let wire = frame(&body);

    for k in 1..wire.len() {
        let mut machine = StateMachine::new();

        let first = machine.process(&wire[..k]);
        assert!(first.is_none(), "no envelope before the split at {}", k);
        assert_eq!(machine.state(), State::Waiting);

        let second = machine.process(&wire[k..]).expect("one envelope after the split");
        assert_eq!(second.len(), 1);
        assert_eq!(second[0].body().as_slice(), &body[..]);
        assert_eq!(machine.state(), State::Ready);
    }
}

#[test]
fn three_chunks_yield_one_envelope_only_at_the_end() {
    let body = body_with_mti("0110", 300);
    let wire = frame(&body);

    let mut machine = StateMachine::new();
    assert!(machine.process(&wire[..7]).is_none());
    assert_eq!(machine.state(), State::Waiting);
    assert!(machine.process(&wire[7..200]).is_none());
    assert_eq!(machine.state(), State::Waiting);

    let result = machine.process(&wire[200..]).expect("one envelope expected");
    assert_eq!(result.len(), 1);
    assert_eq!(result[0].body().as_slice(), &body[..]);
    assert_eq!(machine.state(), State::Ready);
}

#[test]
fn two_messages_in_one_chunk_come_out_in_order() {
    let body_1 = body_with_mti("0200", 64);
    let body_2 = body_with_mti("0210", 48);
    let mut wire = frame(&body_1);
    wire.extend_from_slice(&frame(&body_2));

    let mut machine = StateMachine::new();
    let result = machine.process(&wire).expect("two envelopes expected");

    assert_eq!(result.len(), 2);
    assert_eq!(result[0].body().as_slice(), &body_1[..]);
    assert_eq!(result[1].body().as_slice(), &body_2[..]);
    assert_eq!(machine.state(), State::Ready);
}

#[test]
fn two_messages_and_a_tail_leave_the_tail_pending() {
    let body_1 = body_with_mti("0200", 30);
    let body_2 = body_with_mti("0220", 20);
    let body_3 = body_with_mti("0110", 25);
    let mut wire = frame(&body_1);
    wire.extend_from_slice(&frame(&body_2));
    let tail = frame(&body_3);
    wire.extend_from_slice(&tail[..10]);

    let mut machine = StateMachine::new();
    let result = machine.process(&wire).expect("two envelopes expected");

    assert_eq!(result.len(), 2);
    assert_eq!(result[0].body().as_slice(), &body_1[..]);
    assert_eq!(result[1].body().as_slice(), &body_2[..]);
    assert_eq!(machine.state(), State::Waiting);

    let rest = machine.process(&tail[10..]).expect("the tail's envelope expected");
    assert_eq!(rest.len(), 1);
    assert_eq!(rest[0].body().as_slice(), &body_3[..]);
    assert_eq!(machine.state(), State::Ready);
}

#[test]
fn authorization_message_split_after_four_bytes() {
    // Body length 506, MTI "0100", sent as a 4-byte chunk and the
    // remaining 504 bytes.
    let body = body_with_mti("0100", 506);
    let wire = frame(&body);
    assert_eq!(wire.len(), 508);

    let mut machine = StateMachine::new();
    let first = machine.process(&wire[..4]);
    assert!(first.is_none());
    assert_eq!(machine.state(), State::Waiting);

    let second = machine.process(&wire[4..]).expect("one envelope expected");
    assert_eq!(second.len(), 1);
    assert_eq!(second[0].body().as_slice(), &body[..]);
    assert_eq!(second[0].get_type(), Ok(IsoMessageTypes::Authorization));
    assert_eq!(machine.state(), State::Ready);
}

#[test]
fn back_to_back_bodies_of_100_and_200_bytes_in_one_chunk() {
    // Declared lengths 100 and 200: 300 bytes of body and two prefixes in
    // a single chunk.
    let body_1 = body_with_mti("0200", 100);
    let body_2 = body_with_mti("0210", 200);
    let mut wire = frame(&body_1);
    wire.extend_from_slice(&frame(&body_2));
    assert_eq!(wire.len(), 304);

    let mut machine = StateMachine::new();
    let result = machine.process(&wire).expect("two envelopes expected");

    assert_eq!(result.len(), 2);
    assert_eq!(result[0].body().len(), 100);
    assert_eq!(result[1].body().len(), 200);
    assert_eq!(result[0].body().as_slice(), &body_1[..]);
    assert_eq!(result[1].body().as_slice(), &body_2[..]);
    assert_eq!(machine.state(), State::Ready);
}

#[test]
fn stale_partial_is_discarded_when_a_new_message_arrives() {
    // While waiting on a partial message, a chunk arrives that is a
    // well-formed standalone "0800" message: the stale partial is dropped,
    // the engine returns to Ready, and re-offering the chunk produces the
    // new message.
    let stale = body_with_mti("0100", 506);
    let stale_wire = frame(&stale);

    let mut machine = StateMachine::new();
    assert!(machine.process(&stale_wire[..4]).is_none());
    assert_eq!(machine.state(), State::Waiting);

    let new_body = body_with_mti("0800", 20);
    let new_wire = frame(&new_body);

    let dropped = machine.process(&new_wire);
    assert!(dropped.is_none());
    assert_eq!(machine.state(), State::Ready);

    let result = machine.process(&new_wire).expect("the new message expected");
    assert_eq!(result.len(), 1);
    assert_eq!(result[0].body().as_slice(), &new_body[..]);
    assert_eq!(result[0].get_type(), Ok(IsoMessageTypes::NetworkManagement));
    assert_eq!(machine.state(), State::Ready);
}

#[test]
fn one_byte_chunks_still_reassemble() {
    let body = body_with_mti("0110", 10);
    let wire = frame(&body);

    let mut machine = StateMachine::new();
    let mut produced = Vec::new();
    for (i, byte) in wire.iter().enumerate() {
        let chunk = [*byte];
        if let Some(mut msgs) = machine.process(&chunk) {
            assert_eq!(i, wire.len() - 1, "an envelope only on the last byte");
            produced.append(&mut msgs);
        }
    }
    assert_eq!(produced.len(), 1);
    assert_eq!(produced[0].body().as_slice(), &body[..]);
    assert_eq!(machine.state(), State::Ready);
}
