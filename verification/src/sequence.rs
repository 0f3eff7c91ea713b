//! Replay of recorded request sequences.
//!
//! A sequence is a run of records, each made of an action byte, a big-endian
//! two-byte payload length and that many payload bytes. The action
//! `ACTION_SEND_REQUEST` hands the payload to the ECU as a request,
//! `ACTION_RESET` restarts the ECU from its power-on state, and any other action
//! is skipped. Replay stops at the first record that is incomplete.
use vstd::prelude::*;
use vstd::slice::slice_subrange;

use crate::ecu::{be_value, handle_request, step, EcuState};

verus! {

/// Action: send the payload to the ECU as a request.
pub const ACTION_SEND_REQUEST: u8 = 0x01;
/// Action: restart the ECU from its power-on state.
pub const ACTION_RESET: u8 = 0x04;
/// Bytes in a record's header: the action and the payload length.
pub const RECORD_HEADER_LEN: usize = 3;

/// The payload length that the record at the start of `data` declares.
pub open spec fn declared_len(data: Seq<u8>) -> int
    recommends
        data.len() >= 3,
{
    be_value(data[1], data[2])
}

/// Whether `data` starts with a complete record.
pub open spec fn starts_with_record(data: Seq<u8>) -> bool {
    data.len() >= 3 && declared_len(data) <= data.len() - 3
}

/// The payload of the record at the start of `data`.
pub open spec fn record_payload(data: Seq<u8>) -> Seq<u8>
    recommends
        starts_with_record(data),
{
    data.subrange(3, 3 + declared_len(data))
}

/// What follows the record at the start of `data`.
pub open spec fn after_record(data: Seq<u8>) -> Seq<u8>
    recommends
        starts_with_record(data),
{
    data.subrange(3 + declared_len(data), data.len() as int)
}

/// The state after one action with the given payload.
pub open spec fn apply_action(s: EcuState, action: u8, payload: Seq<u8>) -> EcuState {
    if action == ACTION_SEND_REQUEST {
        step(s, payload).0
    } else if action == ACTION_RESET {
        EcuState::initial()
    } else {
        s
    }
}

/// The responses one action produces: one for a request, none otherwise.
pub open spec fn action_responses(s: EcuState, action: u8, payload: Seq<u8>) -> Seq<Seq<u8>> {
    if action == ACTION_SEND_REQUEST {
        seq![step(s, payload).1]
    } else {
        Seq::empty()
    }
}

/// Replaying `data` from the state `s`: the final state and the responses to
/// the requests, in order.
pub open spec fn replay(s: EcuState, data: Seq<u8>) -> (EcuState, Seq<Seq<u8>>)
    decreases data.len(),
{
    if starts_with_record(data) {
        let action = data[0];
        let payload = record_payload(data);
        let rest = replay(apply_action(s, action, payload), after_record(data));
        (rest.0, action_responses(s, action, payload) + rest.1)
    } else {
        (s, Seq::empty())
    }
}

/// The bytes of one record with the given action and payload.
pub open spec fn record(action: u8, payload: Seq<u8>) -> Seq<u8>
    recommends
        payload.len() < 0x10000,
{
    seq![action, (payload.len() / 256) as u8, (payload.len() % 256) as u8] + payload
}

/// Whether `data` is a run of complete records with nothing left over.
pub open spec fn complete_records(data: Seq<u8>) -> bool
    decreases data.len(),
{
    if data.len() == 0 {
        true
    } else {
        starts_with_record(data) && complete_records(after_record(data))
    }
}

/// A record is read back with the action and payload it was written with.
pub proof fn lemma_record_read_back(action: u8, payload: Seq<u8>, rest: Seq<u8>)
    requires
        payload.len() < 0x10000,
    ensures
        starts_with_record(record(action, payload) + rest),
        (record(action, payload) + rest)[0] == action,
        record_payload(record(action, payload) + rest) == payload,
        after_record(record(action, payload) + rest) == rest,
{
    let data = record(action, payload) + rest;
    let n = payload.len();
    assert((n / 256) as u8 as int * 256 + (n % 256) as u8 as int == n);
    assert(data[1] == (n / 256) as u8 && data[2] == (n % 256) as u8);
    assert(record_payload(data) =~= payload);
    assert(after_record(data) =~= rest);
}

/// Replay stops at an incomplete record: nothing more is done.
pub proof fn lemma_incomplete_record_stops(s: EcuState, data: Seq<u8>)
    requires
        !starts_with_record(data),
    ensures
        replay(s, data) == (s, Seq::<Seq<u8>>::empty()),
{
}

/// A request record hands its payload to the ECU; the replay goes on from the
/// state the request leaves behind.
pub proof fn lemma_request_record(s: EcuState, payload: Seq<u8>, rest: Seq<u8>)
    requires
        payload.len() < 0x10000,
    ensures
        replay(s, record(ACTION_SEND_REQUEST, payload) + rest) == (
            replay(step(s, payload).0, rest).0,
            seq![step(s, payload).1] + replay(step(s, payload).0, rest).1,
        ),
{
    lemma_record_read_back(ACTION_SEND_REQUEST, payload, rest);
}

/// After a reset record the replay goes on exactly as from the power-on state,
/// whatever came before.
pub proof fn lemma_reset_restarts(s: EcuState, payload: Seq<u8>, rest: Seq<u8>)
    requires
        payload.len() < 0x10000,
    ensures
        replay(s, record(ACTION_RESET, payload) + rest) == replay(EcuState::initial(), rest),
{
    lemma_record_read_back(ACTION_RESET, payload, rest);
    assert(Seq::<Seq<u8>>::empty() + replay(EcuState::initial(), rest).1 =~= replay(
        EcuState::initial(),
        rest,
    ).1);
}

/// A record with an action other than a request or a reset is skipped.
pub proof fn lemma_unknown_action_skipped(s: EcuState, action: u8, payload: Seq<u8>, rest: Seq<u8>)
    requires
        payload.len() < 0x10000,
        action != ACTION_SEND_REQUEST,
        action != ACTION_RESET,
    ensures
        replay(s, record(action, payload) + rest) == replay(s, rest),
{
    lemma_record_read_back(action, payload, rest);
    assert(Seq::<Seq<u8>>::empty() + replay(s, rest).1 =~= replay(s, rest).1);
}

/// Replaying two runs of records one after the other is replaying the first,
/// then the second from the state the first leaves behind: the ECU state is
/// shared across the whole sequence.
pub proof fn lemma_replay_concat(s: EcuState, first: Seq<u8>, second: Seq<u8>)
    requires
        complete_records(first),
    ensures
        replay(s, first + second) == (
            replay(replay(s, first).0, second).0,
            replay(s, first).1 + replay(replay(s, first).0, second).1,
        ),
    decreases first.len(),
{
    if first.len() == 0 {
        assert(first + second =~= second);
        assert(Seq::<Seq<u8>>::empty() + replay(s, second).1 =~= replay(s, second).1);
    } else {
        let data = first + second;
        assert(data[1] == first[1] && data[2] == first[2] && data[0] == first[0]);
        assert(starts_with_record(data));
        assert(record_payload(data) =~= record_payload(first));
        assert(after_record(data) =~= after_record(first) + second);
        let action = first[0];
        let payload = record_payload(first);
        let s1 = apply_action(s, action, payload);
        lemma_replay_concat(s1, after_record(first), second);
        let r = action_responses(s, action, payload);
        let a = replay(s1, after_record(first)).1;
        let b = replay(replay(s1, after_record(first)).0, second).1;
        assert(r + (a + b) =~= (r + a) + b);
    }
}

/// What one record does, read from its raw header: the action byte, then the
/// payload length high byte first. Action 0x01 sends the payload as a request
/// and records its response; action 0x04 restarts from the power-on state
/// (default session, no seed, locked); any other action is skipped. Replay then
/// goes on after the payload.
pub proof fn lemma_record_header(s: EcuState, action: u8, high: u8, low: u8, payload: Seq<u8>, rest: Seq<u8>)
    requires
        payload.len() == high as int * 256 + low as int,
    ensures
        action == 0x01 ==> replay(s, seq![action, high, low] + payload + rest) == (
            replay(step(s, payload).0, rest).0,
            seq![step(s, payload).1] + replay(step(s, payload).0, rest).1,
        ),
        action == 0x04 ==> replay(s, seq![action, high, low] + payload + rest) == replay(
            EcuState { session: 0x01, seed: None, security_unlocked: false },
            rest,
        ),
        action != 0x01 && action != 0x04 ==> replay(s, seq![action, high, low] + payload + rest)
            == replay(s, rest),
{
    let data = seq![action, high, low] + payload + rest;
    assert(data[0] == action && data[1] == high && data[2] == low);
    assert(starts_with_record(data));
    assert(record_payload(data) =~= payload);
    assert(after_record(data) =~= rest);
    assert(Seq::<Seq<u8>>::empty() + replay(s, rest).1 =~= replay(s, rest).1);
    assert(Seq::<Seq<u8>>::empty() + replay(EcuState::initial(), rest).1 =~= replay(
        EcuState::initial(),
        rest,
    ).1);
}

/// Replay does nothing when fewer than three bytes are left, or when the
/// declared big-endian payload length is longer than what follows the header.
pub proof fn lemma_truncated_input_does_nothing(s: EcuState, data: Seq<u8>)
    requires
        data.len() < 3 || data[1] as int * 256 + data[2] as int > data.len() - 3,
    ensures
        replay(s, data) == (s, Seq::<Seq<u8>>::empty()),
{
}

/// Replays the records in `data` against `state`, in order, and returns the
/// responses to the requests among them.
pub fn replay_sequence(state: &mut EcuState, data: &[u8]) -> (responses: Vec<Vec<u8>>)
    ensures
        *final(state) == replay(*old(state), data@).0,
        responses.deep_view() == replay(*old(state), data@).1,
{
    let mut responses: Vec<Vec<u8>> = Vec::new();
    let mut offset: usize = 0;
    let ghost s0 = *state;
    assert(data@.subrange(0, data@.len() as int) =~= data@);
    loop
        invariant_except_break
            offset <= data@.len(),
            replay(s0, data@).0 == replay(*state, data@.subrange(offset as int, data@.len() as int)).0,
            replay(s0, data@).1 == responses.deep_view() + replay(
                *state,
                data@.subrange(offset as int, data@.len() as int),
            ).1,
        ensures
            replay(s0, data@).0 == *state,
            replay(s0, data@).1 == responses.deep_view(),
        decreases data@.len() - offset,
    {
        let ghost rest = data@.subrange(offset as int, data@.len() as int);
        let ghost before = *state;
        let ghost prev = responses.deep_view();
        if data.len() - offset < RECORD_HEADER_LEN {
            assert(!starts_with_record(rest));
            assert(prev + Seq::<Seq<u8>>::empty() =~= prev);
            break;
        }
        let action = data[offset];
        let length: usize = (data[offset + 1] as usize) * 256 + (data[offset + 2] as usize);
        assert(rest[0] == action && rest[1] == data@[offset + 1] && rest[2] == data@[offset + 2]);
        offset = offset + RECORD_HEADER_LEN;
        if length > data.len() - offset {
            assert(!starts_with_record(rest));
            assert(prev + Seq::<Seq<u8>>::empty() =~= prev);
            break;
        }
        let payload = slice_subrange(data, offset, offset + length);
        offset = offset + length;
        assert(starts_with_record(rest));
        assert(payload@ =~= record_payload(rest));
        assert(data@.subrange(offset as int, data@.len() as int) =~= after_record(rest));
        if action == ACTION_SEND_REQUEST {
            let response = handle_request(state, payload);
            assert(response.deep_view() =~= response@);
            responses.push(response);
            assert(responses.deep_view() =~= prev + action_responses(before, action, payload@));
        } else if action == ACTION_RESET {
            *state = EcuState::new();
            assert(responses.deep_view() =~= prev + action_responses(before, action, payload@));
        } else {
            assert(responses.deep_view() =~= prev + action_responses(before, action, payload@));
        }
        assert(*state == apply_action(before, action, payload@));
        let ghost tail = replay(*state, after_record(rest)).1;
        assert(prev + (action_responses(before, action, payload@) + tail) =~= (prev
            + action_responses(before, action, payload@)) + tail);
    }
    responses
}

} // verus!
