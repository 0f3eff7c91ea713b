//! Properties of the request handler that hold for every state and request.
use vstd::prelude::*;

use crate::sequence::{after_record, apply_action, record_payload, replay, starts_with_record, ACTION_SEND_REQUEST};
use crate::ecu::{
    be_value, key_for, read_data, negative, positive, seed_response, step, vin_response, EcuState,
    ISSUED_SEED, NEGATIVE_RESPONSE, NRC_CONDITIONS_NOT_CORRECT, NRC_REQUEST_SEQUENCE_ERROR,
    SESSION_DEFAULT, SESSION_EXTENDED, SID_READ_DATA, SID_SECURITY_ACCESS, SID_SESSION_CONTROL,
    SUB_REQUEST_SEED, SUB_SEND_KEY,
};

verus! {

/// What holds of every state the ECU can reach from power-on: the session is
/// the default or the extended one, a seed is only held, and the access only
/// unlocked, in the extended session, and the only seed ever held is the
/// issued one.
pub open spec fn reachable(s: EcuState) -> bool {
    &&& (s.session == SESSION_DEFAULT || s.session == SESSION_EXTENDED)
    &&& (s.seed is Some ==> s.session == SESSION_EXTENDED && s.seed == Some(ISSUED_SEED))
    &&& (s.security_unlocked ==> s.session == SESSION_EXTENDED)
}

/// Deriving the key twice gives back the seed: the derivation undoes itself.
pub proof fn lemma_key_derivation_self_inverse(seed: u16)
    ensures
        key_for(key_for(seed)) == seed,
{
    assert((seed ^ 0xAAAAu16) ^ 0xAAAAu16 == seed) by (bit_vector);
}

/// A key request whose big-endian key differs from the held seed XOR 0xAAAA is
/// refused with invalidKey (`7F 27 35`) and changes nothing: the seed stays
/// held and the unlock flag keeps its value, whatever it was.
pub proof fn lemma_wrong_key_refused(s: EcuState, seed: u16, high: u8, low: u8)
    requires
        s.seed == Some(seed),
        high as int * 256 + low as int != (seed ^ 0xAAAAu16) as int,
    ensures
        step(s, seq![0x27u8, 0x02u8, high, low]) == (s, seq![0x7Fu8, 0x27u8, 0x35u8]),
{
}

/// A key request whose big-endian key equals the held seed XOR 0xAAAA is
/// accepted with `67 02`, whether or not the access was already unlocked: the
/// access is then unlocked, the seed used up and the session kept.
pub proof fn lemma_matching_key_accepted(s: EcuState, seed: u16, high: u8, low: u8)
    requires
        s.seed == Some(seed),
        high as int * 256 + low as int == (seed ^ 0xAAAAu16) as int,
    ensures
        step(s, seq![0x27u8, 0x02u8, high, low]) == (
            EcuState { session: s.session, seed: None, security_unlocked: true },
            seq![0x67u8, 0x02u8],
        ),
{
}

/// A ReadDataByIdentifier request (first byte 0x22) never changes the state.
pub proof fn lemma_read_data_keeps_state(s: EcuState, req: Seq<u8>)
    requires
        req.len() > 0,
        req[0] == 0x22,
    ensures
        step(s, req).0 == s,
{
}

/// In the extended session a three-byte read of any identifier other than
/// 0xF190 is answered requestOutOfRange (`7F 22 31`).
pub proof fn lemma_other_identifier_out_of_range(s: EcuState, high: u8, low: u8)
    requires
        s.session == 0x03,
        !(high == 0xF1 && low == 0x90),
    ensures
        step(s, seq![0x22u8, high, low]) == (s, seq![0x7Fu8, 0x22u8, 0x31u8]),
{
}

/// A positive read response (first byte 0x62) is given only to the request
/// `22 F1 90` in the extended session, and it is then `62 F1 90 01 02 03 04`.
pub proof fn lemma_read_positive_only_for_vin(s: EcuState, req: Seq<u8>)
    requires
        step(s, req).1.len() > 0,
        step(s, req).1[0] == 0x62,
    ensures
        req == seq![0x22u8, 0xF1u8, 0x90u8],
        s.session == 0x03,
        step(s, req).1 == seq![0x62u8, 0xF1u8, 0x90u8, 0x01u8, 0x02u8, 0x03u8, 0x04u8],
{
    assert(req.len() > 0);
    assert(req[0] == SID_READ_DATA);
    assert(req.len() == 3);
    assert(req =~= seq![0x22u8, 0xF1u8, 0x90u8]);
}

/// The empty request is answered with an empty response and changes nothing.
pub proof fn lemma_empty_request(s: EcuState)
    ensures
        step(s, Seq::<u8>::empty()) == (s, Seq::<u8>::empty()),
{
}

/// A request for any service other than 0x10, 0x22 and 0x27 is answered
/// serviceNotSupported (`7F sid 11`) and changes nothing.
pub proof fn lemma_unknown_service_not_supported(s: EcuState, req: Seq<u8>)
    requires
        req.len() > 0,
        req[0] != 0x10 && req[0] != 0x22 && req[0] != 0x27,
    ensures
        step(s, req) == (s, seq![0x7Fu8, req[0], 0x11u8]),
{
}

/// `10 01` and `10 03` switch to that session from any state, answer `50 01`
/// or `50 03`, drop the seed and lock the access; any other two-byte session
/// request is answered subFunctionNotSupported (`7F 10 12`) and any other
/// length incorrectMessageLength (`7F 10 13`), both changing nothing.
pub proof fn lemma_session_control_behaviour(s: EcuState, req: Seq<u8>)
    requires
        req.len() > 0,
        req[0] == 0x10,
    ensures
        req.len() == 2 && (req[1] == 0x01 || req[1] == 0x03) ==> step(s, req) == (
            EcuState { session: req[1], seed: None, security_unlocked: false },
            seq![0x50u8, req[1]],
        ),
        req.len() == 2 && req[1] != 0x01 && req[1] != 0x03 ==> step(s, req) == (
            s,
            seq![0x7Fu8, 0x10u8, 0x12u8],
        ),
        req.len() != 2 ==> step(s, req) == (s, seq![0x7Fu8, 0x10u8, 0x13u8]),
{
}

/// Outside the extended session every three-byte read is answered
/// serviceNotSupportedInActiveSession (`7F 22 7F`); a read of any other length
/// is answered incorrectMessageLength (`7F 22 13`) in every session.
pub proof fn lemma_read_data_refusals(s: EcuState, req: Seq<u8>)
    requires
        req.len() > 0,
        req[0] == 0x22,
    ensures
        req.len() == 3 && s.session != 0x03 ==> step(s, req) == (s, seq![0x7Fu8, 0x22u8, 0x7Fu8]),
        req.len() != 3 ==> step(s, req) == (s, seq![0x7Fu8, 0x22u8, 0x13u8]),
{
}

/// `27 01` in the extended session hands out the seed 0x1234 (`67 01 12 34`),
/// keeping the session and the unlock flag; outside it the request is
/// refused with conditionsNotCorrect (`7F 27 22`) and changes nothing.
pub proof fn lemma_seed_request_behaviour(s: EcuState)
    ensures
        s.session == 0x03 ==> step(s, seq![0x27u8, 0x01u8]) == (
            EcuState { session: s.session, seed: Some(0x1234u16), security_unlocked: s.security_unlocked },
            seq![0x67u8, 0x01u8, 0x12u8, 0x34u8],
        ),
        s.session != 0x03 ==> step(s, seq![0x27u8, 0x01u8]) == (s, seq![0x7Fu8, 0x27u8, 0x22u8]),
{
}

/// A four-byte key request while no seed is held is answered
/// requestSequenceError (`7F 27 24`) and changes nothing.
pub proof fn lemma_key_without_seed_sequence_error(s: EcuState, high: u8, low: u8)
    requires
        s.seed is None,
    ensures
        step(s, seq![0x27u8, 0x02u8, high, low]) == (s, seq![0x7Fu8, 0x27u8, 0x24u8]),
{
}

/// Malformed SecurityAccess requests change nothing: a seed or key request of
/// the wrong length, a one-byte request, or one longer than two bytes with another
/// sub-function is answered `7F 27 13`; a two-byte request with another
/// sub-function is answered `7F 27 12`.
pub proof fn lemma_security_access_malformed(s: EcuState, req: Seq<u8>)
    requires
        req.len() > 0,
        req[0] == 0x27,
    ensures
        req.len() >= 2 && req[1] == 0x01 && req.len() != 2 ==> step(s, req) == (
            s,
            seq![0x7Fu8, 0x27u8, 0x13u8],
        ),
        req.len() >= 2 && req[1] == 0x02 && req.len() != 4 ==> step(s, req) == (
            s,
            seq![0x7Fu8, 0x27u8, 0x13u8],
        ),
        req.len() == 2 && req[1] != 0x01 && req[1] != 0x02 ==> step(s, req) == (
            s,
            seq![0x7Fu8, 0x27u8, 0x12u8],
        ),
        (req.len() == 1 || (req.len() > 2 && req[1] != 0x01 && req[1] != 0x02)) ==> step(s, req) == (
            s,
            seq![0x7Fu8, 0x27u8, 0x13u8],
        ),
{
}

/// The power-on state is reachable.
pub proof fn lemma_initial_reachable()
    ensures
        reachable(EcuState::initial()),
{
}

/// Handling any request from a reachable state leads to a reachable state.
pub proof fn lemma_step_keeps_reachable(s: EcuState, req: Seq<u8>)
    requires
        reachable(s),
    ensures
        reachable(step(s, req).0),
{
}

/// Replaying any recorded sequence from a reachable state ends in a reachable state.
pub proof fn lemma_replay_keeps_reachable(s: EcuState, data: Seq<u8>)
    requires
        reachable(s),
    ensures
        reachable(replay(s, data).0),
    decreases data.len(),
{
    if starts_with_record(data) {
        let payload = record_payload(data);
        if data[0] == ACTION_SEND_REQUEST {
            lemma_step_keeps_reachable(s, payload);
        }
        lemma_replay_keeps_reachable(apply_action(s, data[0], payload), after_record(data));
    }
}

/// The response is empty exactly when the request is empty; otherwise it is
/// either a positive response, whose first byte is the service identifier plus
/// 0x40, or a three-byte negative response naming the requested service.
pub proof fn lemma_response_shape(s: EcuState, req: Seq<u8>)
    ensures
        (step(s, req).1.len() == 0) <==> (req.len() == 0),
        req.len() > 0 ==> {
            let res = step(s, req).1;
            ||| res[0] == positive(req[0]) && res.len() >= 2
            ||| res.len() == 3 && res[0] == NEGATIVE_RESPONSE && res[1] == req[0]
        },
{
}

/// A refused request (one answered negatively) and an empty request leave
/// the state unchanged.
pub proof fn lemma_refusal_keeps_state(s: EcuState, req: Seq<u8>)
    requires
        req.len() == 0 || step(s, req).1[0] == NEGATIVE_RESPONSE,
    ensures
        step(s, req).0 == s,
{
}

/// An accepted session change enters the requested session and drops any
/// seed and any unlocked security access.
pub proof fn lemma_session_change_locks(s: EcuState, session: u8)
    requires
        session == SESSION_DEFAULT || session == SESSION_EXTENDED,
    ensures
        step(s, seq![SID_SESSION_CONTROL, session]).0 == (EcuState {
            session: session,
            seed: None,
            security_unlocked: false,
        }),
        step(s, seq![SID_SESSION_CONTROL, session]).1 == seq![positive(SID_SESSION_CONTROL), session],
{
}

/// The identifier 0xF190 is read exactly when the request is `22 F1 90` and the
/// ECU is in the extended session.
pub proof fn lemma_vin_only_in_extended_session(s: EcuState, req: Seq<u8>)
    ensures
        (step(s, req).1 == vin_response()) <==> (req == seq![SID_READ_DATA, 0xF1u8, 0x90u8]
            && s.session == SESSION_EXTENDED),
{
    if step(s, req).1 == vin_response() {
        assert(step(s, req).1.len() == 7);
        assert(req.len() > 0);
        assert(req[0] == SID_READ_DATA);
        assert(read_data(s, req) == vin_response());
        assert(req.len() == 3);
        assert(req =~= seq![SID_READ_DATA, 0xF1u8, 0x90u8]);
    }
}

/// The security access becomes unlocked only by a key request whose key
/// matches the seed that was handed out; the seed is then used up.
pub proof fn lemma_unlock_needs_matching_key(s: EcuState, req: Seq<u8>)
    requires
        !s.security_unlocked,
        step(s, req).0.security_unlocked,
    ensures
        req.len() == 4,
        req[0] == SID_SECURITY_ACCESS,
        req[1] == SUB_SEND_KEY,
        s.seed is Some,
        be_value(req[2], req[3]) == key_for(s.seed->0),
        step(s, req).0.seed is None,
        step(s, req).1 == seq![positive(SID_SECURITY_ACCESS), SUB_SEND_KEY],
{
}

/// An unlocked security access stays unlocked until an accepted session change.
pub proof fn lemma_unlock_lasts_until_session_change(s: EcuState, req: Seq<u8>)
    requires
        s.security_unlocked,
        !step(s, req).0.security_unlocked,
    ensures
        req.len() == 2,
        req[0] == SID_SESSION_CONTROL,
        req[1] == SESSION_DEFAULT || req[1] == SESSION_EXTENDED,
{
}

/// A key sent while no seed is held is refused with requestSequenceError.
pub proof fn lemma_key_without_seed_refused(s: EcuState, high: u8, low: u8)
    requires
        s.seed is None,
    ensures
        step(s, seq![SID_SECURITY_ACCESS, SUB_SEND_KEY, high, low]) == (s, negative(
            SID_SECURITY_ACCESS,
            NRC_REQUEST_SEQUENCE_ERROR,
        )),
{
}

/// Outside the extended session a seed request is refused with
/// conditionsNotCorrect; inside it the issued seed is handed out.
pub proof fn lemma_seed_only_in_extended_session(s: EcuState)
    ensures
        s.session != SESSION_EXTENDED ==> step(s, seq![SID_SECURITY_ACCESS, SUB_REQUEST_SEED]) == (
        s, negative(SID_SECURITY_ACCESS, NRC_CONDITIONS_NOT_CORRECT)),
        s.session == SESSION_EXTENDED ==> step(s, seq![SID_SECURITY_ACCESS, SUB_REQUEST_SEED]).1
            == seed_response() && step(s, seq![SID_SECURITY_ACCESS, SUB_REQUEST_SEED]).0.seed == Some(
            ISSUED_SEED,
        ),
{
}

} // verus!
