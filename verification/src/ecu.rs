//! The ECU: its state and the handling of one UDS request.
//!
//! Supported services: DiagnosticSessionControl (default and extended
//! session), ReadDataByIdentifier (identifier 0xF190, extended session only)
//! and SecurityAccess (level 1 seed and key). Every other service is answered
//! with serviceNotSupported.
use vstd::prelude::*;

verus! {

/// Service identifier of DiagnosticSessionControl.
pub const SID_SESSION_CONTROL: u8 = 0x10;
/// Service identifier of ReadDataByIdentifier.
pub const SID_READ_DATA: u8 = 0x22;
/// Service identifier of SecurityAccess.
pub const SID_SECURITY_ACCESS: u8 = 0x27;
/// First byte of every negative response.
pub const NEGATIVE_RESPONSE: u8 = 0x7F;

/// The default diagnostic session.
pub const SESSION_DEFAULT: u8 = 0x01;
/// The extended diagnostic session.
pub const SESSION_EXTENDED: u8 = 0x03;

/// SecurityAccess sub-function: request a seed.
pub const SUB_REQUEST_SEED: u8 = 0x01;
/// SecurityAccess sub-function: send the key.
pub const SUB_SEND_KEY: u8 = 0x02;

/// The seed that a seed request hands out.
pub const ISSUED_SEED: u16 = 0x1234;
/// The mask that turns a seed into its key.
pub const KEY_MASK: u16 = 0xAAAA;

/// Negative response code: serviceNotSupported.
pub const NRC_SERVICE_NOT_SUPPORTED: u8 = 0x11;
/// Negative response code: subFunctionNotSupported.
pub const NRC_SUB_FUNCTION_NOT_SUPPORTED: u8 = 0x12;
/// Negative response code: incorrectMessageLengthOrInvalidFormat.
pub const NRC_INCORRECT_LENGTH: u8 = 0x13;
/// Negative response code: conditionsNotCorrect.
pub const NRC_CONDITIONS_NOT_CORRECT: u8 = 0x22;
/// Negative response code: requestSequenceError.
pub const NRC_REQUEST_SEQUENCE_ERROR: u8 = 0x24;
/// Negative response code: requestOutOfRange.
pub const NRC_REQUEST_OUT_OF_RANGE: u8 = 0x31;
/// Negative response code: invalidKey.
pub const NRC_INVALID_KEY: u8 = 0x35;
/// Negative response code: serviceNotSupportedInActiveSession.
pub const NRC_NOT_IN_ACTIVE_SESSION: u8 = 0x7F;

/// The state an ECU keeps between two diagnostic requests.
pub struct EcuState {
    /// The active diagnostic session.
    pub session: u8,
    /// The seed handed out by the last SecurityAccess seed request, if any.
    pub seed: Option<u16>,
    /// Whether the security access has been unlocked.
    pub security_unlocked: bool,
}

impl EcuState {
    /// The state at power-on: default session, no seed, locked.
    pub open spec fn initial() -> EcuState {
        EcuState { session: SESSION_DEFAULT, seed: None, security_unlocked: false }
    }

    pub fn new() -> (s: Self)
        ensures
            s == Self::initial(),
    {
        Self { session: SESSION_DEFAULT, seed: None, security_unlocked: false }
    }
}

/// The first byte of a positive response to the service `sid`.
pub open spec fn positive(sid: u8) -> u8 {
    (sid + 0x40) as u8
}

/// The key that unlocks the given seed.
pub open spec fn key_for(seed: u16) -> u16 {
    seed ^ KEY_MASK
}

/// The big-endian value of two bytes.
pub open spec fn be_value(high: u8, low: u8) -> int {
    high as int * 256 + low as int
}

/// A negative response for the service `sid` with the response code `nrc`.
pub open spec fn negative(sid: u8, nrc: u8) -> Seq<u8> {
    seq![NEGATIVE_RESPONSE, sid, nrc]
}

/// The positive response to a read of the identifier 0xF190.
pub open spec fn vin_response() -> Seq<u8> {
    seq![positive(SID_READ_DATA), 0xF1, 0x90, 0x01, 0x02, 0x03, 0x04]
}

/// The positive response to a seed request: the issued seed, high byte first.
pub open spec fn seed_response() -> Seq<u8> {
    seq![positive(SID_SECURITY_ACCESS), SUB_REQUEST_SEED, (ISSUED_SEED / 256) as u8, (ISSUED_SEED % 256) as u8]
}

/// DiagnosticSessionControl: the next state and the response.
pub open spec fn session_control(s: EcuState, req: Seq<u8>) -> (EcuState, Seq<u8>) {
    if req.len() == 2 && (req[1] == SESSION_DEFAULT || req[1] == SESSION_EXTENDED) {
        (
            EcuState { session: req[1], seed: None, security_unlocked: false },
            seq![positive(SID_SESSION_CONTROL), req[1]],
        )
    } else if req.len() == 2 {
        (s, negative(SID_SESSION_CONTROL, NRC_SUB_FUNCTION_NOT_SUPPORTED))
    } else {
        (s, negative(SID_SESSION_CONTROL, NRC_INCORRECT_LENGTH))
    }
}

/// ReadDataByIdentifier: the response (the state does not change).
pub open spec fn read_data(s: EcuState, req: Seq<u8>) -> Seq<u8> {
    if req.len() != 3 {
        negative(SID_READ_DATA, NRC_INCORRECT_LENGTH)
    } else if s.session != SESSION_EXTENDED {
        negative(SID_READ_DATA, NRC_NOT_IN_ACTIVE_SESSION)
    } else if req[1] == 0xF1 && req[2] == 0x90 {
        vin_response()
    } else {
        negative(SID_READ_DATA, NRC_REQUEST_OUT_OF_RANGE)
    }
}

/// SecurityAccess: the next state and the response.
pub open spec fn security_access(s: EcuState, req: Seq<u8>) -> (EcuState, Seq<u8>) {
    if req.len() == 2 && req[1] == SUB_REQUEST_SEED {
        if s.session != SESSION_EXTENDED {
            (s, negative(SID_SECURITY_ACCESS, NRC_CONDITIONS_NOT_CORRECT))
        } else {
            (
                EcuState {
                    session: s.session,
                    seed: Some(ISSUED_SEED),
                    security_unlocked: s.security_unlocked,
                },
                seed_response(),
            )
        }
    } else if req.len() == 4 && req[1] == SUB_SEND_KEY {
        match s.seed {
            None => (s, negative(SID_SECURITY_ACCESS, NRC_REQUEST_SEQUENCE_ERROR)),
            Some(seed) => if be_value(req[2], req[3]) == key_for(seed) {
                (
                    EcuState { session: s.session, seed: None, security_unlocked: true },
                    seq![positive(SID_SECURITY_ACCESS), SUB_SEND_KEY],
                )
            } else {
                (s, negative(SID_SECURITY_ACCESS, NRC_INVALID_KEY))
            },
        }
    } else if req.len() >= 2 && (req[1] == SUB_REQUEST_SEED || req[1] == SUB_SEND_KEY) {
        (s, negative(SID_SECURITY_ACCESS, NRC_INCORRECT_LENGTH))
    } else if req.len() == 2 {
        (s, negative(SID_SECURITY_ACCESS, NRC_SUB_FUNCTION_NOT_SUPPORTED))
    } else {
        (s, negative(SID_SECURITY_ACCESS, NRC_INCORRECT_LENGTH))
    }
}

/// What the ECU in state `s` does with the request `req`: its next state and its response.
pub open spec fn step(s: EcuState, req: Seq<u8>) -> (EcuState, Seq<u8>) {
    if req.len() == 0 {
        (s, Seq::empty())
    } else if req[0] == SID_SESSION_CONTROL {
        session_control(s, req)
    } else if req[0] == SID_READ_DATA {
        (s, read_data(s, req))
    } else if req[0] == SID_SECURITY_ACCESS {
        security_access(s, req)
    } else {
        (s, negative(req[0], NRC_SERVICE_NOT_SUPPORTED))
    }
}

fn calculate_key(seed: u16) -> (key: u16)
    ensures
        key == key_for(seed),
{
    seed ^ KEY_MASK
}

fn session_control_request(state: &mut EcuState, req: &[u8]) -> (res: Vec<u8>)
    requires
        req@.len() >= 1,
        req@[0] == SID_SESSION_CONTROL,
    ensures
        (*final(state), res@) == session_control(*old(state), req@),
{
    if req.len() == 2 && (req[1] == SESSION_DEFAULT || req[1] == SESSION_EXTENDED) {
        let session = req[1];
        state.session = session;
        state.seed = None;
        state.security_unlocked = false;
        vec![SID_SESSION_CONTROL + 0x40, session]
    } else if req.len() == 2 {
        vec![NEGATIVE_RESPONSE, SID_SESSION_CONTROL, NRC_SUB_FUNCTION_NOT_SUPPORTED]
    } else {
        vec![NEGATIVE_RESPONSE, SID_SESSION_CONTROL, NRC_INCORRECT_LENGTH]
    }
}

fn read_data_request(state: &EcuState, req: &[u8]) -> (res: Vec<u8>)
    requires
        req@.len() >= 1,
        req@[0] == SID_READ_DATA,
    ensures
        res@ == read_data(*state, req@),
{
    if req.len() != 3 {
        vec![NEGATIVE_RESPONSE, SID_READ_DATA, NRC_INCORRECT_LENGTH]
    } else if state.session != SESSION_EXTENDED {
        vec![NEGATIVE_RESPONSE, SID_READ_DATA, NRC_NOT_IN_ACTIVE_SESSION]
    } else if req[1] == 0xF1 && req[2] == 0x90 {
        vec![SID_READ_DATA + 0x40, 0xF1, 0x90, 0x01, 0x02, 0x03, 0x04]
    } else {
        vec![NEGATIVE_RESPONSE, SID_READ_DATA, NRC_REQUEST_OUT_OF_RANGE]
    }
}

fn security_access_request(state: &mut EcuState, req: &[u8]) -> (res: Vec<u8>)
    requires
        req@.len() >= 1,
        req@[0] == SID_SECURITY_ACCESS,
    ensures
        (*final(state), res@) == security_access(*old(state), req@),
{
    if req.len() == 2 && req[1] == SUB_REQUEST_SEED {
        if state.session != SESSION_EXTENDED {
            return vec![NEGATIVE_RESPONSE, SID_SECURITY_ACCESS, NRC_CONDITIONS_NOT_CORRECT];
        }
        let seed: u16 = ISSUED_SEED;
        state.seed = Some(seed);
        let high: u8 = (seed / 256) as u8;
        let low: u8 = (seed % 256) as u8;
        vec![SID_SECURITY_ACCESS + 0x40, SUB_REQUEST_SEED, high, low]
    } else if req.len() == 4 && req[1] == SUB_SEND_KEY {
        let seed = match state.seed {
            None => {
                return vec![NEGATIVE_RESPONSE, SID_SECURITY_ACCESS, NRC_REQUEST_SEQUENCE_ERROR];
            },
            Some(seed) => seed,
        };
        let received_key: u16 = (req[2] as u16) * 256 + (req[3] as u16);
        let expected_key = calculate_key(seed);
        if received_key == expected_key {
            state.security_unlocked = true;
            state.seed = None;
            vec![SID_SECURITY_ACCESS + 0x40, SUB_SEND_KEY]
        } else {
            vec![NEGATIVE_RESPONSE, SID_SECURITY_ACCESS, NRC_INVALID_KEY]
        }
    } else if req.len() >= 2 && (req[1] == SUB_REQUEST_SEED || req[1] == SUB_SEND_KEY) {
        vec![NEGATIVE_RESPONSE, SID_SECURITY_ACCESS, NRC_INCORRECT_LENGTH]
    } else if req.len() == 2 {
        vec![NEGATIVE_RESPONSE, SID_SECURITY_ACCESS, NRC_SUB_FUNCTION_NOT_SUPPORTED]
    } else {
        vec![NEGATIVE_RESPONSE, SID_SECURITY_ACCESS, NRC_INCORRECT_LENGTH]
    }
}

/// Handles one UDS request: updates the ECU state and returns the response.
pub fn handle_request(state: &mut EcuState, req: &[u8]) -> (res: Vec<u8>)
    ensures
        (*final(state), res@) == step(*old(state), req@),
{
    if req.len() == 0 {
        return Vec::new();
    }
    let sid = req[0];
    if sid == SID_SESSION_CONTROL {
        session_control_request(state, req)
    } else if sid == SID_READ_DATA {
        read_data_request(state, req)
    } else if sid == SID_SECURITY_ACCESS {
        security_access_request(state, req)
    } else {
        vec![NEGATIVE_RESPONSE, sid, NRC_SERVICE_NOT_SUPPORTED]
    }
}

} // verus!
