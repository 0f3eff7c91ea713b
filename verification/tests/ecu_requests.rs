use uds_ecu_rust::ecu::{handle_request, EcuState};

fn send(state: &mut EcuState, req: &[u8]) -> Vec<u8> {
    handle_request(state, req)
}

fn extended() -> EcuState {
    let mut state = EcuState::new();
    assert_eq!(send(&mut state, &[0x10, 0x03]), vec![0x50, 0x03]);
    state
}

#[test]
fn new_state_is_default_session_locked() {
    let state = EcuState::new();
    assert_eq!(state.session, 0x01);
    assert_eq!(state.seed, None);
    assert!(!state.security_unlocked);
}

#[test]
fn empty_request_has_empty_response() {
    let mut state = EcuState::new();
    assert_eq!(send(&mut state, &[]), Vec::<u8>::new());
    assert_eq!(state.session, 0x01);
}

#[test]
fn session_control_default_and_extended() {
    let mut state = EcuState::new();
    assert_eq!(send(&mut state, &[0x10, 0x03]), vec![0x50, 0x03]);
    assert_eq!(state.session, 0x03);
    assert_eq!(send(&mut state, &[0x10, 0x01]), vec![0x50, 0x01]);
    assert_eq!(state.session, 0x01);
}

#[test]
fn session_control_unsupported_sub_function() {
    let mut state = EcuState::new();
    assert_eq!(send(&mut state, &[0x10, 0x05]), vec![0x7F, 0x10, 0x12]);
    assert_eq!(send(&mut state, &[0x10, 0x02]), vec![0x7F, 0x10, 0x12]);
    assert_eq!(state.session, 0x01);
}

#[test]
fn session_control_wrong_length() {
    let mut state = EcuState::new();
    assert_eq!(send(&mut state, &[0x10]), vec![0x7F, 0x10, 0x13]);
    assert_eq!(send(&mut state, &[0x10, 0x03, 0x00]), vec![0x7F, 0x10, 0x13]);
    assert_eq!(state.session, 0x01);
}

#[test]
fn read_vin_refused_in_default_session() {
    let mut state = EcuState::new();
    assert_eq!(send(&mut state, &[0x22, 0xF1, 0x90]), vec![0x7F, 0x22, 0x7F]);
}

#[test]
fn read_vin_in_extended_session() {
    let mut state = extended();
    assert_eq!(
        send(&mut state, &[0x22, 0xF1, 0x90]),
        vec![0x62, 0xF1, 0x90, 0x01, 0x02, 0x03, 0x04]
    );
}

#[test]
fn read_unknown_identifier() {
    let mut state = extended();
    assert_eq!(send(&mut state, &[0x22, 0x12, 0x34]), vec![0x7F, 0x22, 0x31]);
    let mut default = EcuState::new();
    assert_eq!(send(&mut default, &[0x22, 0x12, 0x34]), vec![0x7F, 0x22, 0x7F]);
}

#[test]
fn read_wrong_length() {
    let mut state = extended();
    assert_eq!(send(&mut state, &[0x22, 0xF1]), vec![0x7F, 0x22, 0x13]);
    assert_eq!(send(&mut state, &[0x22]), vec![0x7F, 0x22, 0x13]);
    assert_eq!(send(&mut state, &[0x22, 0xF1, 0x90, 0x00]), vec![0x7F, 0x22, 0x13]);
}

#[test]
fn seed_refused_outside_extended_session() {
    let mut state = EcuState::new();
    assert_eq!(send(&mut state, &[0x27, 0x01]), vec![0x7F, 0x27, 0x22]);
    assert_eq!(state.seed, None);
}

#[test]
fn seed_issued_in_extended_session() {
    let mut state = extended();
    assert_eq!(send(&mut state, &[0x27, 0x01]), vec![0x67, 0x01, 0x12, 0x34]);
    assert_eq!(state.seed, Some(0x1234));
}

#[test]
fn correct_key_unlocks_and_uses_up_seed() {
    let mut state = extended();
    send(&mut state, &[0x27, 0x01]);
    assert_eq!(send(&mut state, &[0x27, 0x02, 0xB8, 0x9E]), vec![0x67, 0x02]);
    assert!(state.security_unlocked);
    assert_eq!(state.seed, None);
    // The seed is used up: sending the key again is out of sequence.
    assert_eq!(send(&mut state, &[0x27, 0x02, 0xB8, 0x9E]), vec![0x7F, 0x27, 0x24]);
    assert!(state.security_unlocked);
}

#[test]
fn key_without_seed_is_sequence_error() {
    let mut state = extended();
    assert_eq!(send(&mut state, &[0x27, 0x02, 0xB8, 0x9E]), vec![0x7F, 0x27, 0x24]);
    assert!(!state.security_unlocked);
}

#[test]
fn wrong_key_is_invalid_key() {
    let mut state = extended();
    send(&mut state, &[0x27, 0x01]);
    assert_eq!(send(&mut state, &[0x27, 0x02, 0x12, 0x34]), vec![0x7F, 0x27, 0x35]);
    assert!(!state.security_unlocked);
    assert_eq!(state.seed, Some(0x1234));
    // A byte-swapped key is refused too: the key is read big-endian.
    assert_eq!(send(&mut state, &[0x27, 0x02, 0x9E, 0xB8]), vec![0x7F, 0x27, 0x35]);
}

#[test]
fn security_access_wrong_lengths_and_sub_functions() {
    let mut state = extended();
    assert_eq!(send(&mut state, &[0x27]), vec![0x7F, 0x27, 0x13]);
    assert_eq!(send(&mut state, &[0x27, 0x02]), vec![0x7F, 0x27, 0x13]);
    assert_eq!(send(&mut state, &[0x27, 0x01, 0x00]), vec![0x7F, 0x27, 0x13]);
    assert_eq!(send(&mut state, &[0x27, 0x02, 0xB8]), vec![0x7F, 0x27, 0x13]);
    assert_eq!(send(&mut state, &[0x27, 0x05]), vec![0x7F, 0x27, 0x12]);
    assert_eq!(send(&mut state, &[0x27, 0x05, 0x00]), vec![0x7F, 0x27, 0x13]);
    assert_eq!(state.seed, None);
}

#[test]
fn unknown_service_not_supported() {
    let mut state = EcuState::new();
    assert_eq!(send(&mut state, &[0x99]), vec![0x7F, 0x99, 0x11]);
    assert_eq!(send(&mut state, &[0x3E, 0x00]), vec![0x7F, 0x3E, 0x11]);
}

#[test]
fn session_change_drops_seed_and_unlock() {
    let mut state = extended();
    send(&mut state, &[0x27, 0x01]);
    send(&mut state, &[0x27, 0x02, 0xB8, 0x9E]);
    assert!(state.security_unlocked);
    assert_eq!(send(&mut state, &[0x10, 0x03]), vec![0x50, 0x03]);
    assert!(!state.security_unlocked);
    send(&mut state, &[0x27, 0x01]);
    assert_eq!(state.seed, Some(0x1234));
    assert_eq!(send(&mut state, &[0x10, 0x01]), vec![0x50, 0x01]);
    assert_eq!(state.seed, None);
    assert_eq!(send(&mut state, &[0x27, 0x02, 0xB8, 0x9E]), vec![0x7F, 0x27, 0x24]);
}

#[test]
fn refused_request_leaves_state_unchanged() {
    let mut state = extended();
    send(&mut state, &[0x27, 0x01]);
    for req in [&[0x10u8, 0x05][..], &[0x22, 0x12, 0x34], &[0x27, 0x02, 0x00, 0x00], &[0x31, 0x01]] {
        let before = (state.session, state.seed, state.security_unlocked);
        let res = send(&mut state, req);
        assert_eq!(res[0], 0x7F);
        assert_eq!((state.session, state.seed, state.security_unlocked), before);
    }
}

#[test]
fn readme_security_scenario() {
    let mut state = EcuState::new();
    assert_eq!(send(&mut state, &[0x10, 0x03]), vec![0x50, 0x03]);
    assert_eq!(send(&mut state, &[0x22, 0xF1, 0x90]), vec![0x62, 0xF1, 0x90, 0x01, 0x02, 0x03, 0x04]);
    assert_eq!(send(&mut state, &[0x27, 0x01]), vec![0x67, 0x01, 0x12, 0x34]);
    assert_eq!(send(&mut state, &[0x27, 0x02, 0xB8, 0x9E]), vec![0x67, 0x02]);
}

#[test]
fn response_shape_positive_or_negative() {
    let mut state = EcuState::new();
    let reqs: Vec<Vec<u8>> = vec![
        vec![0x10, 0x03], vec![0x22, 0xF1, 0x90], vec![0x27, 0x01], vec![0x27, 0x02, 0xB8, 0x9E],
        vec![0x10], vec![0x22, 0x00, 0x00], vec![0x27, 0x09], vec![0x00], vec![0xFF, 0x01, 0x02],
    ];
    for req in reqs {
        let res = send(&mut state, &req);
        assert!(res[0] == req[0] + 0x40 || (res.len() == 3 && res[0] == 0x7F && res[1] == req[0]));
    }
}
