use uds_ecu_rust::ecu::EcuState;
use uds_ecu_rust::sequence::replay_sequence;

fn replay(data: &[u8]) -> (EcuState, Vec<Vec<u8>>) {
    let mut state = EcuState::new();
    let responses = replay_sequence(&mut state, data);
    (state, responses)
}

#[test]
fn empty_sequence_does_nothing() {
    let (state, responses) = replay(&[]);
    assert!(responses.is_empty());
    assert_eq!(state.session, 0x01);
}

#[test]
fn did_scenario_from_docs() {
    let (state, responses) = replay(&[0x01, 0x00, 0x02, 0x10, 0x03, 0x01, 0x00, 0x03, 0x22, 0xF1, 0x90]);
    assert_eq!(responses, vec![vec![0x50, 0x03], vec![0x62, 0xF1, 0x90, 0x01, 0x02, 0x03, 0x04]]);
    assert_eq!(state.session, 0x03);
}

#[test]
fn security_scenario_from_docs() {
    let data = [
        0x01, 0x00, 0x02, 0x10, 0x03, 0x01, 0x00, 0x02, 0x27, 0x01, 0x01, 0x00, 0x04, 0x27, 0x02, 0xB8, 0x9E,
    ];
    let (state, responses) = replay(&data);
    assert_eq!(responses, vec![vec![0x50, 0x03], vec![0x67, 0x01, 0x12, 0x34], vec![0x67, 0x02]]);
    assert!(state.security_unlocked);
}

#[test]
fn reset_restarts_from_power_on() {
    let data = [0x01, 0x00, 0x02, 0x10, 0x03, 0x04, 0x00, 0x00, 0x01, 0x00, 0x03, 0x22, 0xF1, 0x90];
    let (state, responses) = replay(&data);
    assert_eq!(responses, vec![vec![0x50, 0x03], vec![0x7F, 0x22, 0x7F]]);
    assert_eq!(state.session, 0x01);
}

#[test]
fn reset_payload_is_ignored() {
    let data = [0x01, 0x00, 0x02, 0x10, 0x03, 0x04, 0x00, 0x02, 0xAA, 0xBB, 0x01, 0x00, 0x01, 0x99];
    let (state, responses) = replay(&data);
    assert_eq!(responses, vec![vec![0x50, 0x03], vec![0x7F, 0x99, 0x11]]);
    assert_eq!(state.session, 0x01);
}

#[test]
fn unknown_action_skipped() {
    let data = [0x02, 0x00, 0x02, 0x10, 0x03, 0x01, 0x00, 0x03, 0x22, 0xF1, 0x90];
    let (state, responses) = replay(&data);
    assert_eq!(responses, vec![vec![0x7F, 0x22, 0x7F]]);
    assert_eq!(state.session, 0x01);
}

#[test]
fn truncated_record_stops_replay() {
    // The second record declares three payload bytes but has two.
    let data = [0x01, 0x00, 0x02, 0x10, 0x03, 0x01, 0x00, 0x03, 0x22, 0xF1];
    let (state, responses) = replay(&data);
    assert_eq!(responses, vec![vec![0x50, 0x03]]);
    assert_eq!(state.session, 0x03);
}

#[test]
fn short_header_stops_replay() {
    let (_, responses) = replay(&[0x01, 0x00]);
    assert!(responses.is_empty());
    let (_, responses) = replay(&[0x01, 0x00, 0x02, 0x10, 0x03, 0x01]);
    assert_eq!(responses, vec![vec![0x50, 0x03]]);
}

#[test]
fn empty_request_record_gives_empty_response() {
    let (_, responses) = replay(&[0x01, 0x00, 0x00]);
    assert_eq!(responses, vec![Vec::<u8>::new()]);
}

#[test]
fn length_is_big_endian() {
    // 0x0100 = 256 payload bytes.
    let mut data = vec![0x01, 0x01, 0x00, 0x31];
    data.extend(std::iter::repeat(0u8).take(255));
    let (_, responses) = replay(&data);
    assert_eq!(responses, vec![vec![0x7F, 0x31, 0x11]]);
    // With only 255 bytes present the record is incomplete.
    data.pop();
    let (_, responses) = replay(&data);
    assert!(responses.is_empty());
}

#[test]
fn replay_continues_from_given_state() {
    let mut state = EcuState::new();
    replay_sequence(&mut state, &[0x01, 0x00, 0x02, 0x10, 0x03]);
    let responses = replay_sequence(&mut state, &[0x01, 0x00, 0x03, 0x22, 0xF1, 0x90]);
    assert_eq!(responses, vec![vec![0x62, 0xF1, 0x90, 0x01, 0x02, 0x03, 0x04]]);
}
