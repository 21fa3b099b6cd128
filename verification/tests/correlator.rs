use golioth_rs::codec::Response;
use golioth_rs::correlator::{CorrelatorState, Event, ResponseCorrelator, Step};
use golioth_rs::errors::{CodecError, Error, TransportError};

fn datagram_with(token: &[u8], payload: &[u8]) -> Vec<u8> {
    let mut datagram = vec![0x60 | token.len() as u8, 0x45, 0x00, 0x07];
    datagram.extend_from_slice(token);
    if !payload.is_empty() {
        datagram.push(0xff);
        datagram.extend_from_slice(payload);
    }
    datagram
}

#[test]
fn a_new_correlator_is_idle_and_stays_idle() {
    let mut correlator = ResponseCorrelator::new();
    assert_eq!(correlator.current_state(), CorrelatorState::Idle);
    assert_eq!(correlator.on_datagram(&datagram_with(&[1, 2], b"x")), Step::Idle);
    assert_eq!(correlator.step(Event::DeadlineElapsed), Step::Idle);
    assert_eq!(correlator.step(Event::ChannelFailed(TransportError { code: -1 })), Step::Idle);
    assert_eq!(correlator.current_state(), CorrelatorState::Idle);
}

#[test]
fn a_response_with_another_token_is_passed_over() {
    let mut correlator = ResponseCorrelator::new();
    correlator.begin(vec![1, 2, 3, 4, 5, 6, 7, 8], 2);
    assert_eq!(correlator.current_state(), CorrelatorState::AwaitingMatch);
    let other = datagram_with(&[8, 7, 6, 5, 4, 3, 2, 1], b"\"other\"");
    assert_eq!(correlator.on_datagram(&other), Step::Wait);
    assert_eq!(correlator.current_state(), CorrelatorState::AwaitingMatch);
    let matching = datagram_with(&[1, 2, 3, 4, 5, 6, 7, 8], b"\"mine\"");
    assert_eq!(correlator.on_datagram(&matching), Step::Deliver(b"\"mine\"".to_vec()));
    assert_eq!(correlator.current_state(), CorrelatorState::Matched);
}

#[test]
fn a_truncated_datagram_is_passed_over() {
    let mut correlator = ResponseCorrelator::new();
    correlator.begin(vec![1, 2, 3, 4, 5, 6, 7, 8], 2);
    let matching = datagram_with(&[1, 2, 3, 4, 5, 6, 7, 8], b"{\"blue\":true}");
    assert_eq!(correlator.on_datagram(&matching[..3]), Step::Wait);
    assert_eq!(correlator.on_datagram(&matching[..9]), Step::Wait);
    assert_eq!(correlator.on_datagram(&[]), Step::Wait);
    assert_eq!(correlator.current_state(), CorrelatorState::AwaitingMatch);
    assert_eq!(correlator.on_datagram(&matching), Step::Deliver(b"{\"blue\":true}".to_vec()));
}

#[test]
fn a_datagram_with_broken_options_is_passed_over() {
    let mut correlator = ResponseCorrelator::new();
    correlator.begin(vec![1, 2], 2);
    // the token is the awaited one, but the option announces more bytes than follow
    assert_eq!(correlator.on_datagram(&[0x62, 0x45, 0x00, 0x07, 1, 2, 0xb5, b'a']), Step::Wait);
    // the reserved option number
    assert_eq!(correlator.on_datagram(&[0x62, 0x45, 0x00, 0x07, 1, 2, 0xf0]), Step::Wait);
    assert_eq!(correlator.current_state(), CorrelatorState::AwaitingMatch);
    // with whole options the same datagram settles the read
    assert_eq!(
        correlator.on_datagram(&[0x62, 0x45, 0x00, 0x07, 1, 2, 0xc1, 50, 0xff, b'7']),
        Step::Deliver(b"7".to_vec())
    );
}

#[test]
fn a_token_that_only_starts_like_the_awaited_one_does_not_match() {
    let mut correlator = ResponseCorrelator::new();
    correlator.begin(vec![1, 2, 3, 4], 2);
    assert_eq!(correlator.on_datagram(&datagram_with(&[1, 2, 3], b"x")), Step::Wait);
    assert_eq!(correlator.on_datagram(&datagram_with(&[1, 2, 3, 4, 5], b"x")), Step::Wait);
    assert_eq!(correlator.on_datagram(&datagram_with(&[], b"x")), Step::Wait);
    assert_eq!(correlator.on_datagram(&datagram_with(&[1, 2, 3, 4], b"x")), Step::Deliver(b"x".to_vec()));
}

#[test]
fn the_deadline_fails_the_read_with_a_timeout() {
    let mut correlator = ResponseCorrelator::new();
    correlator.begin(vec![9; 8], 2);
    for _ in 0..50 {
        assert_eq!(correlator.on_datagram(&datagram_with(&[1; 8], b"noise")), Step::Wait);
    }
    assert_eq!(correlator.step(Event::DeadlineElapsed), Step::Fail(Error::Timeout));
    assert_eq!(correlator.current_state(), CorrelatorState::TimedOut);
}

#[test]
fn the_deadline_is_the_one_given_at_the_start() {
    let mut correlator = ResponseCorrelator::new();
    correlator.begin(vec![1], 30);
    assert_eq!(correlator.deadline_secs(), 30);
    assert_eq!(correlator.step(Event::Malformed(CodecError::InvalidOptionLength)), Step::Wait);
    assert_eq!(correlator.deadline_secs(), 30);
    assert_eq!(correlator.step(Event::DeadlineElapsed), Step::Fail(Error::Timeout));
    correlator.begin(vec![2], 0);
    assert_eq!(correlator.deadline_secs(), 0);
    assert_eq!(correlator.current_state(), CorrelatorState::AwaitingMatch);
}

#[test]
fn a_failure_of_the_channel_fails_the_read() {
    let mut correlator = ResponseCorrelator::new();
    correlator.begin(vec![9; 8], 2);
    let failure = TransportError { code: -116 };
    assert_eq!(
        correlator.step(Event::ChannelFailed(failure)),
        Step::Fail(Error::Transport(failure))
    );
    assert_eq!(correlator.current_state(), CorrelatorState::ChannelFailed);
}

#[test]
fn a_settled_read_takes_no_further_events() {
    let mut correlator = ResponseCorrelator::new();
    correlator.begin(vec![5; 8], 2);
    assert_eq!(correlator.step(Event::DeadlineElapsed), Step::Fail(Error::Timeout));
    // the response arrives late
    assert_eq!(correlator.on_datagram(&datagram_with(&[5; 8], b"late")), Step::Idle);
    assert_eq!(correlator.step(Event::DeadlineElapsed), Step::Idle);
    assert_eq!(correlator.current_state(), CorrelatorState::TimedOut);
}

#[test]
fn a_correlator_can_be_used_again_after_each_outcome() {
    let mut correlator = ResponseCorrelator::new();
    correlator.begin(vec![1; 8], 2);
    assert_eq!(correlator.step(Event::DeadlineElapsed), Step::Fail(Error::Timeout));
    correlator.begin(vec![2; 8], 2);
    assert_eq!(correlator.on_datagram(&datagram_with(&[1; 8], b"old")), Step::Wait);
    assert_eq!(correlator.on_datagram(&datagram_with(&[2; 8], b"new")), Step::Deliver(b"new".to_vec()));
    correlator.begin(vec![3; 8], 2);
    assert_eq!(correlator.current_state(), CorrelatorState::AwaitingMatch);
}

#[test]
fn events_are_judged_as_datagrams_are() {
    let mut correlator = ResponseCorrelator::new();
    correlator.begin(vec![4, 4], 2);
    assert_eq!(correlator.step(Event::Malformed(CodecError::InvalidHeader)), Step::Wait);
    let other = Response { message_id: 1, code: 0x45, token: vec![4], payload: vec![1] };
    assert_eq!(correlator.step(Event::Response(other)), Step::Wait);
    let mine = Response { message_id: 2, code: 0x84, token: vec![4, 4], payload: Vec::new() };
    assert_eq!(correlator.step(Event::Response(mine)), Step::Deliver(Vec::new()));
    assert_eq!(correlator.current_state(), CorrelatorState::Matched);
}
