use librepods_att::connect::{
    poll_step, socket_connect_result, PeerPoll, PollStep, SocketConnect, CONNECT_TIMEOUT_MS,
    POLL_INTERVAL_MS,
};
use librepods_att::error::AttError;
use librepods_att::handles::{ATTCCCDHandles, ATTHandles};
use librepods_att::pdu::{parse_inbound, read_request, write_request, Inbound};
use librepods_att::session::{Dispatch, Session, WaitStep, RESPONSE_TIMEOUT_MS};

fn connected_session() -> Session {
    let mut s = Session::new();
    assert_eq!(socket_connect_result(SocketConnect::Connected), Ok(()));
    assert_eq!(poll_step(PeerPoll::Channel(0x40), 0, CONNECT_TIMEOUT_MS), PollStep::Ready);
    s.on_connected();
    s
}

#[test]
fn cccd_handle_is_value_plus_one() {
    for h in [ATTHandles::Transparency, ATTHandles::LoudSoundReduction, ATTHandles::HearingAid] {
        assert_eq!(ATTCCCDHandles::from(h).value(), h.value() + 1);
        assert_eq!(h.cccd(), ATTCCCDHandles::from(h));
    }
    assert_eq!(ATTHandles::Transparency.value(), 0x18);
    assert_eq!(ATTHandles::LoudSoundReduction.value(), 0x1B);
    assert_eq!(ATTHandles::HearingAid.value(), 0x2A);
    assert_eq!(ATTCCCDHandles::Transparency.value(), 0x19);
    assert_eq!(ATTCCCDHandles::LoudSoundReduction.value(), 0x1C);
    assert_eq!(ATTCCCDHandles::HearingAid.value(), 0x2B);
}

#[test]
fn write_frame_layout() {
    let s = connected_session();
    let f = s.write_frame(ATTHandles::LoudSoundReduction, &[0x01, 0x02, 0x03]).unwrap();
    assert_eq!(f, vec![0x12, 0x1B, 0x00, 0x01, 0x02, 0x03]);
    assert_eq!(write_request(0x1234, &[]), vec![0x12, 0x34, 0x12]);
}

#[test]
fn read_frame_layout() {
    let s = connected_session();
    assert_eq!(s.read_frame(ATTHandles::Transparency).unwrap(), vec![0x0A, 0x18, 0x00]);
    assert_eq!(read_request(0xABCD), vec![0x0A, 0xCD, 0xAB]);
}

#[test]
fn notification_reaches_only_its_subscribers() {
    let mut s = connected_session();
    s.register_listener(ATTHandles::Transparency, 1);
    s.register_listener(ATTHandles::HearingAid, 2);
    s.register_listener(ATTHandles::Transparency, 3);
    s.register_listener(ATTHandles::Transparency, 1);
    let d = s.receive(&[0x1B, 0x18, 0x00, 0xAA, 0xBB]);
    assert_eq!(d, Dispatch::Notify { targets: vec![1, 3, 1], value: vec![0xAA, 0xBB] });
    let d = s.receive(&[0x1B, 0x2A, 0x00]);
    assert_eq!(d, Dispatch::Notify { targets: vec![2], value: vec![] });
    let d = s.receive(&[0x1B, 0x1B, 0x00, 0x05]);
    assert_eq!(d, Dispatch::Notify { targets: vec![], value: vec![0x05] });
    assert_eq!(s.poll_response(s.generation(), 0), WaitStep::Pending);
}

#[test]
fn response_goes_to_next_waiter_in_order() {
    let mut s = connected_session();
    s.register_listener(ATTHandles::Transparency, 7);
    let g = s.generation();
    assert_eq!(s.receive(&[0x0B, 0x01]), Dispatch::Queued);
    assert_eq!(s.receive(&[0x13]), Dispatch::Queued);
    assert_eq!(s.poll_response(g, 0), WaitStep::Ready(vec![0x01]));
    assert_eq!(s.poll_response(g, 0), WaitStep::Ready(vec![]));
    assert_eq!(s.poll_response(g, 0), WaitStep::Pending);
}

#[test]
fn requests_before_connect_fail() {
    let s = Session::new();
    assert!(!s.is_connected());
    assert_eq!(s.read_frame(ATTHandles::HearingAid), Err(AttError::NotConnected));
    assert_eq!(s.write_frame(ATTHandles::HearingAid, &[1]), Err(AttError::NotConnected));
    assert_eq!(s.enable_notifications_frame(ATTHandles::Transparency), Err(AttError::NotConnected));
}

#[test]
fn response_wait_times_out() {
    let mut s = connected_session();
    let g = s.generation();
    assert_eq!(s.poll_response(g, RESPONSE_TIMEOUT_MS - 1), WaitStep::Pending);
    assert_eq!(s.poll_response(g, RESPONSE_TIMEOUT_MS), WaitStep::Failed(AttError::ResponseTimeout));
    assert_eq!(RESPONSE_TIMEOUT_MS, 2000);
}

#[test]
fn enable_notifications_scenario() {
    let mut s = connected_session();
    let g = s.generation();
    let f = s.enable_notifications_frame(ATTHandles::Transparency).unwrap();
    assert_eq!(f, vec![0x12, 0x19, 0x00, 0x01, 0x00]);
    assert_eq!(s.receive(&[0x13]), Dispatch::Queued);
    assert_eq!(s.poll_response(g, 10), WaitStep::Ready(vec![]));
}

#[test]
fn read_hearing_aid_scenario() {
    let mut s = connected_session();
    let g = s.generation();
    assert_eq!(s.read_frame(ATTHandles::HearingAid).unwrap(), vec![0x0A, 0x2A, 0x00]);
    assert_eq!(s.receive(&[0x0B, 0xDE, 0xAD]), Dispatch::Queued);
    assert_eq!(s.poll_response(g, 10), WaitStep::Ready(vec![0xDE, 0xAD]));
}

#[test]
fn connect_never_ready_times_out() {
    let timeout: u64 = 1000;
    let mut elapsed: u64 = 0;
    let outcome = loop {
        match poll_step(PeerPoll::Channel(0), elapsed, timeout) {
            PollStep::Wait => elapsed += POLL_INTERVAL_MS,
            other => break other,
        }
    };
    assert_eq!(outcome, PollStep::Failed(AttError::ConnectTimeout));
    assert_eq!(elapsed, 1000);
    assert_eq!(poll_step(PeerPoll::OtherError, CONNECT_TIMEOUT_MS, CONNECT_TIMEOUT_MS), PollStep::Failed(AttError::ConnectTimeout));
}

#[test]
fn connect_failures_map_to_errors() {
    assert_eq!(socket_connect_result(SocketConnect::Failed), Err(AttError::ConnectFailed));
    assert_eq!(socket_connect_result(SocketConnect::TimedOut), Err(AttError::ConnectTimeout));
    assert_eq!(poll_step(PeerPoll::NotConnected, 0, CONNECT_TIMEOUT_MS), PollStep::Failed(AttError::PeerDisconnected));
    assert_eq!(poll_step(PeerPoll::OtherError, 0, CONNECT_TIMEOUT_MS), PollStep::Wait);
}

#[test]
fn empty_frame_disconnects() {
    let mut s = connected_session();
    assert_eq!(s.receive(&[]), Dispatch::Disconnected);
    assert!(!s.is_connected());
    assert_eq!(s.read_frame(ATTHandles::Transparency), Err(AttError::NotConnected));
}

#[test]
fn channel_error_disconnects() {
    let mut s = connected_session();
    s.on_disconnected();
    assert_eq!(s.write_frame(ATTHandles::Transparency, &[0]), Err(AttError::NotConnected));
}

#[test]
fn truncated_notification_is_dropped() {
    let mut s = connected_session();
    s.register_listener(ATTHandles::Transparency, 1);
    assert_eq!(s.receive(&[0x1B, 0x18]), Dispatch::Dropped);
    assert_eq!(parse_inbound(&[0x1B]), Inbound::Truncated);
    assert_eq!(parse_inbound(&[]), Inbound::Closed);
    assert_eq!(parse_inbound(&[0x0B]), Inbound::Response { payload: vec![] });
    assert_eq!(parse_inbound(&[0x1B, 0x34, 0x12, 9]), Inbound::Notification { handle: 0x1234, value: vec![9] });
}

#[test]
fn reconnect_closes_the_old_relay_and_drops_subscribers() {
    let mut s = connected_session();
    s.register_listener(ATTHandles::Transparency, 1);
    let g = s.generation();
    s.receive(&[0x0B, 0x01]);
    s.on_connected();
    assert_ne!(s.generation(), g);
    assert_eq!(s.poll_response(g, 0), WaitStep::Failed(AttError::ChannelClosed));
    assert_eq!(s.poll_response(s.generation(), 0), WaitStep::Pending);
    let d = s.receive(&[0x1B, 0x18, 0x00, 0x01]);
    assert_eq!(d, Dispatch::Notify { targets: vec![], value: vec![0x01] });
}
