use packet_capture::controller::CaptureController;
use packet_capture::interface::LinkInterface;
use packet_capture::packet::{Protocol, TcpFlags};
use packet_capture::session::{
    CaptureAction, CaptureError, CaptureEvent, CaptureSession, CaptureStatus, SessionState,
};

fn iface(name: &str, up: bool, loopback: bool) -> LinkInterface {
    LinkInterface {
        name: name.to_string(),
        description: String::new(),
        mac: None,
        addresses: Vec::new(),
        up,
        loopback,
    }
}

fn table() -> Vec<LinkInterface> {
    vec![iface("lo", true, true), iface("eth0", true, false), iface("eth1", true, false)]
}

fn syn_frame() -> Vec<u8> {
    let mut frame = vec![0xff, 0xff, 0xff, 0xff, 0xff, 0xff, 2, 0, 0, 0, 0, 1, 0x08, 0x00];
    frame.extend_from_slice(&[0x45, 0, 0, 40, 0, 1, 0x40, 0, 64, 6, 0, 0]);
    frame.extend_from_slice(&[192, 168, 1, 10, 93, 184, 216, 34]);
    frame.extend_from_slice(&[0xc0, 0x00, 0x01, 0xbb, 0, 0, 0, 1, 0, 0, 0, 0, 0x50, 0x02]);
    frame.extend_from_slice(&[0xff, 0xff, 0, 0, 0, 0]);
    frame
}

fn arp_frame() -> Vec<u8> {
    let mut frame = vec![0xff, 0xff, 0xff, 0xff, 0xff, 0xff, 2, 0, 0, 0, 0, 1, 0x08, 0x06];
    frame.extend_from_slice(&[0u8; 28]);
    frame
}

fn failure(message: &str) -> CaptureAction {
    CaptureAction::EmitStatus(CaptureStatus {
        success: false,
        message: message.to_string(),
        interface_name: None,
    })
}

fn running_session() -> CaptureSession {
    let mut session = CaptureSession::new(None);
    session.step_at(CaptureEvent::InterfacesListed(table()), 0);
    session.step_at(CaptureEvent::ChannelOpened, 0);
    session
}

#[test]
fn capture_runs_from_start_to_stop() {
    let mut session = CaptureSession::new(None);
    assert_eq!(session.state(), SessionState::Idle);
    assert_eq!(
        session.step_at(CaptureEvent::InterfacesListed(table()), 0),
        CaptureAction::OpenChannel(1)
    );
    assert_eq!(session.state(), SessionState::Idle);
    assert_eq!(
        session.step_at(CaptureEvent::ChannelOpened, 0),
        CaptureAction::EmitStatus(CaptureStatus {
            success: true,
            message: "Capture started on interface: eth0".to_string(),
            interface_name: Some("eth0".to_string()),
        })
    );
    assert_eq!(session.state(), SessionState::Running);
    assert_eq!(session.step_at(CaptureEvent::LoopTurn, 0), CaptureAction::ReadFrame);
    assert!(matches!(
        session.step_at(CaptureEvent::FrameRead(syn_frame()), 0),
        CaptureAction::EmitPacket(_)
    ));
    assert_eq!(session.state(), SessionState::Running);
    assert_eq!(session.step_at(CaptureEvent::StopRequested, 0), CaptureAction::Nothing);
    assert_eq!(session.state(), SessionState::Stopping);
    assert_eq!(
        session.step_at(CaptureEvent::LoopTurn, 0),
        CaptureAction::EmitStatus(CaptureStatus {
            success: true,
            message: "stopped".to_string(),
            interface_name: Some("eth0".to_string()),
        })
    );
    assert_eq!(session.state(), SessionState::Stopped);
}

#[test]
fn one_syn_packet_is_captured_between_start_and_stop() {
    let interfaces = vec![iface("eth0", true, false), iface("wlan0", true, false)];
    let mut controller = CaptureController::new();
    let mut statuses = Vec::new();
    let mut packets = Vec::new();
    let mut deliver = |action: CaptureAction| match action {
        CaptureAction::EmitStatus(status) => statuses.push(status),
        CaptureAction::EmitPacket(record) => packets.push(record),
        _ => {}
    };

    assert_eq!(controller.start_capture(None), Ok(()));
    assert_eq!(
        controller.step_at(CaptureEvent::InterfacesListed(interfaces), 0),
        CaptureAction::OpenChannel(0)
    );
    deliver(controller.step_at(CaptureEvent::ChannelOpened, 0));
    assert_eq!(controller.step_at(CaptureEvent::LoopTurn, 0), CaptureAction::ReadFrame);
    deliver(controller.step_at(CaptureEvent::FrameRead(syn_frame()), 1_700_000_000));
    assert_eq!(controller.step_at(CaptureEvent::LoopTurn, 0), CaptureAction::ReadFrame);
    controller.stop_capture();
    deliver(controller.step_at(CaptureEvent::FrameRead(arp_frame()), 1_700_000_001));
    deliver(controller.step_at(CaptureEvent::LoopTurn, 0));
    deliver(controller.step_at(CaptureEvent::LoopTurn, 0));

    assert_eq!(packets.len(), 1);
    assert_eq!(packets[0].protocol, Protocol::Tcp);
    assert_eq!(
        packets[0].flags,
        Some(TcpFlags { syn: true, ack: false, fin: false, rst: false })
    );
    assert_eq!(packets[0].source, "192.168.1.10");
    assert_eq!(packets[0].destination, "93.184.216.34");
    assert_eq!(packets[0].source_port, Some(49152));
    assert_eq!(packets[0].dest_port, Some(443));
    assert_eq!(packets[0].sequence, Some(1));
    assert_eq!(packets[0].timestamp, "1700000000");
    assert_eq!(packets[0].length, 40);
    assert_eq!(packets[0].ttl, 64);
    assert_eq!(packets[0].identification, 1);
    assert_eq!(
        statuses,
        vec![
            CaptureStatus {
                success: true,
                message: "Capture started on interface: eth0".to_string(),
                interface_name: Some("eth0".to_string()),
            },
            CaptureStatus {
                success: true,
                message: "stopped".to_string(),
                interface_name: Some("eth0".to_string()),
            },
        ]
    );
    assert_eq!(controller.state(), Some(SessionState::Stopped));
}

#[test]
fn stopping_twice_ends_the_session_once() {
    let mut session = running_session();
    assert_eq!(session.step_at(CaptureEvent::StopRequested, 0), CaptureAction::Nothing);
    let once = session.clone();
    assert_eq!(session.step_at(CaptureEvent::StopRequested, 0), CaptureAction::Nothing);
    assert_eq!(session, once);

    let events = vec![
        CaptureEvent::LoopTurn,
        CaptureEvent::StopRequested,
        CaptureEvent::LoopTurn,
        CaptureEvent::FrameRead(syn_frame()),
        CaptureEvent::StopRequested,
        CaptureEvent::ChannelOpened,
        CaptureEvent::InterfacesListed(table()),
        CaptureEvent::LoopTurn,
    ];
    let mut statuses = 0;
    for event in events {
        match session.step_at(event, 0) {
            CaptureAction::EmitStatus(status) => {
                statuses += 1;
                assert_eq!(status.message, "stopped");
            }
            CaptureAction::Nothing => {}
            other => panic!("unexpected action {:?}", other),
        }
    }
    assert_eq!(statuses, 1);
    assert_eq!(session.state(), SessionState::Stopped);
}

#[test]
fn unknown_interface_fails_and_no_packet_follows() {
    let mut session = CaptureSession::new(Some("eth99".to_string()));
    assert_eq!(
        session.step_at(CaptureEvent::InterfacesListed(table()), 0),
        failure("Specified interface not found")
    );
    assert_eq!(session.state(), SessionState::Stopped);
    let later = vec![
        CaptureEvent::ChannelOpened,
        CaptureEvent::LoopTurn,
        CaptureEvent::FrameRead(syn_frame()),
        CaptureEvent::ReadFailed,
        CaptureEvent::StopRequested,
        CaptureEvent::LoopTurn,
        CaptureEvent::InterfacesListed(vec![iface("eth99", true, false)]),
        CaptureEvent::FrameRead(syn_frame()),
    ];
    for event in later {
        assert_eq!(session.step_at(event, 0), CaptureAction::Nothing);
        assert_eq!(session.state(), SessionState::Stopped);
    }
}

#[test]
fn no_active_interface_fails_the_start() {
    let mut session = CaptureSession::new(None);
    let inactive = vec![iface("lo", true, true), iface("eth0", false, false)];
    assert_eq!(
        session.step_at(CaptureEvent::InterfacesListed(inactive), 0),
        failure("No active network interface found")
    );
    assert_eq!(session.state(), SessionState::Stopped);
}

#[test]
fn named_interface_is_opened_even_if_down_or_loopback() {
    let mut session = CaptureSession::new(Some("lo".to_string()));
    assert_eq!(
        session.step_at(CaptureEvent::InterfacesListed(table()), 0),
        CaptureAction::OpenChannel(0)
    );
    match session.step_at(CaptureEvent::ChannelOpened, 0) {
        CaptureAction::EmitStatus(status) => {
            assert!(status.success);
            assert_eq!(status.message, "Capture started on interface: lo");
            assert_eq!(status.interface_name, Some("lo".to_string()));
        }
        other => panic!("expected a status, got {:?}", other),
    }
}

#[test]
fn channel_that_cannot_be_opened_fails_the_start() {
    let mut session = CaptureSession::new(None);
    session.step_at(CaptureEvent::InterfacesListed(table()), 0);
    assert_eq!(
        session.step_at(CaptureEvent::ChannelFailed("Operation not permitted".to_string()), 0),
        failure("Failed to create datalink channel: Operation not permitted")
    );
    assert_eq!(session.state(), SessionState::Stopped);
    assert_eq!(session.step_at(CaptureEvent::FrameRead(syn_frame()), 0), CaptureAction::Nothing);
}

#[test]
fn channel_of_another_kind_fails_the_start() {
    let mut session = CaptureSession::new(None);
    session.step_at(CaptureEvent::InterfacesListed(table()), 0);
    assert_eq!(
        session.step_at(CaptureEvent::ChannelUnsupported, 0),
        failure("Unhandled channel type")
    );
    assert_eq!(session.state(), SessionState::Stopped);
}

#[test]
fn error_messages() {
    assert_eq!(CaptureError::InterfaceNotFound.message(), "Specified interface not found");
    assert_eq!(CaptureError::NoActiveInterface.message(), "No active network interface found");
    assert_eq!(
        CaptureError::ChannelOpen("no such device".to_string()).message(),
        "Failed to create datalink channel: no such device"
    );
    assert_eq!(CaptureError::UnsupportedChannelType.message(), "Unhandled channel type");
    assert_eq!(
        CaptureError::SessionAlreadyActive.message(),
        "A capture session is already active"
    );
}

#[test]
fn status_reports() {
    let eth0 = "eth0".to_string();
    assert_eq!(
        CaptureStatus::started(&eth0),
        CaptureStatus {
            success: true,
            message: "Capture started on interface: eth0".to_string(),
            interface_name: Some(eth0.clone()),
        }
    );
    assert_eq!(
        CaptureStatus::stopped(&eth0),
        CaptureStatus {
            success: true,
            message: "stopped".to_string(),
            interface_name: Some(eth0.clone()),
        }
    );
    assert_eq!(
        CaptureStatus::failure(&CaptureError::NoActiveInterface),
        CaptureStatus {
            success: false,
            message: "No active network interface found".to_string(),
            interface_name: None,
        }
    );
}

#[test]
fn failed_read_does_not_end_the_capture() {
    let mut session = running_session();
    assert_eq!(session.step_at(CaptureEvent::ReadFailed, 0), CaptureAction::Nothing);
    assert_eq!(session.state(), SessionState::Running);
    assert_eq!(session.step_at(CaptureEvent::LoopTurn, 0), CaptureAction::ReadFrame);
    assert!(matches!(
        session.step_at(CaptureEvent::FrameRead(syn_frame()), 0),
        CaptureAction::EmitPacket(_)
    ));
}

#[test]
fn frames_that_are_not_ipv4_are_dropped_silently() {
    let mut session = running_session();
    assert_eq!(session.step_at(CaptureEvent::FrameRead(arp_frame()), 0), CaptureAction::Nothing);
    assert_eq!(session.step_at(CaptureEvent::FrameRead(Vec::new()), 0), CaptureAction::Nothing);
    assert_eq!(
        session.step_at(CaptureEvent::FrameRead(syn_frame()[..33].to_vec()), 0),
        CaptureAction::Nothing
    );
    assert_eq!(session.state(), SessionState::Running);
}

#[test]
fn frame_read_before_the_flag_is_seen_is_still_recorded() {
    let mut session = running_session();
    session.step_at(CaptureEvent::StopRequested, 0);
    assert!(matches!(
        session.step_at(CaptureEvent::FrameRead(syn_frame()), 0),
        CaptureAction::EmitPacket(_)
    ));
    assert!(matches!(session.step_at(CaptureEvent::LoopTurn, 0), CaptureAction::EmitStatus(_)));
    assert_eq!(session.step_at(CaptureEvent::FrameRead(syn_frame()), 0), CaptureAction::Nothing);
}

#[test]
fn frames_before_the_start_are_not_recorded() {
    let mut session = CaptureSession::new(None);
    assert_eq!(session.step_at(CaptureEvent::FrameRead(syn_frame()), 0), CaptureAction::Nothing);
    assert_eq!(session.step_at(CaptureEvent::LoopTurn, 0), CaptureAction::Nothing);
    assert_eq!(session.step_at(CaptureEvent::ChannelOpened, 0), CaptureAction::Nothing);
    session.step_at(CaptureEvent::InterfacesListed(table()), 0);
    assert_eq!(session.step_at(CaptureEvent::FrameRead(syn_frame()), 0), CaptureAction::Nothing);
    assert_eq!(
        session.step_at(CaptureEvent::InterfacesListed(table()), 0),
        CaptureAction::Nothing
    );
    assert_eq!(session.state(), SessionState::Idle);
}

#[test]
fn stop_during_the_start_ends_the_capture_at_the_first_turn() {
    let mut session = CaptureSession::new(None);
    assert_eq!(session.step_at(CaptureEvent::StopRequested, 0), CaptureAction::Nothing);
    assert_eq!(session.state(), SessionState::Idle);
    assert_eq!(
        session.step_at(CaptureEvent::InterfacesListed(table()), 0),
        CaptureAction::OpenChannel(1)
    );
    assert!(matches!(
        session.step_at(CaptureEvent::ChannelOpened, 0),
        CaptureAction::EmitStatus(CaptureStatus { success: true, .. })
    ));
    assert_eq!(session.state(), SessionState::Stopping);
    assert_eq!(
        session.step_at(CaptureEvent::LoopTurn, 0),
        CaptureAction::EmitStatus(CaptureStatus::stopped(&"eth0".to_string()))
    );
    assert_eq!(session.state(), SessionState::Stopped);
}

#[test]
fn step_stamps_records_with_the_clock() {
    let mut session = running_session();
    match session.step(CaptureEvent::FrameRead(syn_frame())) {
        CaptureAction::EmitPacket(record) => {
            let seconds: u64 = record.timestamp.parse().expect("a decimal number");
            let mut again = running_session();
            assert_eq!(
                again.step_at(CaptureEvent::FrameRead(syn_frame()), seconds),
                CaptureAction::EmitPacket(record)
            );
        }
        other => panic!("expected a packet record, got {:?}", other),
    }
    assert_eq!(session.step(CaptureEvent::LoopTurn), CaptureAction::ReadFrame);
}

#[test]
fn controller_without_a_session_ignores_everything() {
    let mut controller = CaptureController::new();
    assert_eq!(controller.state(), None);
    controller.stop_capture();
    controller.stop_capture();
    assert_eq!(controller.state(), None);
    assert_eq!(controller.step_at(CaptureEvent::LoopTurn, 0), CaptureAction::Nothing);
    assert_eq!(
        controller.step_at(CaptureEvent::InterfacesListed(table()), 0),
        CaptureAction::Nothing
    );
    assert_eq!(controller.step(CaptureEvent::FrameRead(syn_frame())), CaptureAction::Nothing);
    assert_eq!(controller.state(), None);
}

#[test]
fn controller_refuses_a_second_session() {
    let mut controller = CaptureController::new();
    assert_eq!(controller.start_capture(None), Ok(()));
    assert_eq!(controller.state(), Some(SessionState::Idle));
    assert_eq!(
        controller.start_capture(Some("eth1".to_string())),
        Err(CaptureError::SessionAlreadyActive)
    );
    assert_eq!(
        controller.step_at(CaptureEvent::InterfacesListed(table()), 0),
        CaptureAction::OpenChannel(1)
    );
    assert_eq!(controller.start_capture(None), Err(CaptureError::SessionAlreadyActive));
    controller.step_at(CaptureEvent::ChannelOpened, 0);
    assert_eq!(controller.state(), Some(SessionState::Running));
    assert_eq!(controller.start_capture(None), Err(CaptureError::SessionAlreadyActive));
    controller.stop_capture();
    assert_eq!(controller.state(), Some(SessionState::Stopping));
    assert_eq!(controller.start_capture(None), Err(CaptureError::SessionAlreadyActive));
    assert_eq!(controller.state(), Some(SessionState::Stopping));
}

#[test]
fn controller_starts_afresh_after_the_end() {
    let mut controller = CaptureController::new();
    assert_eq!(controller.start_capture(Some("eth99".to_string())), Ok(()));
    assert!(matches!(
        controller.step_at(CaptureEvent::InterfacesListed(table()), 0),
        CaptureAction::EmitStatus(CaptureStatus { success: false, .. })
    ));
    assert_eq!(controller.state(), Some(SessionState::Stopped));
    assert_eq!(controller.start_capture(Some("eth1".to_string())), Ok(()));
    assert_eq!(controller.state(), Some(SessionState::Idle));
    assert_eq!(
        controller.step_at(CaptureEvent::InterfacesListed(table()), 0),
        CaptureAction::OpenChannel(2)
    );
    controller.step_at(CaptureEvent::ChannelOpened, 0);
    controller.stop_capture();
    controller.stop_capture();
    assert_eq!(
        controller.step_at(CaptureEvent::LoopTurn, 0),
        CaptureAction::EmitStatus(CaptureStatus::stopped(&"eth1".to_string()))
    );
    assert_eq!(controller.step_at(CaptureEvent::LoopTurn, 0), CaptureAction::Nothing);
    controller.stop_capture();
    assert_eq!(controller.state(), Some(SessionState::Stopped));
    assert_eq!(controller.start_capture(None), Ok(()));
    assert_eq!(controller.state(), Some(SessionState::Idle));
}
