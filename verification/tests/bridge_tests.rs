use capsa::bridge::{BridgeAction, BridgeEvent, BridgeState};

#[test]
fn host_first_then_guest_joins() {
    let mut b = BridgeState::new();
    assert_eq!(b.step(BridgeEvent::ListenAccepted(1024)), BridgeAction::Hold);
    assert_eq!(b.step(BridgeEvent::ListenAccepted(1024)), BridgeAction::Refuse);
    assert_eq!(b.step(BridgeEvent::GuestConnect(1024)), BridgeAction::Join);
    assert_eq!(b.step(BridgeEvent::GuestData(1024)), BridgeAction::Write);
    assert_eq!(b.step(BridgeEvent::ListenAccepted(1024)), BridgeAction::Refuse);
}

#[test]
fn guest_first_then_host_joins() {
    let mut b = BridgeState::new();
    assert_eq!(b.step(BridgeEvent::GuestConnect(7)), BridgeAction::AwaitHost);
    assert_eq!(b.step(BridgeEvent::GuestData(7)), BridgeAction::Ignore);
    assert_eq!(b.step(BridgeEvent::ListenAccepted(7)), BridgeAction::Join);
    assert_eq!(b.step(BridgeEvent::GuestData(7)), BridgeAction::Write);
}

#[test]
fn connect_port_handshake_and_close() {
    let mut b = BridgeState::new();
    assert_eq!(b.step(BridgeEvent::GuestConnected(2048)), BridgeAction::Ignore);
    assert_eq!(b.step(BridgeEvent::ConnectAccepted(2048)), BridgeAction::HoldAndRequest);
    assert_eq!(b.step(BridgeEvent::ConnectAccepted(2048)), BridgeAction::Refuse);
    assert_eq!(b.step(BridgeEvent::GuestConnected(2048)), BridgeAction::Join);
    assert_eq!(b.step(BridgeEvent::HostClosed(2048)), BridgeAction::CloseAndNotify);
    assert_eq!(b.step(BridgeEvent::GuestData(2048)), BridgeAction::Ignore);
    assert_eq!(b.step(BridgeEvent::ConnectAccepted(2048)), BridgeAction::HoldAndRequest);
}

#[test]
fn shutdown_stops_writes() {
    let mut b = BridgeState::new();
    b.step(BridgeEvent::GuestConnect(5));
    b.step(BridgeEvent::ListenAccepted(5));
    assert_eq!(b.step(BridgeEvent::GuestShutdown(5)), BridgeAction::Drop);
    assert_eq!(b.step(BridgeEvent::GuestData(5)), BridgeAction::Ignore);
}
