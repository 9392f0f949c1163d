use packets::client::{read_after_wait, ClientConfig, LinkStatus};
use packets::server::ServerConfig;
use packets::watch::{ArrivalWatch, WaitVerdict};
use packets::{failure_means_lost, IoErrorKind, PacketReceiveStatus};

#[test]
fn watch_times_out_only_after_the_timeout() {
    let watch = ArrivalWatch::new(200_000_000);
    assert_eq!(watch.on_clock(0), WaitVerdict::KeepPolling);
    assert_eq!(watch.on_clock(200_000_000), WaitVerdict::KeepPolling);
    assert_eq!(watch.on_clock(200_000_001), WaitVerdict::Done(PacketReceiveStatus::TimedOut));
}

#[test]
fn watch_reports_a_packet_past_the_header() {
    let watch = ArrivalWatch::new(1);
    assert_eq!(watch.on_peek(Ok(vec![1, 0, 0, 0, 42])), WaitVerdict::Done(PacketReceiveStatus::Received));
    assert_eq!(watch.on_peek(Ok(vec![1, 0, 0, 0])), WaitVerdict::KeepPolling);
    assert_eq!(watch.on_peek(Ok(vec![0, 0, 0, 0])), WaitVerdict::Done(PacketReceiveStatus::Received));
    assert_eq!(watch.on_peek(Ok(vec![])), WaitVerdict::KeepPolling);
}

#[test]
fn watch_keeps_polling_when_blocked_and_fails_otherwise() {
    let watch = ArrivalWatch::new(1);
    assert_eq!(watch.on_peek(Err(IoErrorKind::WouldBlock)), WaitVerdict::KeepPolling);
    assert_eq!(watch.on_peek(Err(IoErrorKind::Other)), WaitVerdict::Failed(IoErrorKind::Other));
    assert_eq!(
        watch.on_peek(Err(IoErrorKind::NotConnected)),
        WaitVerdict::Failed(IoErrorKind::NotConnected)
    );
}

#[test]
fn link_goes_down_when_the_server_is_gone() {
    // A send to a server that shut down fails with a broken pipe or a reset.
    let mut link = LinkStatus::connected();
    link.record_send_failure(Some(IoErrorKind::BrokenPipe));
    assert!(!link.is_connected());
    let mut link = LinkStatus::connected();
    link.record_send_failure(Some(IoErrorKind::ConnectionReset));
    assert!(!link.is_connected());
}

#[test]
fn lost_connection_kinds() {
    assert!(failure_means_lost(Some(IoErrorKind::ConnectionAborted)));
    assert!(failure_means_lost(Some(IoErrorKind::BrokenPipe)));
    assert!(failure_means_lost(Some(IoErrorKind::ConnectionReset)));
    assert!(!failure_means_lost(Some(IoErrorKind::WouldBlock)));
    assert!(!failure_means_lost(Some(IoErrorKind::NotConnected)));
    assert!(!failure_means_lost(Some(IoErrorKind::Other)));
    assert!(!failure_means_lost(None));
}

#[test]
fn link_starts_connected() {
    assert!(LinkStatus::connected().is_connected());
}

#[test]
fn link_goes_down_on_abort_and_stays_down() {
    let mut link = LinkStatus::connected();
    link.record_send_failure(Some(IoErrorKind::Other));
    assert!(link.is_connected());
    link.record_send_failure(None);
    assert!(link.is_connected());
    link.record_send_failure(Some(IoErrorKind::ConnectionAborted));
    assert!(!link.is_connected());
    link.record_send_failure(Some(IoErrorKind::WouldBlock));
    link.record_send_failure(None);
    assert!(!link.is_connected());
}

#[test]
fn read_only_after_a_packet_arrived() {
    assert!(read_after_wait(PacketReceiveStatus::Received));
    assert!(!read_after_wait(PacketReceiveStatus::TimedOut));
}

#[test]
fn configs_default_to_nothing_set() {
    let client = ClientConfig::default();
    assert_eq!(client.connect_timeout, None);
    assert_eq!(client.keep_alive_timeout, None);
    let server = ServerConfig::default();
    assert_eq!(server.keep_alive_timeout, None);
    let copy = server.clone();
    assert_eq!(copy.keep_alive_timeout, None);
}

#[test]
fn receive_status_orders_received_first() {
    assert!(PacketReceiveStatus::Received < PacketReceiveStatus::TimedOut);
    assert_ne!(PacketReceiveStatus::Received, PacketReceiveStatus::TimedOut);
}
