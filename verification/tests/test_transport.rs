use whisper_sync::{Inbox, PlatoTransport};

#[test]
fn test_plato_transport_creation() {
    let pt = PlatoTransport::new();
    assert_eq!(pt.base_url(), whisper_sync::plato_transport::PLATO_BASE);
}

#[test]
fn test_plato_transport_custom_base() {
    let pt = PlatoTransport::new_with_base("http://localhost:9000");
    assert_eq!(pt.base_url(), "http://localhost:9000");
}

#[test]
fn test_inbox_creation() {
    let pt = PlatoTransport::new();
    let inbox = Inbox::new(pt, "test-agent".to_string());
    assert_eq!(inbox.agent_id(), "test-agent");
}
