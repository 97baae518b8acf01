use whisper_sync::{DeliveryMode, Whisper, WhisperFilter, WhisperType};

fn bits(x: f64) -> u64 {
    x.to_bits()
}

#[test]
fn test_delivery_mode_enum() {
    let _unicast = DeliveryMode::Unicast;
    let _multicast = DeliveryMode::Multicast;
    let _broadcast = DeliveryMode::Broadcast;
}

#[test]
fn test_delivery_mode_variants() {
    let _ = DeliveryMode::Unicast;
    let _ = DeliveryMode::Multicast;
    let _ = DeliveryMode::Broadcast;
}

#[test]
fn test_filter_unicast_to_me() {
    let filter = WhisperFilter::new();
    let wt = WhisperType::Status { health: bits(0.9), load: bits(0.2) };
    let w = Whisper::new("agent1".to_string(), Some("agent2".to_string()), wt, 1800).unwrap();
    assert!(filter.is_relevant(&w, "agent2").unwrap());
}

#[test]
fn test_filter_unicast_not_me() {
    let filter = WhisperFilter::new();
    let wt = WhisperType::Status { health: bits(0.9), load: bits(0.2) };
    let w = Whisper::new("agent1".to_string(), Some("agent2".to_string()), wt, 1800).unwrap();
    assert!(!filter.is_relevant(&w, "agent3").unwrap());
}

#[test]
fn test_filter_broadcast() {
    let filter = WhisperFilter::new();
    let wt = WhisperType::Alert { severity: "warn".into(), message: "test".into() };
    let w = Whisper::new("agent1".to_string(), None, wt, 1800).unwrap();
    // No `to` field = broadcast
    assert!(filter.is_relevant(&w, "agent3").unwrap());
}

#[test]
fn test_filter_matches_type() {
    let filter = WhisperFilter::new();
    let wt = WhisperType::Discovery { service: "svc".into(), endpoint: "ep".into() };
    let w = Whisper::new("a".to_string(), None, wt, 1800).unwrap();
    assert!(filter.matches_type(&w, "discovery"));
    assert!(!filter.matches_type(&w, "status"));
}
