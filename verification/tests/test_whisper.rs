use chrono::{Duration, Utc};
use whisper_sync::{Timestamp, Whisper, WhisperType};

fn bits(x: f64) -> u64 {
    x.to_bits()
}

fn stamp(t: chrono::DateTime<Utc>) -> Timestamp {
    Timestamp::from_timestamp(t.timestamp(), t.timestamp_subsec_nanos()).unwrap()
}

#[test]
fn test_whisper_type_variant_names() {
    assert_eq!(WhisperType::Status { health: bits(1.0), load: bits(0.0) }.variant_name(), "status");
    assert_eq!(WhisperType::Discovery { service: "svc".into(), endpoint: "ep".into() }.variant_name(), "discovery");
    assert_eq!(WhisperType::Help { question: "?".into(), tags: vec![] }.variant_name(), "help");
    assert_eq!(
        WhisperType::Insight { summary: "s".into(), confidence: bits(0.9), source_theorem: None }.variant_name(),
        "insight"
    );
    assert_eq!(WhisperType::Trust { agent: "a".into(), trust_score: bits(0.8) }.variant_name(), "trust");
    assert_eq!(WhisperType::Alert { severity: "warn".into(), message: "m".into() }.variant_name(), "alert");
}

#[test]
fn test_whisper_test_whisper_expired() {
    let mut w = Whisper::new(
        "a".to_string(),
        None,
        WhisperType::Alert { severity: "info".into(), message: "test".into() },
        60,
    ).unwrap();
    w.timestamp = stamp(Utc::now() - Duration::minutes(5));
    assert!(w.is_expired().unwrap());
}

#[test]
fn test_whisper_not_expired() {
    let w = Whisper::new("a".to_string(), None, WhisperType::Status { health: bits(1.0), load: bits(0.0) }, 1800).unwrap();
    assert!(!w.is_expired().unwrap());
}

#[test]
fn test_whisper_creation() {
    let wt = WhisperType::Status { health: bits(0.95), load: bits(0.3) };
    let w = Whisper::new("agent1".to_string(), Some("agent2".to_string()), wt, 1800).unwrap();
    assert_eq!(w.from, "agent1");
    assert_eq!(w.to, Some("agent2".to_string()));
    assert!(!w.is_expired().unwrap());
}

#[test]
fn whisper_test_whisper_expired() {
    let mut w = Whisper::new(
        "agent1".to_string(),
        None,
        WhisperType::Alert { severity: "info".to_string(), message: "test".to_string() },
        60,
    ).unwrap();
    w.timestamp = stamp(Utc::now() - Duration::minutes(5));
    assert!(w.is_expired().unwrap());
}

#[test]
fn test_tags() {
    let wt = WhisperType::Discovery { service: "test".to_string(), endpoint: "http://test".to_string() };
    let w = Whisper::new("a".to_string(), None, wt, 1800).unwrap();
    let tags = w.tags();
    assert!(tags.contains(&"whisper".to_string()));
    assert!(tags.contains(&"type:discovery".to_string()));
}

#[test]
fn test_default_ttl_per_type() {
    // Status and Alert: 60s (high-frequency, ephemeral)
    assert_eq!(WhisperType::Status { health: bits(1.0), load: bits(0.5) }.default_ttl_seconds(), 60);
    assert_eq!(WhisperType::Alert { severity: "crit".into(), message: "!".into() }.default_ttl_seconds(), 60);
    // Trust and Discovery: 5min (moderate-frequency changes)
    assert_eq!(WhisperType::Trust { agent: "a".into(), trust_score: bits(0.9) }.default_ttl_seconds(), 300);
    assert_eq!(
        WhisperType::Discovery { service: "svc".into(), endpoint: "http://x".into() }.default_ttl_seconds(),
        300
    );
    // Help: 30min (moderate lifetime)
    assert_eq!(WhisperType::Help { question: "?".into(), tags: vec![] }.default_ttl_seconds(), 1800);
    // Insight: 4h (theorem insights persist)
    assert_eq!(
        WhisperType::Insight { summary: "theorem".into(), confidence: bits(0.9), source_theorem: None }
            .default_ttl_seconds(),
        14400
    );
}
