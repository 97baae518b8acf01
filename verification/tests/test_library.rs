use chrono::Utc;
use whisper_sync::clock::{seconds_since, MAX_UNIX_SECS, MIN_UNIX_SECS};
use whisper_sync::content::{effective_ttl, whisper_type_from_fields, JsonFields, JsonScalar, F64_HALF_BITS, F64_ONE_BITS};
use whisper_sync::delivery::DeliveryService;
use whisper_sync::inbox::{listen_action, ListenAction};
use whisper_sync::numfmt::decimal_string;
use whisper_sync::plato_transport::{check_status, PlatoError, WhisperTile};
use whisper_sync::whisper::{uuid_from_nanos, uuid_v4};
use whisper_sync::{parse_whisper_type, Inbox, PlatoTransport, Timestamp, Whisper, WhisperFilter, WhisperType};

fn ts(secs: i64, nanos: u32) -> Timestamp {
    Timestamp::from_timestamp(secs, nanos).unwrap()
}

fn whisper_at(to: Option<&str>, secs: i64, ttl: u64) -> Whisper {
    Whisper {
        id: "id".to_string(),
        from: "a".to_string(),
        to: to.map(|s| s.to_string()),
        whisper_type: WhisperType::Alert { severity: "info".to_string(), message: "m".to_string() },
        timestamp: ts(secs, 0),
        ttl_seconds: ttl,
    }
}

#[test]
fn timestamp_range_is_that_of_utc_date_times() {
    assert!(Timestamp::from_timestamp(MAX_UNIX_SECS, 999_999_999).is_some());
    assert!(Timestamp::from_timestamp(MAX_UNIX_SECS + 1, 0).is_none());
    assert!(Timestamp::from_timestamp(MIN_UNIX_SECS, 0).is_some());
    assert!(Timestamp::from_timestamp(MIN_UNIX_SECS - 1, 0).is_none());
    assert!(Timestamp::from_timestamp(0, 1_000_000_000).is_none());
    // a leap second, as chrono has them
    assert!(Timestamp::from_timestamp(59, 1_500_000_000).is_some());
    assert!(Timestamp::from_timestamp(-1, 1_500_000_000).is_some());
    assert!(Timestamp::from_timestamp(59, 2_000_000_000).is_none());
    assert!(chrono::DateTime::from_timestamp(59, 1_500_000_000).is_some());
    assert!(chrono::DateTime::from_timestamp(-1, 1_500_000_000).is_some());
    assert!(chrono::DateTime::from_timestamp(58, 1_500_000_000).is_none());
    assert!(Timestamp::from_timestamp(58, 1_500_000_000).is_none());
    let t = ts(1_700_000_000, 42);
    assert_eq!(t.timestamp(), 1_700_000_000);
    assert_eq!(t.timestamp_subsec_nanos(), 42);
    // chrono agrees on the bounds.
    assert!(chrono::DateTime::from_timestamp(MAX_UNIX_SECS, 0).is_some());
    assert!(chrono::DateTime::from_timestamp(MAX_UNIX_SECS + 1, 0).is_none());
    assert!(chrono::DateTime::from_timestamp(MIN_UNIX_SECS, 0).is_some());
    assert!(chrono::DateTime::from_timestamp(MIN_UNIX_SECS - 1, 0).is_none());
}

#[test]
fn now_reads_the_utc_clock() {
    let before = Utc::now().timestamp();
    let t = Timestamp::now().unwrap();
    let after = Utc::now().timestamp();
    assert!(before <= t.timestamp() && t.timestamp() <= after);
    assert!(t.timestamp_subsec_nanos() < 1_000_000_000);
}

#[test]
fn seconds_since_truncates_toward_zero() {
    assert_eq!(seconds_since(&ts(10, 500_000_000), &ts(9, 0)), 1);
    assert_eq!(seconds_since(&ts(9, 0), &ts(10, 500_000_000)), -1);
    assert_eq!(seconds_since(&ts(10, 0), &ts(10, 0)), 0);
    assert_eq!(seconds_since(&ts(400, 0), &ts(100, 0)), 300);
    // As chrono counts it.
    let a = chrono::DateTime::from_timestamp(9, 0).unwrap();
    let b = chrono::DateTime::from_timestamp(10, 500_000_000).unwrap();
    assert_eq!(a.signed_duration_since(b).num_seconds(), -1);
}

#[test]
fn expiry_follows_age_against_lifetime() {
    let w = whisper_at(None, 100, 60);
    assert!(!w.is_expired_at(&ts(100, 0)));
    assert!(!w.is_expired_at(&ts(160, 999_999_999)));
    assert!(w.is_expired_at(&ts(161, 0)));
    // once expired, stays expired
    assert!(w.is_expired_at(&ts(10_000, 0)));
    // stamped after `now` (the sender's clock ahead): not older than its lifetime
    assert!(!w.is_expired_at(&ts(99, 0)));
    assert!(!w.is_expired_at(&ts(99, 500_000_000)));
    assert!(!w.is_expired_at(&ts(0, 0)));
    let forever = whisper_at(None, 100, u64::MAX);
    assert!(!forever.is_expired_at(&ts(99, 0)));
    assert!(!forever.is_expired_at(&ts(10_000, 0)));
}

#[test]
fn relevance_rules() {
    let f = WhisperFilter::default();
    let now = ts(130, 0);
    assert!(f.is_relevant_at(&whisper_at(Some("bob"), 100, 60), "bob", &now));
    assert!(!f.is_relevant_at(&whisper_at(Some("bob"), 100, 60), "eve", &now));
    assert!(f.is_relevant_at(&whisper_at(None, 100, 60), "eve", &now));
    assert!(!f.is_relevant_at(&whisper_at(None, 100, 10), "eve", &now));
    assert!(!f.is_relevant_at(&whisper_at(Some("bob"), 100, 10), "bob", &now));
}

#[test]
fn tags_and_has_tag() {
    let f = WhisperFilter::new();
    let uni = whisper_at(Some("bob"), 100, 60);
    assert_eq!(uni.tags(), vec!["whisper".to_string(), "type:alert".to_string(), "unicast".to_string()]);
    assert!(f.has_tag(&uni, "unicast"));
    assert!(f.has_tag(&uni, "type:alert"));
    let broad = whisper_at(None, 100, 60);
    assert_eq!(broad.tags(), vec!["whisper".to_string(), "type:alert".to_string()]);
    assert!(!f.has_tag(&broad, "unicast"));
    assert!(f.has_tag(&broad, "whisper"));
    assert!(!f.has_tag(&broad, "type:status"));
}

#[test]
fn each_kind_matches_only_its_own_name() {
    let f = WhisperFilter::new();
    let names = ["status", "discovery", "help", "insight", "trust", "alert"];
    let kinds = vec![
        WhisperType::Status { health: 0, load: 0 },
        WhisperType::Discovery { service: String::new(), endpoint: String::new() },
        WhisperType::Help { question: String::new(), tags: vec![] },
        WhisperType::Insight { summary: String::new(), confidence: 0, source_theorem: None },
        WhisperType::Trust { agent: String::new(), trust_score: 0 },
        WhisperType::Alert { severity: String::new(), message: String::new() },
    ];
    for (i, k) in kinds.into_iter().enumerate() {
        let mut w = whisper_at(None, 100, 60);
        w.whisper_type = k;
        for (j, n) in names.iter().enumerate() {
            assert_eq!(f.matches_type(&w, n), i == j);
        }
    }
}

#[test]
fn filter_whispers_keeps_relevant_in_order() {
    let service = DeliveryService::new(PlatoTransport::new());
    let fresh = Utc::now().timestamp();
    let mk = |to: Option<&str>, msg: &str, secs: i64| {
        let mut w = whisper_at(to, secs, 1800);
        w.id = msg.to_string();
        w
    };
    let input = vec![
        mk(Some("bob"), "1", fresh),
        mk(Some("eve"), "2", fresh),
        mk(None, "3", fresh),
        mk(None, "4", fresh - 7200),
        mk(Some("bob"), "5", fresh),
    ];
    let kept = service.filter_whispers(input, "bob").unwrap();
    let ids: Vec<String> = kept.into_iter().map(|w| w.id).collect();
    assert_eq!(ids, vec!["1".to_string(), "3".to_string(), "5".to_string()]);
    assert_eq!(service.transport().base_url(), "http://localhost:8847");
}

#[test]
fn parse_whisper_type_fills_fields_and_defaults() {
    match parse_whisper_type("status", r#"{"health": 0.95, "load": 0.3}"#).unwrap() {
        WhisperType::Status { health, load } => {
            assert_eq!(f64::from_bits(health), 0.95);
            assert_eq!(f64::from_bits(load), 0.3);
        }
        _ => panic!("not a status"),
    }
    match parse_whisper_type("status", "{}").unwrap() {
        WhisperType::Status { health, load } => {
            assert_eq!(health, F64_ONE_BITS);
            assert_eq!(f64::from_bits(health), 1.0);
            assert_eq!(f64::from_bits(load), 0.0);
        }
        _ => panic!("not a status"),
    }
    match parse_whisper_type("help", r#"{"question": "why?", "tags": ["a", 1, "b"]}"#).unwrap() {
        WhisperType::Help { question, tags } => {
            assert_eq!(question, "why?");
            assert_eq!(tags, vec!["a".to_string(), "b".to_string()]);
        }
        _ => panic!("not a help"),
    }
    match parse_whisper_type("insight", r#"{"summary": "s", "source_theorem": "T1"}"#).unwrap() {
        WhisperType::Insight { summary, confidence, source_theorem } => {
            assert_eq!(summary, "s");
            assert_eq!(confidence, F64_HALF_BITS);
            assert_eq!(source_theorem, Some("T1".to_string()));
        }
        _ => panic!("not an insight"),
    }
    match parse_whisper_type("alert", r#"{"message": 5}"#).unwrap() {
        WhisperType::Alert { severity, message } => {
            assert_eq!(severity, "info");
            assert_eq!(message, "");
        }
        _ => panic!("not an alert"),
    }
    match parse_whisper_type("trust", r#"{"agent": "x", "trust_score": 2}"#).unwrap() {
        WhisperType::Trust { agent, trust_score } => {
            assert_eq!(agent, "x");
            assert_eq!(f64::from_bits(trust_score), 2.0);
        }
        _ => panic!("not a trust"),
    }
    match parse_whisper_type("discovery", "[1, 2]").unwrap() {
        WhisperType::Discovery { service, endpoint } => {
            assert_eq!(service, "");
            assert_eq!(endpoint, "");
        }
        _ => panic!("not a discovery"),
    }
}

#[test]
fn parse_whisper_type_errors() {
    assert_eq!(parse_whisper_type("gossip", "{}").unwrap_err(), "unknown whisper type: gossip");
    let e = parse_whisper_type("gossip", "{not json").unwrap_err();
    assert!(e.starts_with("invalid JSON content: "));
    let e2 = parse_whisper_type("status", "").unwrap_err();
    assert!(e2.starts_with("invalid JSON content: "));
}

#[test]
fn effective_ttl_prefers_the_request() {
    let wt = WhisperType::Insight { summary: String::new(), confidence: 0, source_theorem: None };
    assert_eq!(effective_ttl(Some(5), &wt), 5);
    assert_eq!(effective_ttl(None, &wt), 14400);
}

#[test]
fn uuid_layout() {
    let id = uuid_from_nanos(0);
    assert_eq!(id, "00000000-0000-4000-8000-000000000000");
    let n: u128 = 1_700_000_000_123_456_789;
    let low = n as u64;
    let r = ((low as u128 * 0x5deace66d) % (1u128 << 64)) as u64;
    let expected = format!(
        "{:08x}-{:04x}-4{:03x}-{:04x}-{:012x}",
        low >> 32,
        (low >> 16) & 0xffff,
        (low & 0xffff) >> 4,
        0x8000 | ((low & 0xf) << 10) | (r >> 54),
        r & 0xffff_ffff_ffff
    );
    assert_eq!(uuid_from_nanos(n), expected);
    let fresh = uuid_v4().unwrap();
    assert_eq!(fresh.len(), 36);
    let bytes = fresh.as_bytes();
    for i in [8, 13, 18, 23] {
        assert_eq!(bytes[i], b'-');
    }
    assert_eq!(bytes[14], b'4');
    assert!(matches!(bytes[19], b'8' | b'9' | b'a' | b'b'));
    let w = Whisper::new("a".into(), None, WhisperType::Status { health: 0, load: 0 }, 1).unwrap();
    assert_eq!(w.id.len(), 36);
}

#[test]
fn uuid_distinct_readings_distinct_ids() {
    let a = uuid_from_nanos(1_700_000_000_000_000_000);
    let b = uuid_from_nanos(1_700_000_000_000_000_001);
    let c = uuid_from_nanos(1_700_000_000_000_000_000 + (1u128 << 64));
    assert_ne!(a, b);
    assert_eq!(a, c);
}

#[test]
fn decimal_rendering() {
    assert_eq!(decimal_string(0), "0");
    assert_eq!(decimal_string(1234567890), "1234567890");
    assert_eq!(decimal_string(u64::MAX), u64::MAX.to_string());
}

#[test]
fn inbox_polls_since_last_finish() {
    let mut inbox = Inbox::new(PlatoTransport::new_with_base("http://h"), "bob".to_string());
    let first = inbox.poll_request();
    assert_eq!(first.since, "0");
    assert_eq!(first.tag, Some("whisper".to_string()));
    assert_eq!(inbox.transport().poll_url(&first.since, first.tag.as_deref()), "http://h/room/fleet_whispers/tiles?since=0&tag=whisper");
    let fresh = Utc::now().timestamp();
    let parsed = vec![
        Some(whisper_at(Some("bob"), fresh, 1800)),
        None,
        Some(whisper_at(Some("eve"), fresh, 1800)),
        Some(whisper_at(None, fresh, 1800)),
    ];
    let kept = inbox.finish_poll_at(parsed, &ts(fresh, 0), 1_700_000_123);
    assert_eq!(kept.len(), 2);
    assert_eq!(inbox.last_polled(), 1_700_000_123);
    assert_eq!(inbox.poll_request().since, "1700000123");
    let before = std::time::SystemTime::now().duration_since(std::time::UNIX_EPOCH).unwrap().as_secs();
    let kept2 = inbox.finish_poll(vec![None]).unwrap();
    assert!(kept2.is_empty());
    assert!(inbox.last_polled() >= before);
    assert_eq!(inbox.agent_id(), "bob");
}

#[test]
fn transport_urls() {
    let t = PlatoTransport::new_with_base("http://localhost:9000");
    assert_eq!(t.submit_url(), "http://localhost:9000/room/fleet_whispers/submit");
    assert_eq!(
        t.poll_url("17", Some("type:alert")),
        "http://localhost:9000/room/fleet_whispers/tiles?since=17&tag=type:alert"
    );
    assert_eq!(t.poll_url("17", None), "http://localhost:9000/room/fleet_whispers/tiles?since=17&tag=whisper");
}

#[test]
fn status_judgement_and_messages() {
    assert!(check_status(200, "200 OK".into()).is_ok());
    assert!(check_status(299, "".into()).is_ok());
    match check_status(404, "404 Not Found".into()) {
        Err(e @ PlatoError::Server(_)) => assert_eq!(e.message(), "server error: 404 Not Found"),
        _ => panic!("expected a server error"),
    }
    assert!(check_status(199, "".into()).is_err());
    assert!(check_status(300, "".into()).is_err());
    assert_eq!(PlatoError::Parse("bad".into()).message(), "parse error: bad");
}

#[test]
fn listen_decisions() {
    assert!(matches!(listen_action(Ok(vec![])), ListenAction::Idle));
    match listen_action(Ok(vec![whisper_at(None, 1, 1)])) {
        ListenAction::Deliver(ws) => assert_eq!(ws.len(), 1),
        _ => panic!("expected delivery"),
    }
    match listen_action(Err(PlatoError::Server("500 Internal Server Error".into()))) {
        ListenAction::Warn(m) => assert_eq!(m, "inbox poll error: server error: 500 Internal Server Error"),
        _ => panic!("expected a warning"),
    }
}

#[test]
fn whisper_tile_carries_tags_and_addressee() {
    let w = whisper_at(Some("bob"), 100, 60);
    let tile = WhisperTile::from_whisper(&w, "{}".to_string());
    assert_eq!(tile.tags, w.tags());
    assert_eq!(tile.content, "{}");
    assert_eq!(tile.to, Some("bob".to_string()));
}

#[test]
fn whisper_type_from_given_fields() {
    let fields = JsonFields {
        entries: vec![
            ("question".to_string(), JsonScalar::Text("how?".to_string())),
            ("tags".to_string(), JsonScalar::List(vec![Some("x".to_string()), None, Some("y".to_string())])),
        ],
    };
    match whisper_type_from_fields("help", Ok(fields)).unwrap() {
        WhisperType::Help { question, tags } => {
            assert_eq!(question, "how?");
            assert_eq!(tags, vec!["x".to_string(), "y".to_string()]);
        }
        _ => panic!("not a help"),
    }
    let fields = JsonFields { entries: vec![("health".to_string(), JsonScalar::Text("high".to_string()))] };
    match whisper_type_from_fields("status", Ok(fields)).unwrap() {
        WhisperType::Status { health, load } => {
            assert_eq!(health, F64_ONE_BITS);
            assert_eq!(load, 0);
        }
        _ => panic!("not a status"),
    }
    assert_eq!(
        whisper_type_from_fields("status", Err("EOF".to_string())).unwrap_err(),
        "invalid JSON content: EOF"
    );
    let fields = JsonFields { entries: vec![("trust_score".to_string(), JsonScalar::Number(7))] };
    match whisper_type_from_fields("trust", Ok(fields)).unwrap() {
        WhisperType::Trust { agent, trust_score } => {
            assert_eq!(agent, "");
            assert_eq!(trust_score, 7);
        }
        _ => panic!("not a trust"),
    }
    assert!(whisper_type_from_fields("Status", Ok(JsonFields { entries: vec![] })).is_err());
}

#[test]
fn transport_timeout_is_ten_seconds() {
    assert_eq!(PlatoTransport::new().timeout_secs(), 10);
    assert_eq!(PlatoTransport::new_with_base("http://x").timeout_secs(), 10);
}

#[test]
fn whisper_types_compare_as_floats() {
    let z = WhisperType::Status { health: 0.0f64.to_bits(), load: 1.0f64.to_bits() };
    let nz = WhisperType::Status { health: (-0.0f64).to_bits(), load: 1.0f64.to_bits() };
    assert!(z == nz);
    let nan = WhisperType::Trust { agent: "a".into(), trust_score: f64::NAN.to_bits() };
    assert!(nan != nan.clone());
    let h1 = WhisperType::Help { question: "q".into(), tags: vec!["x".into()] };
    let h2 = WhisperType::Help { question: "q".into(), tags: vec!["x".into()] };
    let h3 = WhisperType::Help { question: "q".into(), tags: vec!["y".into()] };
    assert!(h1 == h2);
    assert!(h1 != h3);
    assert!(z != h1);
}

#[test]
fn filtering_laws_on_values() {
    let service = DeliveryService::new(PlatoTransport::new());
    let fresh = Utc::now().timestamp();
    let mk = |to: Option<&str>, id: &str| {
        let mut w = whisper_at(to, fresh, 1800);
        w.id = id.to_string();
        w
    };
    let xs = vec![mk(Some("bob"), "1"), mk(Some("eve"), "2")];
    let ys = vec![mk(None, "3"), mk(Some("eve"), "4"), mk(Some("bob"), "5")];
    let ids = |v: Vec<Whisper>| v.into_iter().map(|w| w.id).collect::<Vec<String>>();
    let mut both = xs.clone();
    both.extend(ys.clone());
    let whole = ids(service.filter_whispers(both.clone(), "bob").unwrap());
    let mut parts = ids(service.filter_whispers(xs, "bob").unwrap());
    parts.extend(ids(service.filter_whispers(ys, "bob").unwrap()));
    assert_eq!(whole, parts);
    let once = service.filter_whispers(both, "bob").unwrap();
    let once_ids: Vec<String> = once.iter().map(|w| w.id.clone()).collect();
    assert_eq!(ids(service.filter_whispers(once, "bob").unwrap()), once_ids);
    assert!(service.filter_whispers(vec![], "bob").unwrap().is_empty());
}

#[test]
fn filtering_at_one_instant() {
    let service = DeliveryService::new(PlatoTransport::new());
    let input = vec![whisper_at(Some("bob"), 100, 60), whisper_at(None, 100, 10), whisper_at(None, 100, 60)];
    let kept = service.filter_whispers_at(input, "bob", &ts(130, 0));
    assert_eq!(kept.len(), 2);
    assert_eq!(kept[0].to, Some("bob".to_string()));
    assert_eq!(kept[1].ttl_seconds, 60);
    assert!(service.filter_whispers_at(kept, "bob", &ts(200, 0)).is_empty());
}

#[test]
fn seconds_since_counts_leap_seconds_as_chrono_does() {
    let pairs: [((i64, u32), (i64, u32)); 7] = [
        ((86459, 1_500_000_000), (86460, 0)),
        ((86460, 0), (86459, 1_500_000_000)),
        ((86459, 1_100_000_000), (86460, 0)),
        ((86459, 900_000_000), (86460, 0)),
        ((86400 * 7 - 1, 900_000_000), (86459, 1_500_000_000)),
        ((86400 * 7, 100_000_000), (86459, 1_500_000_000)),
        ((-1, 1_999_999_999), (-61, 1_000_000_000)),
    ];
    for ((ls, ln), (es, en)) in pairs {
        let ours = seconds_since(&ts(ls, ln), &ts(es, en));
        let a = chrono::DateTime::from_timestamp(ls, ln).unwrap();
        let b = chrono::DateTime::from_timestamp(es, en).unwrap();
        assert_eq!(ours, a.signed_duration_since(b).num_seconds(), "{:?}", ((ls, ln), (es, en)));
    }
}
