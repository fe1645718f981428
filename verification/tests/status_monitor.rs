use mullvad_status::Monitor;
use mullvad_status::MonitorAction;
use mullvad_status::MonitorConfig;
use mullvad_status::MonitorEvent;
use mullvad_status::MonitorPhase;
use mullvad_status::FetchError;
use mullvad_status::IconState;
use mullvad_status::StatusStore;
use mullvad_status::VpnStatus;
use mullvad_status::classify_transport_failure;
use mullvad_status::decode_status;
use mullvad_status::detect;
use mullvad_status::icon_file_name;
use mullvad_status::icon_for;
use mullvad_status::interpret_fetch;
use mullvad_status::monitor_step;
use mullvad_status::query_status;
use mullvad_status::run_cycle;
use mullvad_status::tooltip_text;

fn body(text: &str) -> Vec<u8> {
    text.as_bytes().to_vec()
}

fn status(connected: bool, country: Option<&str>) -> VpnStatus {
    VpnStatus {
        connected,
        ip: None,
        country: country.map(|c| c.to_string()),
        city: None,
        hostname: None,
        server_type: None,
    }
}

#[test]
fn scenario_first_fetch_publishes_change() {
    let mut store = StatusStore::new();
    let fetched = decode_status(&body("{\"mullvad_exit_ip\":true,\"country\":\"Sweden\"}"));
    let st = fetched.expect("first body decodes");
    assert!(st.connected);
    assert_eq!(st.country, Some("Sweden".to_string()));
    let outcome = run_cycle(&mut store, Ok(st));
    let published = outcome.published.expect("success publishes");
    assert!(published.changed);
    let alert = published.alert.expect("a change raises an alert");
    assert_eq!(alert.title, "Mullvad Connection Status");
    assert_eq!(alert.body, "Connected to Sweden server");
    assert_eq!(query_status(&store).unwrap().country, Some("Sweden".to_string()));
}

#[test]
fn scenario_metadata_update_is_not_a_change() {
    let mut store = StatusStore::new();
    run_cycle(&mut store, Ok(status(true, Some("Sweden"))));
    let outcome = run_cycle(&mut store, Ok(status(true, Some("Germany"))));
    let published = outcome.published.expect("success publishes");
    assert!(!published.changed);
    assert!(published.alert.is_none());
    assert_eq!(query_status(&store).unwrap().country, Some("Germany".to_string()));
}

#[test]
fn scenario_failure_preserves_last_known_state() {
    let mut store = StatusStore::new();
    run_cycle(&mut store, Ok(status(true, Some("Germany"))));
    let outcome = run_cycle(&mut store, Err(FetchError::Transport));
    assert!(outcome.published.is_none());
    assert_eq!(outcome.failure, Some(FetchError::Transport));
    let kept = query_status(&store).unwrap();
    assert!(kept.connected);
    assert_eq!(kept.country, Some("Germany".to_string()));
}

#[test]
fn scenario_disconnect_publishes_loss() {
    let mut store = StatusStore::new();
    run_cycle(&mut store, Ok(status(true, Some("Germany"))));
    let fetched = decode_status(&body("{\"mullvad_exit_ip\":false}"));
    let st = fetched.expect("disconnect body decodes");
    assert!(!st.connected);
    let outcome = run_cycle(&mut store, Ok(st));
    let published = outcome.published.expect("success publishes");
    assert!(published.changed);
    assert_eq!(published.alert.expect("a change raises an alert").body, "VPN connection lost");
}

#[test]
fn identical_fetches_publish_one_change() {
    let mut store = StatusStore::new();
    let mut changes = 0;
    for _ in 0..5 {
        let st = decode_status(&body("{\"mullvad_exit_ip\":true,\"country\":\"Sweden\"}")).unwrap();
        let outcome = run_cycle(&mut store, Ok(st));
        if outcome.published.unwrap().changed {
            changes += 1;
        }
    }
    assert_eq!(changes, 1);
}

#[test]
fn detect_classifies_transitions() {
    let first = status(true, Some("Sweden"));
    assert!(detect(None, &first).changed);
    let same_connectivity = status(true, Some("Germany"));
    let t = detect(Some(first), &same_connectivity);
    assert!(!t.changed);
    assert_eq!(t.previous.unwrap().country, Some("Sweden".to_string()));
    let flipped = status(false, None);
    assert!(detect(Some(same_connectivity), &flipped).changed);
}

#[test]
fn query_before_first_success_reports_unavailable() {
    let store = StatusStore::new();
    assert_eq!(query_status(&store).unwrap_err(), "Status not available yet");
}

#[test]
fn store_read_returns_last_write() {
    let mut store = StatusStore::new();
    assert!(store.read().is_none());
    store.write(status(false, None));
    store.write(status(true, Some("Norway")));
    let read = store.read().unwrap();
    assert!(read.connected);
    assert_eq!(read.country, Some("Norway".to_string()));
}

#[test]
fn decode_reads_every_recognized_field() {
    let st = decode_status(&body(
        "{ \"mullvad_exit_ip\": true, \"ip\": \"185.65.134.66\", \"country\": \"Sweden\", \
         \"city\": \"Malmo\", \"mullvad_exit_ip_hostname\": \"se-mma-wg-001\", \
         \"mullvad_server_type\": \"WireGuard\" }",
    ))
    .unwrap();
    assert!(st.connected);
    assert_eq!(st.ip, Some("185.65.134.66".to_string()));
    assert_eq!(st.country, Some("Sweden".to_string()));
    assert_eq!(st.city, Some("Malmo".to_string()));
    assert_eq!(st.hostname, Some("se-mma-wg-001".to_string()));
    assert_eq!(st.server_type, Some("WireGuard".to_string()));
}

#[test]
fn decode_ignores_unrecognized_fields() {
    let st = decode_status(&body(
        "{\"organization\":\"x\",\"nested\":{\"a\":[1,2.5,-3e2,true,null,\"s\"],\"b\":{}},\
         \"mullvad_exit_ip\":true,\"blacklisted\":false,\"longitude\":13.02}",
    ))
    .unwrap();
    assert!(st.connected);
    assert_eq!(st.country, None);
}

#[test]
fn decode_null_metadata_counts_as_absent() {
    let st = decode_status(&body("{\"mullvad_exit_ip\":false,\"country\":null}")).unwrap();
    assert_eq!(st.country, None);
}

#[test]
fn decode_resolves_escapes() {
    let st = decode_status(&body(
        "{\"mullvad_exit_ip\":true,\"country\":\"S\\u0077eden\",\"city\":\"B\\u00f6rk\\n\",\
         \"hostname\":null,\"mullvad_exit_ip_hostname\":\"a\\\\b\\\"c\",\
         \"mullvad_server_type\":\"\\ud83c\\udde9\"}",
    ))
    .unwrap();
    assert_eq!(st.country, Some("Sweden".to_string()));
    assert_eq!(st.city, Some("B\u{f6}rk\n".to_string()));
    assert_eq!(st.hostname, Some("a\\b\"c".to_string()));
    assert_eq!(st.server_type, Some("\u{1F1E9}".to_string()));
}

#[test]
fn decode_connectivity_comes_from_the_flag_alone() {
    let st = decode_status(&body("{\"mullvad_exit_ip\":false,\"country\":\"Sweden\"}")).unwrap();
    assert!(!st.connected);
    assert_eq!(st.country, Some("Sweden".to_string()));
}

#[test]
fn decode_rejects_malformed_bodies() {
    let cases: Vec<&str> = vec![
        "",
        "not json",
        "[]",
        "{}",
        "{\"country\":\"Sweden\"}",
        "{\"mullvad_exit_ip\":\"yes\"}",
        "{\"mullvad_exit_ip\":1}",
        "{\"mullvad_exit_ip\":true",
        "{\"mullvad_exit_ip\":true} trailing",
        "{\"mullvad_exit_ip\":true,}",
        "{\"mullvad_exit_ip\":true,\"mullvad_exit_ip\":true}",
        "{\"mullvad_exit_ip\":true,\"country\":5}",
        "{\"mullvad_exit_ip\":true,\"country\":\"S\\qeden\"}",
        "{\"mullvad_exit_ip\":true,\"country\":\"\\ud800\"}",
        "{\"mullvad_exit_ip\":true,\"country\":\"unterminated}",
        "{\"mullvad_exit_ip\":true,\"n\":01}",
    ];
    for c in cases {
        assert_eq!(decode_status(&body(c)).unwrap_err(), FetchError::Decode, "case: {}", c);
    }
}

#[test]
fn monitor_walks_through_one_cycle() {
    let mut m = Monitor::new();
    let mut store = StatusStore::new();
    assert_eq!(m.phase, MonitorPhase::Idle);
    let a = monitor_step(&mut m, &mut store, MonitorEvent::Tick);
    assert!(matches!(a, MonitorAction::BeginFetch));
    assert_eq!(m.phase, MonitorPhase::Fetching);
    let a = monitor_step(
        &mut m,
        &mut store,
        MonitorEvent::FetchResolved(Ok(status(true, Some("Sweden")))),
    );
    match a {
        MonitorAction::Publish(ev) => {
            assert!(ev.changed);
            assert!(ev.status.connected);
        },
        _ => panic!("a successful fetch must publish"),
    }
    assert_eq!(m.phase, MonitorPhase::Publishing);
    monitor_step(&mut m, &mut store, MonitorEvent::Published);
    assert_eq!(m.phase, MonitorPhase::Idle);
    let a = monitor_step(&mut m, &mut store, MonitorEvent::Tick);
    assert!(matches!(a, MonitorAction::BeginFetch));
    let a = monitor_step(
        &mut m,
        &mut store,
        MonitorEvent::FetchResolved(Err(FetchError::Timeout)),
    );
    assert!(matches!(a, MonitorAction::Report(FetchError::Timeout)));
    assert_eq!(m.phase, MonitorPhase::Idle);
    assert_eq!(query_status(&store).unwrap().country, Some("Sweden".to_string()));
}

#[test]
fn stop_in_idle_prevents_any_further_fetch() {
    let mut m = Monitor::new();
    let mut store = StatusStore::new();
    let a = monitor_step(&mut m, &mut store, MonitorEvent::StopRequested);
    assert!(matches!(a, MonitorAction::Continue));
    assert_eq!(m.phase, MonitorPhase::Idle);
    for _ in 0..3 {
        let a = monitor_step(&mut m, &mut store, MonitorEvent::Tick);
        assert!(matches!(a, MonitorAction::Halt));
        assert!(!matches!(a, MonitorAction::BeginFetch));
        assert_eq!(m.phase, MonitorPhase::Idle);
    }
}

#[test]
fn icons_and_tooltips_follow_the_state() {
    assert_eq!(icon_for(&None), IconState::Unknown);
    assert_eq!(icon_for(&Some(status(true, None))), IconState::Connected);
    assert_eq!(icon_for(&Some(status(false, None))), IconState::Disconnected);
    assert_eq!(icon_file_name(IconState::Connected), "tray-connected.png");
    assert_eq!(icon_file_name(IconState::Disconnected), "tray-disconnected.png");
    assert_eq!(icon_file_name(IconState::Unknown), "tray-unknown.png");
    assert_eq!(tooltip_text(true), "Mullvad VPN: Connected");
    assert_eq!(tooltip_text(false), "Mullvad VPN: Disconnected");
}

#[test]
fn alert_without_country_names_the_provider() {
    let mut store = StatusStore::new();
    let outcome = run_cycle(&mut store, Ok(status(true, None)));
    let published = outcome.published.unwrap();
    assert_eq!(published.alert.unwrap().body, "Connected to Mullvad server");
}

#[test]
fn config_has_default_cadence() {
    let cfg = MonitorConfig::default();
    assert_eq!(cfg.fetch_timeout_secs, 10);
    assert_eq!(cfg.poll_period_secs, 15);
}

#[test]
fn interpret_fetch_keeps_transport_outcomes() {
    assert_eq!(
        interpret_fetch(Err(FetchError::Timeout)).unwrap_err(),
        FetchError::Timeout,
    );
    assert_eq!(
        interpret_fetch(Ok(body("garbage"))).unwrap_err(),
        FetchError::Decode,
    );
    let st = interpret_fetch(Ok(body("{\"mullvad_exit_ip\":true}"))).unwrap();
    assert!(st.connected);
}

#[test]
fn classified_request_failure_is_never_a_decode_error() {
    let rt = tokio::runtime::Runtime::new().unwrap();
    let result = rt.block_on(async {
        let client = reqwest::Client::builder()
            .timeout(std::time::Duration::from_secs(2))
            .build()
            .unwrap();
        client.get("http://127.0.0.1:1/").send().await
    });
    let err = result.expect_err("nothing listens on port 1");
    let classified = classify_transport_failure(&err);
    assert_ne!(classified, FetchError::Decode);
}
