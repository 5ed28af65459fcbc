use relax_check::config::{parse_interval_secs, parse_port, DEFAULT_INTERVAL_SECS, DEFAULT_PORT};
use relax_check::fetch::{Backoff, FetchAction, FetchEvent, INITIAL_DELAY_MS, MAX_DELAY_MS};
use relax_check::monitor::{loop_step, poll_cycle, CycleOutcome, LoopAction, LoopEvent, MonitorConfig};
use relax_check::occupancy::Occupancy;
use relax_check::sink::{all_areas, area_label, area_value, metric_description, metric_name, Area};

#[test]
fn backoff_starts_at_initial_delay() {
    let b = Backoff::new();
    assert_eq!(b.next_delay_ms, INITIAL_DELAY_MS);
    assert_eq!(INITIAL_DELAY_MS, 500);
}

#[test]
fn backoff_failure_retries_after_current_delay_and_grows() {
    let mut b = Backoff::new();
    match b.on_event(FetchEvent::Failed) {
        FetchAction::RetryAfterMs(d) => assert_eq!(d, 500),
        other => panic!("expected RetryAfterMs, got {other:?}"),
    }
    assert_eq!(b.next_delay_ms, 750);
    match b.on_event(FetchEvent::Failed) {
        FetchAction::RetryAfterMs(d) => assert_eq!(d, 750),
        other => panic!("expected RetryAfterMs, got {other:?}"),
    }
    assert_eq!(b.next_delay_ms, 1125);
}

#[test]
fn backoff_delay_never_exceeds_cap() {
    let mut b = Backoff::new();
    for _ in 0..100 {
        match b.on_event(FetchEvent::Failed) {
            FetchAction::RetryAfterMs(d) => assert!(d <= MAX_DELAY_MS),
            other => panic!("expected RetryAfterMs, got {other:?}"),
        }
    }
    assert_eq!(b.next_delay_ms, MAX_DELAY_MS);
}

#[test]
fn backoff_success_hands_back_the_body() {
    let mut b = Backoff::new();
    match b.on_event(FetchEvent::Succeeded("page text".to_string())) {
        FetchAction::Done(body) => assert_eq!(body, "page text"),
        other => panic!("expected Done, got {other:?}"),
    }
}

#[test]
fn backoff_cancellation_abandons_without_retry() {
    let mut b = Backoff::new();
    let _ = b.on_event(FetchEvent::Failed);
    let _ = b.on_event(FetchEvent::Failed);
    let before = b.next_delay_ms;
    match b.on_event(FetchEvent::Cancelled) {
        FetchAction::Abandon => {}
        other => panic!("expected Abandon, got {other:?}"),
    }
    assert_eq!(b.next_delay_ms, before);
}

#[test]
fn failing_cycles_always_sleep_the_full_interval() {
    let cfg = MonitorConfig { interval_secs: 300 };
    let broken_page = "<html><body></body></html>";
    let mut sleeps = 0;
    let mut reports = 0;
    for _ in 0..5 {
        match poll_cycle(broken_page) {
            CycleOutcome::Report(_) => reports += 1,
            CycleOutcome::Publish(_) => panic!("a broken page must not publish"),
        }
        match loop_step(&cfg, LoopEvent::CycleFinished { failed: true }) {
            LoopAction::SleepSecs(s) => {
                assert_eq!(s, 300);
                sleeps += 1;
            }
            LoopAction::Stop => panic!("a failed cycle must not stop the loop"),
        }
    }
    assert_eq!(reports, 5);
    assert_eq!(sleeps, 5);
}

#[test]
fn successful_cycle_sleeps_the_same_interval() {
    let cfg = MonitorConfig { interval_secs: 60 };
    match loop_step(&cfg, LoopEvent::CycleFinished { failed: false }) {
        LoopAction::SleepSecs(s) => assert_eq!(s, 60),
        LoopAction::Stop => panic!("a finished cycle must not stop the loop"),
    }
}

#[test]
fn cancellation_stops_the_loop() {
    let cfg = MonitorConfig { interval_secs: 300 };
    match loop_step(&cfg, LoopEvent::Cancelled) {
        LoopAction::Stop => {}
        other => panic!("expected Stop, got {other:?}"),
    }
}

#[test]
fn poll_cycle_publishes_a_good_page() {
    let html = "<html><body><div class=\"modulAuslastugsGrid\">\
        <div class=\"item-aus center\"><p>Thermalbad</p><span>42 %</span></div>\
        <div class=\"item-aus center\"><p>Saunawelt</p><span>7 %</span></div>\
        <div class=\"item-aus center\"><p>Parkhaus</p><span>99 %</span></div>\
        </div></body></html>";
    match poll_cycle(html) {
        CycleOutcome::Publish(o) => {
            assert_eq!(o, Occupancy { thermalbad: 42, saunawelt: 7, parkhaus: 99 });
        }
        CycleOutcome::Report(e) => panic!("unexpected report: {}", e.message()),
    }
}

#[test]
fn config_parses_valid_overrides() {
    assert_eq!(parse_port("9000"), Some(9000));
    assert_eq!(parse_port("1"), Some(1));
    assert_eq!(parse_port("65535"), Some(65535));
    assert_eq!(parse_port("+8080"), Some(8080));
    assert_eq!(parse_interval_secs("300"), Some(300));
    assert_eq!(parse_interval_secs("0"), Some(0));
    assert_eq!(parse_interval_secs("86400"), Some(86400));
}

#[test]
fn config_rejects_invalid_overrides() {
    assert_eq!(parse_port("65536"), None);
    assert_eq!(parse_port("abc"), None);
    assert_eq!(parse_port(""), None);
    assert_eq!(parse_port("-1"), None);
    assert_eq!(parse_port("90 00"), None);
    assert_eq!(parse_interval_secs("five"), None);
    assert_eq!(parse_interval_secs("3.5"), None);
    assert_eq!(parse_interval_secs(""), None);
}

#[test]
fn config_defaults() {
    assert_eq!(DEFAULT_PORT, 9000);
    assert_eq!(DEFAULT_INTERVAL_SECS, 300);
}

#[test]
fn gauge_identities() {
    assert_eq!(metric_name(Area::Thermalbad), "carolus_thermalbad_ratio");
    assert_eq!(metric_name(Area::Saunawelt), "carolus_saunawelt_ratio");
    assert_eq!(metric_name(Area::Parkhaus), "carolus_parkhaus_ratio");
    assert_eq!(area_label(Area::Thermalbad), "Thermalbad");
    assert_eq!(area_label(Area::Saunawelt), "Saunawelt");
    assert_eq!(area_label(Area::Parkhaus), "Parkhaus");
    assert_eq!(
        metric_description(Area::Thermalbad),
        "Occupancy of the Thermalbad of Carolus Thermen Aachen as percentage."
    );
    assert_eq!(all_areas(), vec![Area::Thermalbad, Area::Saunawelt, Area::Parkhaus]);
}

#[test]
fn publish_values_follow_the_reading() {
    let o = Occupancy { thermalbad: 42, saunawelt: 7, parkhaus: 99 };
    assert_eq!(area_value(&o, Area::Thermalbad), 42);
    assert_eq!(area_value(&o, Area::Saunawelt), 7);
    assert_eq!(area_value(&o, Area::Parkhaus), 99);
}

#[test]
fn source_url_is_fixed() {
    assert_eq!(
        relax_check::occupancy_page_url(),
        "https://carolus-thermen.de/auslastung/"
    );
}
