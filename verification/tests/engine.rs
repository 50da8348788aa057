use webcheck::config::AppConfig;
use webcheck::gate::PersistenceGate;
use webcheck::monitor::Monitor;
use webcheck::registry::{AddError, Registry};
use webcheck::resource::{Observation, Resource, Status};
use webcheck::scheduler::{Action, Phase, Scheduler};
use webcheck::time::Timestamp;

fn at(secs: i64) -> Timestamp {
    Timestamp::new(secs, 0)
}

fn probe_urls(action: Action) -> Vec<String> {
    match action {
        Action::Probe(urls) => urls,
        Action::Sleep(secs) => panic!("expected a probe, got a sleep of {}", secs),
    }
}

fn sleep_secs(action: Action) -> u64 {
    match action {
        Action::Sleep(secs) => secs,
        Action::Probe(urls) => panic!("expected a sleep, got a probe of {}", urls.len()),
    }
}

#[test]
fn gate_lets_the_first_write_through() {
    let mut gate = PersistenceGate::new();
    assert_eq!(gate.last_save, None);
    assert!(gate.is_due(at(0)));
    assert!(gate.on_check(at(1000)));
    assert_eq!(gate.last_save, Some(at(1000)));
}

#[test]
fn gate_holds_writes_back_for_ten_minutes() {
    let mut gate = PersistenceGate::new();
    assert!(gate.on_check(at(1000)));
    assert!(!gate.on_check(at(1001)));
    assert!(!gate.on_check(at(1599)));
    assert!(!gate.on_check(Timestamp::new(1599, 999_999_999)));
    assert_eq!(gate.last_save, Some(at(1000)));
    assert!(gate.on_check(at(1600)));
    assert_eq!(gate.last_save, Some(at(1600)));
    assert!(!gate.on_check(at(2199)));
    assert!(gate.on_check(Timestamp::new(2200, 1)));
    assert_eq!(gate.last_save, Some(Timestamp::new(2200, 1)));
}

#[test]
fn gate_counts_nanoseconds() {
    let gate = PersistenceGate { last_save: Some(Timestamp::new(10, 500)) };
    assert!(!gate.is_due(Timestamp::new(610, 499)));
    assert!(gate.is_due(Timestamp::new(610, 500)));
    assert!(!gate.is_due(Timestamp::new(0, 0)));
}

#[test]
fn gate_handles_the_whole_range_of_instants() {
    let gate = PersistenceGate { last_save: Some(Timestamp::new(i64::MIN, 0)) };
    assert!(gate.is_due(Timestamp::new(i64::MAX, u32::MAX)));
    let late = PersistenceGate { last_save: Some(Timestamp::new(i64::MAX, u32::MAX)) };
    assert!(!late.is_due(Timestamp::new(i64::MIN, 0)));
}

#[test]
fn minutes_since_rounds_toward_zero() {
    let base = at(1_000_000);
    assert_eq!(base.minutes_since(&base), 0);
    assert_eq!(at(1_000_059).minutes_since(&base), 0);
    assert_eq!(at(1_000_060).minutes_since(&base), 1);
    assert_eq!(at(1_000_000 + 3599).minutes_since(&base), 59);
    assert_eq!(at(1_000_000 + 86_400).minutes_since(&base), 1440);
    assert_eq!(base.minutes_since(&at(1_000_059)), 0);
    assert_eq!(base.minutes_since(&at(1_000_060)), -1);
    assert_eq!(base.minutes_since(&at(1_000_119)), -1);
    assert_eq!(Timestamp::new(60, 0).minutes_since(&Timestamp::new(0, 1)), 0);
    assert_eq!(Timestamp::new(60, 1).minutes_since(&Timestamp::new(0, 1)), 1);
}

#[test]
fn nanos_since_is_the_signed_distance() {
    assert_eq!(Timestamp::new(2, 5).nanos_since(&Timestamp::new(1, 7)), 999_999_998);
    assert_eq!(Timestamp::new(1, 7).nanos_since(&Timestamp::new(2, 5)), -999_999_998);
    assert_eq!(Timestamp::new(-1, 0).nanos_since(&Timestamp::new(0, 0)), -1_000_000_000);
    let t = Timestamp::new(3, 4);
    assert_eq!(t.secs, 3);
    assert_eq!(t.nanos, 4);
}

#[test]
fn scheduler_fires_first_then_waits() {
    let mut reg = Registry::new();
    reg.add("https://a.example", at(1)).unwrap();
    reg.add("https://b.example", at(1)).unwrap();
    let mut s = Scheduler::new();
    assert_eq!(s.phase, Phase::Firing);
    let urls = probe_urls(s.step(&reg));
    assert_eq!(urls, vec!["https://a.example".to_string(), "https://b.example".to_string()]);
    assert_eq!(s.phase, Phase::Waiting);
    assert_eq!(sleep_secs(s.step(&reg)), 60);
    assert_eq!(s.phase, Phase::Firing);
}

#[test]
fn scheduler_reads_the_interval_at_the_start_of_each_wait() {
    let mut reg = Registry::new();
    let mut s = Scheduler::new();
    assert!(probe_urls(s.step(&reg)).is_empty());
    reg.update_config(7, 30);
    assert_eq!(sleep_secs(s.step(&reg)), 7);
    reg.update_config(100_000, 30);
    let _ = s.step(&reg);
    assert_eq!(sleep_secs(s.step(&reg)), 3600);
}

#[test]
fn scheduler_probes_the_addresses_registered_when_it_fires() {
    let mut reg = Registry::new();
    reg.add("https://a.example", at(1)).unwrap();
    let mut s = Scheduler::new();
    assert_eq!(probe_urls(s.step(&reg)).len(), 1);
    let _ = s.step(&reg);
    reg.add("https://b.example", at(2)).unwrap();
    reg.remove("https://a.example");
    assert_eq!(probe_urls(s.step(&reg)), vec!["https://b.example".to_string()]);
}

#[test]
fn monitor_add_asks_for_write_and_probe_once() {
    let mut m = Monitor::new(Registry::new());
    let (first, effects) = m.add_resource("https://example.com", at(1));
    assert_eq!(first, Ok(()));
    assert!(effects.persist);
    assert_eq!(effects.probe, Some("https://example.com".to_string()));
    let (second, effects) = m.add_resource("https://example.com", at(2));
    assert_eq!(second, Err(AddError::Duplicate));
    assert!(!effects.persist);
    assert_eq!(effects.probe, None);
    assert_eq!(m.registry().len(), 1);
    assert_eq!(m.registry().urls(), vec!["https://example.com".to_string()]);
}

#[test]
fn monitor_add_of_invalid_address_has_no_effects() {
    let mut m = Monitor::new(Registry::new());
    let (res, effects) = m.add_resource("example.com", at(1));
    assert_eq!(res, Err(AddError::InvalidUrl));
    assert!(!effects.persist);
    assert_eq!(effects.probe, None);
    assert_eq!(m.registry().len(), 0);
}

#[test]
fn monitor_remove_always_asks_for_a_write() {
    let mut m = Monitor::new(Registry::new());
    let (removed, effects) = m.remove_resource("https://nonexistent");
    assert!(!removed);
    assert!(effects.persist);
    assert_eq!(effects.probe, None);
    assert_eq!(m.registry().len(), 0);
    m.add_resource("https://example.com", at(1));
    let (removed, effects) = m.remove_resource("https://example.com");
    assert!(removed);
    assert!(effects.persist);
    assert_eq!(effects.probe, None);
    assert_eq!(m.registry().len(), 0);
}

#[test]
fn monitor_update_config_clamps_and_asks_for_a_write() {
    let mut m = Monitor::new(Registry::new());
    let effects = m.update_config(0, 99999);
    assert!(effects.persist);
    assert_eq!(effects.probe, None);
    assert_eq!(m.registry().config(), AppConfig { check_interval: 5, refresh_interval: 3600 });
    let (_, config) = m.get_snapshot();
    assert_eq!(config, AppConfig { check_interval: 5, refresh_interval: 3600 });
}

#[test]
fn monitor_record_check_merges_and_throttles_writes() {
    let mut m = Monitor::new(Registry::new());
    m.add_resource("https://example.com", at(0));
    assert_eq!(m.gate().last_save, None);
    let up = Observation::received(200, 120);
    let (r, effects) = m.record_check("https://example.com", &up, at(10));
    assert!(effects.persist);
    assert_eq!(effects.probe, None);
    assert_eq!(r.status(), Status::Up);
    assert_eq!(r.response_times(), &vec![120]);
    assert_eq!(m.gate().last_save, Some(at(10)));
    let (r, effects) = m.record_check("https://example.com", &Observation::failed(5000), at(20));
    assert!(!effects.persist);
    assert_eq!(r.status(), Status::Down);
    assert_eq!(r.response_times(), &vec![120, 5000]);
    assert_eq!(m.gate().last_save, Some(at(10)));
    let (_, effects) = m.record_check("https://example.com", &Observation::failed(5000), at(609));
    assert!(!effects.persist);
    let (_, effects) = m.record_check("https://example.com", &Observation::failed(5000), at(610));
    assert!(effects.persist);
    assert_eq!(m.gate().last_save, Some(at(610)));
    assert_eq!(m.registry().get("https://example.com").unwrap().response_times().len(), 4);
}

#[test]
fn monitor_writes_after_requests_do_not_move_the_gate() {
    let mut m = Monitor::new(Registry::new());
    m.add_resource("https://example.com", at(0));
    m.update_config(10, 10);
    m.remove_resource("https://example.com");
    assert_eq!(m.gate().last_save, None);
    let (_, effects) = m.record_check("https://example.com", &Observation::failed(1), at(1));
    assert!(effects.persist);
    assert!(m.registry().contains("https://example.com"));
}

#[test]
fn monitor_starts_from_defaults_or_from_the_store() {
    let m = Monitor::start(None, at(3));
    assert_eq!(m.registry().len(), 5);
    assert_eq!(m.gate().last_save, None);
    let stored = vec![Resource::unknown("https://a.example", at(1))];
    let m = Monitor::start(Some((stored, 9, 9)), at(3));
    assert_eq!(m.registry().urls(), vec!["https://a.example".to_string()]);
    assert_eq!(m.registry().config(), AppConfig { check_interval: 9, refresh_interval: 9 });
    let (resources, _) = m.get_snapshot();
    assert_eq!(resources[0].last_checked(), at(1));
}

#[test]
fn monitor_reads_the_clock_for_requests_without_a_time() {
    let before = Timestamp::new(1_600_000_000, 0);
    let mut m = Monitor::start_now(None);
    assert_eq!(m.registry().len(), 5);
    let (res, effects) = m.add_resource_now("https://example.com");
    assert_eq!(res, Ok(()));
    assert!(effects.persist);
    assert_eq!(effects.probe, Some("https://example.com".to_string()));
    let added = m.registry().get("https://example.com").unwrap();
    assert!(added.last_checked().nanos_since(&before) > 0);
    let (r, effects) = m.record_check_now("https://example.com", &Observation::received(200, 12));
    assert!(effects.persist);
    assert_eq!(r.status(), Status::Up);
    assert_eq!(r.response_times(), &vec![12]);
    assert!(r.last_checked().nanos_since(&added.last_checked()) >= 0);
    assert_eq!(m.gate().last_save, Some(r.last_checked()));
    let (_, effects) = m.record_check_now("https://example.com", &Observation::received(200, 12));
    assert!(!effects.persist);
}
