use webcheck::config::AppConfig;
use webcheck::jitter::Jitter;
use webcheck::registry::{AddError, Registry, RestoreError};
use webcheck::resource::{Observation, Resource, Status};
use webcheck::time::Timestamp;

fn at(secs: i64) -> Timestamp {
    Timestamp::new(secs, 0)
}

fn std_dev(j: &Jitter) -> f64 {
    let spread = (j.high as f64) * 2f64.powi(128) + (j.low as f64);
    spread.sqrt() / (j.samples as f64)
}

#[test]
fn first_probe_success_marks_resource_up() {
    let mut reg = Registry::new();
    assert_eq!(reg.add("https://example.com", at(1)), Ok(()));
    let fresh = reg.get("https://example.com").unwrap();
    assert_eq!(fresh.status(), Status::Unknown);
    assert_eq!(fresh.status_code(), None);
    assert_eq!(fresh.response_time(), None);
    assert!(fresh.response_times().is_empty());
    assert_eq!(fresh.jitter(), None);
    assert_eq!(fresh.last_checked(), at(1));

    let r = reg.upsert("https://example.com", &Observation::received(200, 120), at(2));
    assert_eq!(r.url(), "https://example.com");
    assert_eq!(r.status(), Status::Up);
    assert_eq!(r.status_code(), Some(200));
    assert_eq!(r.response_time(), Some(120));
    assert_eq!(r.response_times(), &vec![120]);
    assert_eq!(r.jitter(), None);
    assert_eq!(r.last_checked(), at(2));
    assert_eq!(reg.len(), 1);
}

#[test]
fn timeout_after_success_marks_resource_down() {
    let mut reg = Registry::new();
    reg.add("https://example.com", at(1)).unwrap();
    reg.upsert("https://example.com", &Observation::received(200, 120), at(2));
    let r = reg.upsert("https://example.com", &Observation::failed(5000), at(3));
    assert_eq!(r.status(), Status::Down);
    assert_eq!(r.status_code(), None);
    assert_eq!(r.response_time(), Some(5000));
    assert_eq!(r.response_times(), &vec![120, 5000]);
    let j = r.jitter().unwrap();
    assert_eq!(j, Jitter { high: 0, low: 23_814_400, samples: 2 });
    assert_eq!(std_dev(&j), 2440.0);
    let stored = reg.get("https://example.com").unwrap();
    assert_eq!(stored.response_times(), &vec![120, 5000]);
    assert_eq!(stored.jitter(), Some(j));
}

#[test]
fn remove_of_unknown_url_changes_nothing() {
    let mut reg = Registry::new();
    assert!(!reg.remove("https://nonexistent"));
    assert_eq!(reg.len(), 0);
    assert_eq!(reg.config(), AppConfig { check_interval: 60, refresh_interval: 30 });
}

#[test]
fn remove_takes_out_only_the_named_resource() {
    let mut reg = Registry::new();
    reg.add("https://a.example", at(1)).unwrap();
    reg.add("https://b.example", at(1)).unwrap();
    reg.add("https://c.example", at(1)).unwrap();
    assert!(reg.remove("https://b.example"));
    assert_eq!(reg.urls(), vec!["https://a.example".to_string(), "https://c.example".to_string()]);
    assert!(!reg.contains("https://b.example"));
    assert!(!reg.remove("https://b.example"));
    assert_eq!(reg.len(), 2);
}

#[test]
fn update_config_clamps_both_intervals() {
    let mut reg = Registry::new();
    reg.update_config(0, 99999);
    assert_eq!(reg.config().check_interval, 5);
    assert_eq!(reg.config().refresh_interval, 3600);
}

#[test]
fn update_config_keeps_values_in_range() {
    let mut reg = Registry::new();
    reg.update_config(5, 3600);
    assert_eq!(reg.config(), AppConfig { check_interval: 5, refresh_interval: 3600 });
    reg.update_config(4, 3601);
    assert_eq!(reg.config(), AppConfig { check_interval: 5, refresh_interval: 3600 });
    reg.update_config(120, 45);
    assert_eq!(reg.config(), AppConfig { check_interval: 120, refresh_interval: 45 });
    reg.update_config(u64::MAX, 0);
    assert_eq!(reg.config(), AppConfig { check_interval: 3600, refresh_interval: 5 });
}

#[test]
fn config_constructor_clamps_and_default_is_sixty_thirty() {
    assert_eq!(AppConfig::new(1, 2), AppConfig { check_interval: 5, refresh_interval: 5 });
    assert_eq!(AppConfig::new(10, 7000), AppConfig { check_interval: 10, refresh_interval: 3600 });
    assert_eq!(AppConfig::default(), AppConfig { check_interval: 60, refresh_interval: 30 });
}

#[test]
fn add_twice_keeps_one_entry() {
    let mut reg = Registry::new();
    assert_eq!(reg.add("https://example.com", at(1)), Ok(()));
    assert_eq!(reg.add("https://example.com", at(2)), Err(AddError::Duplicate));
    assert_eq!(reg.len(), 1);
    assert_eq!(reg.get("https://example.com").unwrap().last_checked(), at(1));
}

#[test]
fn add_rejects_addresses_of_the_wrong_form() {
    let mut reg = Registry::new();
    assert_eq!(reg.add("ftp://example.com", at(1)), Err(AddError::InvalidUrl));
    assert_eq!(reg.add("", at(1)), Err(AddError::InvalidUrl));
    assert_eq!(reg.add("http:/example.com", at(1)), Err(AddError::InvalidUrl));
    assert_eq!(reg.add("HTTP://example.com", at(1)), Err(AddError::InvalidUrl));
    assert_eq!(reg.add(" https://example.com", at(1)), Err(AddError::InvalidUrl));
    assert_eq!(reg.add("https:/", at(1)), Err(AddError::InvalidUrl));
    assert_eq!(reg.len(), 0);
    assert_eq!(reg.add("http://", at(1)), Ok(()));
    assert_eq!(reg.add("https://", at(1)), Ok(()));
    assert_eq!(reg.add("http://example.com", at(1)), Ok(()));
    assert_eq!(reg.len(), 3);
}

#[test]
fn invalid_form_is_reported_before_duplicate() {
    let mut reg = Registry::new();
    reg.upsert("not-a-url", &Observation::failed(1), at(1));
    assert!(reg.contains("not-a-url"));
    assert_eq!(reg.add("not-a-url", at(2)), Err(AddError::InvalidUrl));
    assert_eq!(reg.len(), 1);
}

#[test]
fn upsert_of_unregistered_url_creates_the_resource() {
    let mut reg = Registry::new();
    let r = reg.upsert("https://late.example", &Observation::received(503, 77), at(9));
    assert_eq!(r.url(), "https://late.example");
    assert_eq!(r.status(), Status::Down);
    assert_eq!(r.status_code(), Some(503));
    assert_eq!(r.response_time(), Some(77));
    assert_eq!(r.response_times(), &vec![77]);
    assert_eq!(r.jitter(), None);
    assert_eq!(r.last_checked(), at(9));
    assert_eq!(reg.len(), 1);
    assert!(reg.contains("https://late.example"));
}

#[test]
fn upsert_touches_only_the_named_resource() {
    let mut reg = Registry::new();
    reg.add("https://a.example", at(1)).unwrap();
    reg.add("https://b.example", at(1)).unwrap();
    reg.upsert("https://b.example", &Observation::received(200, 10), at(2));
    let a = reg.get("https://a.example").unwrap();
    assert_eq!(a.status(), Status::Unknown);
    assert!(a.response_times().is_empty());
    let b = reg.get("https://b.example").unwrap();
    assert_eq!(b.status(), Status::Up);
    assert_eq!(reg.urls(), vec!["https://a.example".to_string(), "https://b.example".to_string()]);
}

#[test]
fn get_of_unknown_url_is_none() {
    let reg = Registry::new();
    assert!(reg.get("https://example.com").is_none());
    assert_eq!(reg.find("https://example.com"), None);
}

#[test]
fn find_gives_the_position_in_registration_order() {
    let mut reg = Registry::new();
    reg.add("https://a.example", at(1)).unwrap();
    reg.add("https://b.example", at(1)).unwrap();
    assert_eq!(reg.find("https://a.example"), Some(0));
    assert_eq!(reg.find("https://b.example"), Some(1));
    assert_eq!(reg.find("https://b.example/"), None);
}

#[test]
fn snapshot_is_a_deep_copy() {
    let mut reg = Registry::new();
    reg.add("https://a.example", at(1)).unwrap();
    reg.update_config(15, 20);
    let (resources, config) = reg.get_snapshot();
    reg.upsert("https://a.example", &Observation::received(200, 5), at(2));
    reg.update_config(30, 40);
    assert_eq!(resources.len(), 1);
    assert_eq!(resources[0].status(), Status::Unknown);
    assert!(resources[0].response_times().is_empty());
    assert_eq!(config, AppConfig { check_interval: 15, refresh_interval: 20 });
}

#[test]
fn snapshot_round_trips_through_restore() {
    let mut reg = Registry::new();
    reg.add("https://a.example", at(1)).unwrap();
    reg.add("http://b.example", at(2)).unwrap();
    reg.upsert("https://a.example", &Observation::received(200, 120), at(3));
    reg.upsert("https://a.example", &Observation::failed(5000), at(4));
    reg.update_config(17, 99);
    let (resources, config) = reg.get_snapshot();
    let mut rebuilt: Vec<Resource> = Vec::new();
    for r in &resources {
        let again = Resource::from_parts(
            r.url(),
            r.url().to_string(),
            r.status(),
            r.status_code(),
            r.last_checked(),
            r.response_time(),
            r.response_times().clone(),
            r.jitter().is_some(),
        )
        .unwrap();
        rebuilt.push(again);
    }
    let back = Registry::restore(rebuilt, config.check_interval, config.refresh_interval).unwrap();
    assert_eq!(back.config(), config);
    assert_eq!(back.urls(), reg.urls());
    let (copies, _) = back.get_snapshot();
    assert_eq!(copies.len(), resources.len());
    for (x, y) in copies.iter().zip(resources.iter()) {
        assert_eq!(x.url(), y.url());
        assert_eq!(x.status(), y.status());
        assert_eq!(x.status_code(), y.status_code());
        assert_eq!(x.last_checked(), y.last_checked());
        assert_eq!(x.response_time(), y.response_time());
        assert_eq!(x.response_times(), y.response_times());
        assert_eq!(x.jitter(), y.jitter());
    }
}

#[test]
fn restore_rejects_two_resources_with_one_address() {
    let a = Resource::unknown("https://a.example", at(1));
    let b = Resource::unknown("https://b.example", at(1));
    let a2 = Resource::unknown("https://a.example", at(2));
    let r = Registry::restore(vec![a, b, a2], 60, 30);
    assert_eq!(r.err(), Some(RestoreError::DuplicateUrl));
}

#[test]
fn restore_clamps_stored_intervals() {
    let a = Resource::unknown("https://a.example", at(1));
    let reg = Registry::restore(vec![a], 1, 100_000).unwrap();
    assert_eq!(reg.config(), AppConfig { check_interval: 5, refresh_interval: 3600 });
    assert_eq!(reg.len(), 1);
}

#[test]
fn nothing_stored_gives_the_built_in_addresses() {
    let reg = Registry::load_or_default(None, at(7));
    assert_eq!(
        reg.urls(),
        vec![
            "https://www.google.com".to_string(),
            "https://www.github.com".to_string(),
            "https://www.rust-lang.org".to_string(),
            "https://www.wikipedia.org".to_string(),
            "https://www.microsoft.com".to_string(),
        ]
    );
    assert_eq!(reg.config(), AppConfig { check_interval: 60, refresh_interval: 30 });
    let (resources, _) = reg.get_snapshot();
    for r in &resources {
        assert_eq!(r.status(), Status::Unknown);
        assert_eq!(r.status_code(), None);
        assert_eq!(r.response_time(), None);
        assert!(r.response_times().is_empty());
        assert_eq!(r.jitter(), None);
        assert_eq!(r.last_checked(), at(7));
    }
}

#[test]
fn rejected_store_falls_back_to_the_built_in_addresses() {
    let a = Resource::unknown("https://a.example", at(1));
    let a2 = Resource::unknown("https://a.example", at(2));
    let reg = Registry::load_or_default(Some((vec![a, a2], 10, 10)), at(7));
    assert_eq!(reg.len(), 5);
    assert!(reg.contains("https://www.rust-lang.org"));
    assert_eq!(reg.config(), AppConfig { check_interval: 60, refresh_interval: 30 });
}

#[test]
fn accepted_store_is_taken_up() {
    let a = Resource::unknown("https://a.example", at(1));
    let reg = Registry::load_or_default(Some((vec![a], 10, 11)), at(7));
    assert_eq!(reg.urls(), vec!["https://a.example".to_string()]);
    assert_eq!(reg.config(), AppConfig { check_interval: 10, refresh_interval: 11 });
    assert_eq!(reg.get("https://a.example").unwrap().last_checked(), at(1));
}

#[test]
fn empty_store_is_taken_up_as_empty() {
    let reg = Registry::load_or_default(Some((Vec::new(), 60, 30)), at(7));
    assert_eq!(reg.len(), 0);
}
