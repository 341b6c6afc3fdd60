//! Scheduler decisions, string helpers, settings and the small model types.
use egdata_client::greet;
use egdata_client::json::{read_bool_field, read_str_field, read_u64_field, text_is_json};
use egdata_client::models::{LogEvent, Settings};
use egdata_client::scan::{mac_manifests_dir, windows_manifests_dir};
use egdata_client::scheduler::{interval_seconds, LoopTimer};
use egdata_client::strutil::{contains_str, ends_with_str, replace_backslashes, str_eq};

#[test]
fn interval_change_is_noticed_on_the_next_tick() {
    // The loop was built at 60 minutes; settings drop to 1 while it sleeps.
    let mut timer = LoopTimer::new(60);
    assert_eq!(timer.interval_minutes, 60);
    let rebuild = timer.on_tick(1);
    assert!(rebuild);
    assert_eq!(timer.interval_minutes, 1);
    // The next tick runs at the new cadence and sees no further change.
    let rebuild = timer.on_tick(1);
    assert!(!rebuild);
    assert_eq!(timer.interval_minutes, 1);
}

#[test]
fn unchanged_interval_never_rebuilds() {
    let mut timer = LoopTimer::new(5);
    assert!(!timer.on_tick(5));
    assert!(!timer.on_tick(5));
}

#[test]
fn interval_seconds_is_minutes_times_sixty() {
    assert_eq!(interval_seconds(1), Some(60));
    assert_eq!(interval_seconds(60), Some(3600));
    assert_eq!(interval_seconds(0), Some(0));
    assert_eq!(interval_seconds(u64::MAX), None);
}

#[test]
fn default_settings_match_the_documented_values() {
    let s = Settings::defaults();
    assert_eq!(s.concurrency, 3);
    assert_eq!(s.upload_speed_limit, 0);
    assert_eq!(s.allowed_environments, vec!["Live", "Production"]);
    assert_eq!(s.upload_interval, 60);
    assert_eq!(s.scan_interval_minutes, 1);
}

#[test]
fn settings_clone_keeps_every_field() {
    let s = Settings::defaults();
    let c = s.clone();
    assert_eq!(c.concurrency, s.concurrency);
    assert_eq!(c.allowed_environments, s.allowed_environments);
    assert_eq!(c.upload_interval, s.upload_interval);
    assert_eq!(c.scan_interval_minutes, s.scan_interval_minutes);
}

#[test]
fn log_events_carry_their_parts() {
    let e = LogEvent::new(
        "INFO".to_string(),
        "scan started".to_string(),
        "12:00:00".to_string(),
    );
    assert_eq!(e.level, "INFO");
    assert_eq!(e.message, "scan started");
    assert_eq!(e.timestamp, "12:00:00");
}

#[test]
fn greeting_embeds_the_name() {
    assert_eq!(greet("Ada"), "Hello, Ada! You've been greeted from Rust!");
}

#[test]
fn metadata_endpoint_is_keyed_by_catalog_item() {
    assert_eq!(
        egdata_client::metadata::metadata_endpoint("cat42"),
        "https://api.egdata.app/items/cat42"
    );
}

#[test]
fn manifest_directories_are_fixed() {
    assert_eq!(
        windows_manifests_dir(),
        "C:\\ProgramData\\Epic\\EpicGamesLauncher\\Data\\Manifests"
    );
    assert_eq!(
        mac_manifests_dir("/Users/dev"),
        "/Users/dev/Library/Application Support/Epic/EpicGamesLauncher/Data/Manifests"
    );
}

#[test]
fn string_helpers_behave() {
    assert!(str_eq("abc", "abc"));
    assert!(!str_eq("abc", "abd"));
    assert!(!str_eq("abc", "ab"));
    assert!(contains_str("the quick brown fox", "quick"));
    assert!(contains_str("abc", ""));
    assert!(!contains_str("abc", "abcd"));
    assert!(!contains_str("the quick brown fox", "slow"));
    assert!(ends_with_str("file.item", ".item"));
    assert!(!ends_with_str("file.itemx", ".item"));
    assert!(!ends_with_str("it", ".item"));
    assert_eq!(replace_backslashes("C:\\a\\b/c"), "C:/a/b/c");
    assert_eq!(replace_backslashes(""), "");
}

#[test]
fn json_readers_pull_single_fields() {
    let doc = "{\"name\":\"value\",\"size\":7,\"flag\":true}";
    assert!(text_is_json(doc));
    assert!(!text_is_json("{"));
    assert_eq!(read_str_field(doc, "name").as_deref(), Some("value"));
    assert_eq!(read_str_field(doc, "size"), None);
    assert_eq!(read_str_field(doc, "missing"), None);
    assert_eq!(read_u64_field(doc, "size"), Some(7));
    assert_eq!(read_bool_field(doc, "flag"), Some(true));
    assert_eq!(read_str_field("not json", "name"), None);
}
