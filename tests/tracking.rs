use gdcbot::decimal::{i32_text, parse_i32, parse_u64, u64_text};
use gdcbot::poller::{query_url, POLL_INTERVAL_SECS, RETRY_DELAY_SECS};
use gdcbot::snapshot::{Depots, VersionSnapshot};
use gdcbot::tracker::GameVersionManager;

fn snap(change_number: u64, public_only: Option<&str>, build: Option<Option<&str>>) -> VersionSnapshot {
    VersionSnapshot {
        change_number,
        public_only: public_only.map(|s| s.to_string()),
        depots: build.map(|b| Depots { public_build_id: b.map(|s| s.to_string()) }),
    }
}

#[test]
fn parse_u64_reads_plain_and_signed_digits() {
    assert_eq!(parse_u64("42"), Some(42));
    assert_eq!(parse_u64("+7"), Some(7));
    assert_eq!(parse_u64("0"), Some(0));
    assert_eq!(parse_u64("18446744073709551615"), Some(u64::MAX));
    assert_eq!(parse_u64("18446744073709551616"), None);
    assert_eq!(parse_u64(""), None);
    assert_eq!(parse_u64("+"), None);
    assert_eq!(parse_u64("-1"), None);
    assert_eq!(parse_u64("4x"), None);
}

#[test]
fn parse_i32_matches_std() {
    for s in ["730", "-5", "+12", "2147483647", "-2147483648", "2147483648", "-2147483649", "csgo", "", "-", "1 "] {
        assert_eq!(parse_i32(s), s.parse::<i32>().ok(), "{}", s);
    }
}

#[test]
fn decimal_text_round_trips() {
    assert_eq!(u64_text(0), "0");
    assert_eq!(u64_text(9), "9");
    assert_eq!(u64_text(1234567890), "1234567890");
    assert_eq!(u64_text(u64::MAX), u64::MAX.to_string());
    assert_eq!(i32_text(-730), "-730");
    assert_eq!(i32_text(i32::MIN), i32::MIN.to_string());
    assert_eq!(i32_text(730), "730");
}

#[test]
fn first_observation_is_never_an_update() {
    let mut m = GameVersionManager::new(vec![730]);
    assert!(!m.check_update(730, 5));
    assert_eq!(m.last_counter(730), Some(5));
}

#[test]
fn changed_counter_is_an_update_and_repeat_is_not() {
    let mut m = GameVersionManager::new(vec![730]);
    let answers: Vec<bool> = [5u64, 5, 6, 6, 0, 7, 8].iter().map(|&c| m.check_update(730, c)).collect();
    assert_eq!(answers, vec![false, false, true, false, true, false, true]);
}

#[test]
fn zero_counter_never_triggers() {
    let mut m = GameVersionManager::new(vec![440]);
    assert!(!m.check_update(440, 0));
    assert!(!m.check_update(440, 0));
    assert!(!m.check_update(440, 9));
    assert_eq!(m.last_counter(440), Some(9));
    assert_eq!(m.last_counter(441), None);
}

#[test]
fn titles_are_kept() {
    let m = GameVersionManager::new(vec![730, 440]);
    assert_eq!(m.get_apps(), vec![730, 440]);
}

#[test]
fn public_only_snapshot_uses_change_number() {
    assert_eq!(snap(99, Some("1"), Some(Some("42"))).counter(), Some(99));
    assert_eq!(snap(99, Some("1"), None).counter_or_zero(), 99);
}

#[test]
fn public_branch_build_is_the_counter() {
    assert_eq!(snap(99, None, Some(Some("42"))).counter(), Some(42));
    assert_eq!(snap(99, Some("0"), Some(Some("42"))).counter(), Some(42));
}

#[test]
fn snapshot_with_neither_yields_zero() {
    assert_eq!(snap(99, None, None).counter(), None);
    assert_eq!(snap(99, None, None).counter_or_zero(), 0);
    assert_eq!(snap(99, Some("0"), None).counter_or_zero(), 0);
    assert_eq!(snap(99, None, Some(None)).counter_or_zero(), 0);
    assert_eq!(snap(99, None, Some(Some("x1"))).counter_or_zero(), 0);
    let mut m = GameVersionManager::new(vec![730]);
    m.check_update(730, 0);
    assert!(!m.check_update(730, snap(99, None, None).counter_or_zero()));
}

#[test]
fn poll_cycle_raises_updates_in_order() {
    let mut m = GameVersionManager::new(vec![730, 440]);
    let first = m.poll_cycle(Some(vec![
        ("730".to_string(), snap(1, Some("1"), None)),
        ("440".to_string(), snap(1, None, Some(Some("10")))),
    ]));
    assert!(first.updated.is_empty());
    assert_eq!(first.delay_secs, POLL_INTERVAL_SECS);
    let second = m.poll_cycle(Some(vec![
        ("730".to_string(), snap(2, Some("1"), None)),
        ("440".to_string(), snap(2, None, Some(Some("11")))),
        ("abc".to_string(), snap(2, None, None)),
        ("570".to_string(), snap(2, None, None)),
    ]));
    assert_eq!(second.updated, vec![0, 1]);
    assert_eq!(second.bad_keys, vec![2]);
    assert_eq!(second.unresolved, vec![3]);
    assert_eq!(m.last_counter(440), Some(11));
    assert_eq!(m.last_counter(570), Some(0));
}

#[test]
fn failed_query_backs_off_and_changes_nothing() {
    let mut m = GameVersionManager::new(vec![730]);
    m.poll_cycle(Some(vec![("730".to_string(), snap(1, Some("1"), None))]));
    let failed = m.poll_cycle(None);
    assert_eq!(failed.delay_secs, RETRY_DELAY_SECS);
    assert_eq!(RETRY_DELAY_SECS, 5);
    assert!(failed.updated.is_empty());
    assert_eq!(m.last_counter(730), Some(1));
    let retried = m.poll_cycle(Some(vec![("730".to_string(), snap(2, Some("1"), None))]));
    assert_eq!(retried.updated, vec![0]);
    assert_eq!(retried.delay_secs, 120);
}

#[test]
fn query_url_lists_titles() {
    assert_eq!(query_url("pics.local", &vec![730, 440]), "http://pics.local:23455/info?apps=730,440");
    assert_eq!(query_url("h", &vec![]), "http://h:23455/info?apps=");
}
