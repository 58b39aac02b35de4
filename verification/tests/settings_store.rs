use nudge_core::store::{
    bootstrap_settings, get_interval_minutes, get_overlay_duration, SettingsDoc,
};

#[test]
fn duration_defaults_to_thirty_when_absent() {
    assert_eq!(get_overlay_duration(None), 30);
}

#[test]
fn duration_defaults_to_thirty_when_not_a_valid_unsigned_integer() {
    let cases = vec![
        serde_json::Value::String("45".to_string()),
        serde_json::Value::Bool(true),
        serde_json::Value::Null,
        serde_json::Value::from(-45i64),
        serde_json::Value::from(4.5f64),
    ];
    for v in cases {
        assert_eq!(get_overlay_duration(Some(v)), 30);
    }
}

#[test]
fn duration_reads_the_stored_number() {
    assert_eq!(get_overlay_duration(Some(serde_json::Value::from(45u64))), 45);
    assert_eq!(get_overlay_duration(Some(serde_json::Value::from(0u64))), 0);
    assert_eq!(
        get_overlay_duration(Some(serde_json::Value::from(u64::MAX))),
        u64::MAX
    );
}

#[test]
fn interval_defaults_to_twenty() {
    assert_eq!(get_interval_minutes(None), 20);
    let bad = serde_json::Value::String("never".to_string());
    assert_eq!(get_interval_minutes(Some(bad)), 20);
    assert_eq!(get_interval_minutes(Some(serde_json::Value::from(7u64))), 7);
}

#[test]
fn bootstrap_fills_every_missing_key_with_its_default() {
    let mut doc = SettingsDoc {
        interval_minutes: None,
        overlay_duration_seconds: None,
        auto_start: None,
    };
    let acts = bootstrap_settings(&mut doc);
    assert!(acts.set_interval_minutes);
    assert!(acts.set_overlay_duration_seconds);
    assert!(acts.set_auto_start);
    assert_eq!(doc.interval_minutes.as_ref().and_then(|v| v.as_u64()), Some(20));
    assert_eq!(
        doc.overlay_duration_seconds.as_ref().and_then(|v| v.as_u64()),
        Some(30)
    );
    assert_eq!(doc.auto_start.as_ref().and_then(|v| v.as_bool()), Some(false));
}

#[test]
fn bootstrap_twice_keeps_existing_non_default_values() {
    let mut doc = SettingsDoc {
        interval_minutes: Some(serde_json::Value::from(90u64)),
        overlay_duration_seconds: Some(serde_json::Value::from(5u64)),
        auto_start: Some(serde_json::Value::from(true)),
    };
    let first = bootstrap_settings(&mut doc);
    assert!(!first.set_interval_minutes);
    assert!(!first.set_overlay_duration_seconds);
    assert!(!first.set_auto_start);
    let second = bootstrap_settings(&mut doc);
    assert!(!second.set_interval_minutes);
    assert!(!second.set_overlay_duration_seconds);
    assert!(!second.set_auto_start);
    assert_eq!(doc.interval_minutes.as_ref().and_then(|v| v.as_u64()), Some(90));
    assert_eq!(
        doc.overlay_duration_seconds.as_ref().and_then(|v| v.as_u64()),
        Some(5)
    );
    assert_eq!(doc.auto_start.as_ref().and_then(|v| v.as_bool()), Some(true));
}

#[test]
fn bootstrap_fills_only_the_missing_keys() {
    let mut doc = SettingsDoc {
        interval_minutes: Some(serde_json::Value::from(0u64)),
        overlay_duration_seconds: None,
        auto_start: Some(serde_json::Value::from(true)),
    };
    let acts = bootstrap_settings(&mut doc);
    assert!(!acts.set_interval_minutes);
    assert!(acts.set_overlay_duration_seconds);
    assert!(!acts.set_auto_start);
    // the explicit "disabled" interval 0 is kept, not treated as missing
    assert_eq!(doc.interval_minutes.as_ref().and_then(|v| v.as_u64()), Some(0));
    assert_eq!(
        doc.overlay_duration_seconds.as_ref().and_then(|v| v.as_u64()),
        Some(30)
    );
    assert_eq!(doc.auto_start.as_ref().and_then(|v| v.as_bool()), Some(true));
}
