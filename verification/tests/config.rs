use anchor::config::{
    active_profile, default_active_profile_name, default_always_on_top,
    default_cycles_before_long_break, default_long_break_color, default_long_break_secs,
    default_profiles, default_short_break_color, default_short_break_secs,
    default_sound_enabled, default_work_color, default_work_duration_secs, ProfileConfig,
    ProfileTable, WindowSize,
};
use anchor::timer::ProfileKind;

#[test]
fn default_values() {
    assert_eq!(default_work_duration_secs(), 1500);
    assert_eq!(default_short_break_secs(), 300);
    assert_eq!(default_long_break_secs(), Some(900));
    assert_eq!(default_cycles_before_long_break(), Some(4));
    assert_eq!(default_work_color(), "#E05C5C");
    assert_eq!(default_short_break_color(), "#5CB85C");
    assert_eq!(default_long_break_color(), "#5C9BE0");
    assert!(default_sound_enabled());
    assert!(default_always_on_top());
    assert_eq!(default_active_profile_name(), "classic");
    assert_eq!(WindowSize::default(), WindowSize::M);
}

#[test]
fn default_profile_config() {
    let c = ProfileConfig::default();
    assert_eq!(c.work_duration_secs, 1500);
    assert_eq!(c.short_break_secs, 300);
    assert_eq!(c.long_break_secs, Some(900));
    assert_eq!(c.cycles_before_long_break, Some(4));
    assert_eq!(c.work_color, "#E05C5C");
}

#[test]
fn default_profile_table() {
    let t = default_profiles();
    assert!(t.contains_key("classic"));
    assert!(t.contains_key("no_long_break"));
    assert!(!t.contains_key("other"));
    let classic = t.get("classic").unwrap();
    assert_eq!(classic.work_duration_secs, 1500);
    assert_eq!(classic.short_break_secs, 300);
    assert_eq!(classic.long_break_secs, Some(900));
    let nlb = t.get("no_long_break").unwrap();
    assert_eq!(nlb.long_break_secs, None);
    assert_eq!(nlb.cycles_before_long_break, None);
    assert_eq!(nlb.work_duration_secs, 1500);
    assert_eq!(t.into_entries().len(), 2);
}

#[test]
fn table_insert_replaces() {
    let mut t = ProfileTable::new();
    assert!(t.get("a").is_none());
    t.insert("a".to_string(), ProfileConfig::default());
    let mut c = ProfileConfig::default();
    c.work_duration_secs = 10;
    t.insert("b".to_string(), c.clone());
    c.work_duration_secs = 20;
    t.insert("a".to_string(), c);
    assert_eq!(t.get("a").unwrap().work_duration_secs, 20);
    assert_eq!(t.get("b").unwrap().work_duration_secs, 10);
    assert_eq!(t.into_entries().len(), 2);
}

#[test]
fn active_profile_from_its_own_settings() {
    let mut t = default_profiles();
    let mut c = ProfileConfig::default();
    c.work_duration_secs = 60;
    c.long_break_secs = None;
    c.cycles_before_long_break = None;
    t.insert("mine".to_string(), c);
    let p = active_profile(&t, "mine");
    assert_eq!(p.kind, ProfileKind::NoLongBreak);
    assert_eq!(p.work_secs, 60);
    assert_eq!(p.short_break_secs, 300);
    assert_eq!(p.long_break_secs, 0);
    assert_eq!(p.cycles_before_long, 4);

    let p = active_profile(&t, "classic");
    assert_eq!(p.kind, ProfileKind::Classic);
    assert_eq!(p.work_secs, 1500);
    assert_eq!(p.long_break_secs, 900);
    assert_eq!(p.cycles_before_long, 4);

    let p = active_profile(&t, "no_long_break");
    assert_eq!(p.kind, ProfileKind::NoLongBreak);
    assert_eq!(p.long_break_secs, 0);
}

#[test]
fn active_profile_falls_back_to_classic() {
    let mut t = ProfileTable::new();
    let mut c = ProfileConfig::default();
    c.work_duration_secs = 42;
    t.insert("classic".to_string(), c);
    let p = active_profile(&t, "missing");
    assert_eq!(p.kind, ProfileKind::NoLongBreak);
    assert_eq!(p.work_secs, 42);
}

#[test]
fn active_profile_falls_back_to_defaults() {
    let t = ProfileTable::new();
    let p = active_profile(&t, "classic");
    assert_eq!(p.kind, ProfileKind::Classic);
    assert_eq!(p.work_secs, 1500);
    assert_eq!(p.short_break_secs, 300);
    assert_eq!(p.long_break_secs, 900);
    assert_eq!(p.cycles_before_long, 4);
}
