use usedns::models::{default_providers, DnsProvider};
use usedns::storage::{
    custom_providers_of, default_enabled, default_language, default_network_interval,
    default_speed_unit, default_theme, normalize_interval, normalize_language,
    normalize_settings, normalize_speed_unit, normalize_theme, settings_snapshot, Settings,
    TrayPreferences,
};

fn custom(id: &str) -> DnsProvider {
    DnsProvider {
        id: id.into(),
        name: "Home".into(),
        ipv4_primary: "192.168.1.2".into(),
        ipv4_secondary: String::new(),
        ipv6_primary: String::new(),
        ipv6_secondary: String::new(),
        summary_en: "Home resolver".into(),
        summary_id: "Home resolver".into(),
        purpose: "general".into(),
        pros_en: String::new(),
        pros_id: String::new(),
        cons_en: String::new(),
        cons_id: String::new(),
        custom: true,
        profiles: Vec::new(),
    }
}

#[test]
fn fresh_settings_use_the_defaults() {
    let s = Settings::default();
    assert_eq!(s.language, "en");
    assert_eq!(s.theme, "system");
    assert_eq!(s.speed_unit, "kbps");
    assert_eq!(s.network_interval_secs, 1);
    assert!(s.tray_show_speed && s.tray_show_dns && s.tray_show_status && s.tray_show_latency);
    assert!(s.custom_providers.is_empty());

    assert_eq!(default_language(), "en");
    assert_eq!(default_theme(), "system");
    assert_eq!(default_speed_unit(), "kbps");
    assert!(default_enabled());
    assert_eq!(default_network_interval(), 1);
}

#[test]
fn unknown_stored_values_fall_back() {
    assert_eq!(normalize_language("id"), "id");
    assert_eq!(normalize_language("en"), "en");
    assert_eq!(normalize_language("fr"), "en");
    assert_eq!(normalize_language("ID"), "en");
    assert_eq!(normalize_theme("light"), "light");
    assert_eq!(normalize_theme("dark"), "dark");
    assert_eq!(normalize_theme("system"), "system");
    assert_eq!(normalize_theme("blue"), "system");
    assert_eq!(normalize_speed_unit("mbps"), "mbps");
    assert_eq!(normalize_speed_unit("gbps"), "kbps");
    assert_eq!(normalize_interval(2), 2);
    assert_eq!(normalize_interval(5), 5);
    assert_eq!(normalize_interval(1), 1);
    assert_eq!(normalize_interval(3), 1);
    assert_eq!(normalize_interval(-2), 1);
    assert_eq!(normalize_interval(0), 1);
}

#[test]
fn normalizing_twice_changes_nothing_more() {
    let mut s = Settings::default();
    s.language = "de".into();
    s.theme = "dark".into();
    s.speed_unit = "bytes".into();
    s.network_interval_secs = 7;
    s.tray_show_dns = false;
    s.custom_providers.push(custom("custom-1"));
    let once = normalize_settings(s);
    assert_eq!(once.language, "en");
    assert_eq!(once.theme, "dark");
    assert_eq!(once.speed_unit, "kbps");
    assert_eq!(once.network_interval_secs, 1);
    assert!(!once.tray_show_dns);
    assert_eq!(once.custom_providers.len(), 1);
    let twice = normalize_settings(once.clone());
    assert_eq!(twice.language, once.language);
    assert_eq!(twice.theme, once.theme);
    assert_eq!(twice.speed_unit, once.speed_unit);
    assert_eq!(twice.network_interval_secs, once.network_interval_secs);
    assert_eq!(twice.custom_providers.len(), once.custom_providers.len());
}

#[test]
fn snapshot_stores_only_custom_providers() {
    let mut providers = default_providers();
    providers.push(custom("custom-1"));
    providers.push(custom("custom-2"));
    let only = custom_providers_of(&providers);
    let ids: Vec<&str> = only.iter().map(|p| p.id.as_str()).collect();
    assert_eq!(ids, vec!["custom-1", "custom-2"]);

    let tray = TrayPreferences {
        network_interval_secs: 5,
        show_speed: false,
        show_dns: true,
        show_status: false,
        show_latency: true,
    };
    let s = settings_snapshot("id", "light", "mbps", &providers, tray);
    assert_eq!(s.language, "id");
    assert_eq!(s.theme, "light");
    assert_eq!(s.speed_unit, "mbps");
    assert_eq!(s.network_interval_secs, 5);
    assert!(!s.tray_show_speed);
    assert!(s.tray_show_dns);
    assert!(!s.tray_show_status);
    assert!(s.tray_show_latency);
    assert_eq!(s.custom_providers.len(), 2);
    assert!(s.custom_providers.iter().all(|p| p.custom));

    let none = custom_providers_of(&default_providers());
    assert!(none.is_empty());
}
