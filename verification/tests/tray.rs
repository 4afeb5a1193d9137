use usedns::models::{default_providers, DnsProvider};
use usedns::system::AdapterInfo;
use usedns::tray::{
    ends_with_exec, plan_tray_apply, tray_action, tray_entry, tray_item_checked,
    tray_item_id_exec, tray_menu, tray_submenu_title, CLOSE_ID, OPEN_ID,
};

fn custom(id: &str, name: &str, v4: &str) -> DnsProvider {
    DnsProvider {
        id: id.into(),
        name: name.into(),
        ipv4_primary: v4.into(),
        ipv4_secondary: String::new(),
        ipv6_primary: "fd00::53".into(),
        ipv6_secondary: String::new(),
        summary_en: "Mine".into(),
        summary_id: "Milikku".into(),
        purpose: "general".into(),
        pros_en: String::new(),
        pros_id: String::new(),
        cons_en: String::new(),
        cons_id: String::new(),
        custom: true,
        profiles: Vec::new(),
    }
}

fn ethernet() -> Vec<AdapterInfo> {
    vec![AdapterInfo {
        name: "Ethernet".into(),
        label: "Ethernet".into(),
        dns: String::new(),
        interface_index: 3,
        dns_automatic: true,
        dns_encrypted: false,
    }]
}

#[test]
fn menu_identifiers() {
    assert_eq!(OPEN_ID, "tray-open");
    assert_eq!(CLOSE_ID, "tray-close");
    assert_eq!(tray_item_id_exec("quad9", 2), "tray-dns:quad9:2");
    assert_eq!(tray_item_id_exec("custom-17", 0), "tray-dns:custom-17:0");
    assert_eq!(tray_item_id_exec("x", 12), "tray-dns:x:12");
}

#[test]
fn menu_lists_every_provider() {
    let mut providers = default_providers();
    providers.push(custom("custom-1", "Home", "192.168.1.2"));
    let menu = tray_menu(&providers, "en");
    assert_eq!(menu.open_label, "Open");
    assert_eq!(menu.change_dns_label, "Change DNS");
    assert_eq!(menu.close_label, "Close");
    assert_eq!(menu.entries.len(), 9);

    let cloudflare = &menu.entries[0];
    assert!(cloudflare.submenu);
    assert_eq!(cloudflare.provider_name, "Cloudflare");
    let ids: Vec<&str> = cloudflare.items.iter().map(|i| i.id.as_str()).collect();
    assert_eq!(
        ids,
        vec!["tray-dns:cloudflare:0", "tray-dns:cloudflare:1", "tray-dns:cloudflare:2"]
    );
    assert_eq!(cloudflare.items[1].label, "Malware Blocking");
    assert_eq!(cloudflare.items[2].profile_index, 2);

    let google = &menu.entries[1];
    assert!(!google.submenu);
    assert_eq!(google.items.len(), 1);
    assert_eq!(google.items[0].id, "tray-dns:google:0");
    assert_eq!(google.items[0].label, "Google Public DNS");

    let home = &menu.entries[8];
    assert!(!home.submenu);
    assert_eq!(home.items[0].id, "tray-dns:custom-1:0");
    assert_eq!(home.items[0].label, "Home");

    let menu = tray_menu(&providers, "id");
    assert_eq!(menu.open_label, "Buka");
    assert_eq!(menu.change_dns_label, "Ganti DNS");
    assert_eq!(menu.close_label, "Tutup");
    assert_eq!(menu.entries[0].items[0].label, "Standar (Cepat & Privasi)");

    let entry = tray_entry(&providers[5], "en");
    assert_eq!(entry.items.len(), 5);
    assert_eq!(entry.items[4].label, "Unfiltered / Standard");
}

#[test]
fn checked_entry_follows_the_active_title() {
    let providers = default_providers();
    assert!(tray_item_checked(
        &providers,
        "cloudflare",
        1,
        "cloudflare",
        "Cloudflare - Malware Blocking",
        "en"
    ));
    assert!(!tray_item_checked(
        &providers,
        "cloudflare",
        0,
        "cloudflare",
        "Cloudflare - Malware Blocking",
        "en"
    ));
    assert!(!tray_item_checked(&providers, "cloudflare", 7, "cloudflare", "Cloudflare", "en"));
    assert!(tray_item_checked(&providers, "google", 0, "google", "Google Public DNS", "en"));
    assert!(!tray_item_checked(&providers, "google", 0, "quad9", "Quad9", "en"));
    assert!(!tray_item_checked(&providers, "system", 0, "system", "System", "en"));
    assert!(!tray_item_checked(&providers, "unknown", 0, "unknown", "x", "en"));
    assert!(tray_item_checked(
        &providers,
        "cloudflare",
        2,
        "cloudflare",
        "Cloudflare - Keluarga (Malware + Konten Dewasa)",
        "id"
    ));
}

#[test]
fn submenu_title_marks_the_provider_in_use() {
    assert_eq!(tray_submenu_title("quad9", "Quad9", "quad9"), "\u{2713} Quad9");
    assert_eq!(tray_submenu_title("quad9", "Quad9", "google"), "Quad9");
    assert_eq!(tray_submenu_title("system", "System", "system"), "System");
    assert!(ends_with_exec("Cloudflare - Malware Blocking", "Malware Blocking"));
    assert!(ends_with_exec("abc", ""));
    assert!(!ends_with_exec("ab", "abc"));
    assert!(!ends_with_exec("abc", "ab"));
}

#[test]
fn tray_applies_ipv4_with_the_profile_template() {
    let mut providers = default_providers();
    providers.push(custom("custom-1", "Home", ""));
    let adapters = ethernet();

    let plan = plan_tray_apply(&providers, "quad9", 1, &adapters, 0, "en")
        .unwrap()
        .unwrap();
    assert_eq!(plan.adapter, "Ethernet");
    assert_eq!(plan.addresses, vec!["9.9.9.11".to_string(), "149.112.112.11".to_string()]);
    assert_eq!(plan.doh_template.as_deref(), Some("https://dns11.quad9.net/dns-query"));
    assert_eq!(plan.provider_id, "quad9");
    assert!(plan.title.starts_with("Quad9 - "));

    let plan = plan_tray_apply(&providers, "nextdns", 0, &adapters, 0, "en")
        .unwrap()
        .unwrap();
    assert_eq!(plan.addresses, vec!["45.90.28.0".to_string(), "45.90.30.0".to_string()]);
    assert_eq!(plan.doh_template, None);
    assert_eq!(plan.title, "NextDNS");

    assert!(plan_tray_apply(&providers, "quad9", 3, &adapters, 0, "en").unwrap().is_none());
    assert!(plan_tray_apply(&providers, "custom-1", 0, &adapters, 0, "en").unwrap().is_none());
    assert_eq!(
        plan_tray_apply(&providers, "quad9", 0, &[], 0, "en").unwrap_err(),
        "Select an active network adapter first."
    );
    assert_eq!(
        plan_tray_apply(&providers, "missing", 0, &adapters, 0, "en").unwrap_err(),
        "Select an active network adapter first."
    );
}

#[test]
fn entry_applied_from_the_tray_is_shown_checked() {
    let providers = default_providers();
    let adapters = ethernet();
    for (id, index) in [("cloudflare", 2usize), ("adguard", 1), ("google", 0), ("opendns", 1)] {
        for language in ["en", "id"] {
            let plan = plan_tray_apply(&providers, id, index, &adapters, 0, language)
                .unwrap()
                .unwrap();
            assert!(tray_item_checked(&providers, id, index, &plan.provider_id, &plan.title, language));
        }
    }
}

#[test]
fn menu_events_lead_back_to_their_profile() {
    let mut providers = default_providers();
    providers.push(custom("custom-1", "Home", "192.168.1.2"));
    let menu = tray_menu(&providers, "en");
    for entry in &menu.entries {
        for item in &entry.items {
            assert_eq!(
                tray_action(&menu, &item.id),
                Some((item.provider_id.clone(), item.profile_index))
            );
        }
    }
    assert_eq!(tray_action(&menu, "tray-dns:quad9:2"), Some(("quad9".to_string(), 2)));
    assert_eq!(tray_action(&menu, "tray-dns:custom-1:0"), Some(("custom-1".to_string(), 0)));
    assert_eq!(tray_action(&menu, "tray-dns:quad9:3"), None);
    assert_eq!(tray_action(&menu, OPEN_ID), None);
    assert_eq!(tray_action(&menu, CLOSE_ID), None);
}
