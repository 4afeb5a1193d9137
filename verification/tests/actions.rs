use usedns::actions::{
    addresses_for_mode, applied_dns_text, record_applied, sampling_tick, adapter_position, configured_dns, connection_state, counter_delta,
    delete_custom_provider, edit_form, empty_form, encrypted_preselected, find_custom_index,
    find_provider_index, initial_providers, plan_profile_apply, plan_provider_apply, plan_reset,
    profile_rows, refresh_selection, resolver_test_address, save_custom_provider, MODE_BOTH,
    MODE_IPV4, MODE_IPV6,
};
use usedns::catalog::resolve_active_provider;
use usedns::models::{default_providers, DnsProvider};
use usedns::system::AdapterInfo;

fn custom(id: &str, name: &str, v4: &str, v6: &str, purpose: &str) -> DnsProvider {
    DnsProvider {
        id: id.into(),
        name: name.into(),
        ipv4_primary: v4.into(),
        ipv4_secondary: String::new(),
        ipv6_primary: v6.into(),
        ipv6_secondary: String::new(),
        summary_en: "Mine".into(),
        summary_id: "Milikku".into(),
        purpose: purpose.into(),
        pros_en: String::new(),
        pros_id: String::new(),
        cons_en: String::new(),
        cons_id: String::new(),
        custom: true,
        profiles: Vec::new(),
    }
}

fn adapter(name: &str, dns: &str, automatic: bool, encrypted: bool) -> AdapterInfo {
    AdapterInfo {
        name: name.into(),
        label: format!("{name} (Connected)"),
        dns: dns.into(),
        interface_index: 7,
        dns_automatic: automatic,
        dns_encrypted: encrypted,
    }
}

fn strings(v: &[&str]) -> Vec<String> {
    v.iter().map(|s| s.to_string()).collect()
}

#[test]
fn connection_quality_classes() {
    assert_eq!(connection_state(Some(0)), "Stable");
    assert_eq!(connection_state(Some(99)), "Stable");
    assert_eq!(connection_state(Some(100)), "Fair");
    assert_eq!(connection_state(Some(249)), "Fair");
    assert_eq!(connection_state(Some(250)), "Slow");
    assert_eq!(connection_state(Some(5000)), "Slow");
    assert_eq!(connection_state(None), "Unstable");
}

#[test]
fn addresses_follow_the_ip_mode() {
    let a = "1.1.1.1".to_string();
    let b = String::new();
    let c = "2606:4700:4700::1111".to_string();
    let d = "2606:4700:4700::1001".to_string();
    assert_eq!(addresses_for_mode(&a, &b, &c, &d, MODE_IPV4), strings(&["1.1.1.1"]));
    assert_eq!(
        addresses_for_mode(&a, &b, &c, &d, MODE_IPV6),
        strings(&["2606:4700:4700::1111", "2606:4700:4700::1001"])
    );
    assert_eq!(
        addresses_for_mode(&a, &b, &c, &d, MODE_BOTH),
        strings(&["1.1.1.1", "2606:4700:4700::1111", "2606:4700:4700::1001"])
    );
    assert!(addresses_for_mode(&a, &b, &c, &d, 9).is_empty());
    assert!(addresses_for_mode(&b, &b, &b, &b, MODE_BOTH).is_empty());
}

#[test]
fn lookups_by_identifier_and_position() {
    let mut providers = default_providers();
    providers.push(custom("custom-1", "Home", "192.168.1.2", "", "general"));
    assert_eq!(find_provider_index(&providers, "quad9"), Some(2));
    assert_eq!(find_provider_index(&providers, "custom-1"), Some(8));
    assert_eq!(find_provider_index(&providers, "nope"), None);
    assert_eq!(find_custom_index(&providers, "custom-1"), Some(8));
    assert_eq!(find_custom_index(&providers, "quad9"), None);

    let adapters = vec![adapter("Ethernet", "", true, false), adapter("Wi-Fi", "", true, false)];
    assert_eq!(adapter_position(&adapters, 1), Some(1));
    assert_eq!(adapter_position(&adapters, -3), Some(0));
    assert_eq!(adapter_position(&adapters, 2), None);
    assert_eq!(adapter_position(&[], 0), None);
}

#[test]
fn profile_plan_with_encrypted_dns() {
    let providers = default_providers();
    let adapters = vec![adapter("Ethernet", "", true, false), adapter("Wi-Fi", "", true, false)];
    let plan = plan_profile_apply(
        &providers,
        "cloudflare",
        1,
        &adapters,
        1,
        MODE_BOTH,
        true,
        "https://security.cloudflare-dns.com/dns-query",
        "en",
    )
    .unwrap();
    assert_eq!(plan.adapter, "Wi-Fi");
    assert_eq!(
        plan.addresses,
        strings(&["1.1.1.2", "1.0.0.2", "2606:4700:4700::1112", "2606:4700:4700::1002"])
    );
    assert_eq!(
        plan.doh_template.as_deref(),
        Some("https://security.cloudflare-dns.com/dns-query")
    );
    assert_eq!(plan.provider_id, "cloudflare");
    assert_eq!(plan.title, "Cloudflare - Malware Blocking");

    let plan = plan_profile_apply(&providers, "cloudflare", 2, &adapters, 0, MODE_IPV4, false, "", "id")
        .unwrap();
    assert_eq!(plan.adapter, "Ethernet");
    assert_eq!(plan.addresses, strings(&["1.1.1.3", "1.0.0.3"]));
    assert_eq!(plan.doh_template, None);
    assert_eq!(plan.title, "Cloudflare - Keluarga (Malware + Konten Dewasa)");

    // An out-of-range profile index falls back to the first profile; a
    // provider with a single profile is titled by its name alone.
    let plan = plan_profile_apply(&providers, "google", 9, &adapters, 0, MODE_IPV4, false, "", "en")
        .unwrap();
    assert_eq!(plan.addresses, strings(&["8.8.8.8", "8.8.4.4"]));
    assert_eq!(plan.title, "Google Public DNS");
}

#[test]
fn profile_plan_errors() {
    let mut providers = default_providers();
    providers.push(custom("custom-1", "Home", "192.168.1.2", "", "general"));
    let adapters = vec![adapter("Ethernet", "", true, false)];
    assert_eq!(
        plan_profile_apply(&providers, "cloudflare", 0, &[], 0, MODE_IPV4, false, "", "en")
            .unwrap_err(),
        "Select an active network adapter first."
    );
    assert_eq!(
        plan_profile_apply(&providers, "missing", 0, &adapters, 0, MODE_IPV4, false, "", "en")
            .unwrap_err(),
        "Select an active network adapter first."
    );
    assert_eq!(
        plan_profile_apply(&providers, "custom-1", 0, &adapters, 0, MODE_IPV6, false, "", "en")
            .unwrap_err(),
        "This profile has no address for the selected IP mode."
    );
    assert_eq!(
        plan_profile_apply(&providers, "cloudflare", 0, &adapters, 0, MODE_IPV4, true, "  ", "en")
            .unwrap_err(),
        "This profile does not provide an encrypted DNS template."
    );
    assert_eq!(
        plan_profile_apply(&providers, "cloudflare", 0, &adapters, 0, MODE_IPV4, true, "", "id")
            .unwrap_err(),
        "Profil ini tidak memiliki template DNS terenkripsi."
    );
}

#[test]
fn provider_plan_and_reset() {
    let mut providers = default_providers();
    providers.push(custom("custom-1", "Home", "", "fd00::53", "general"));
    let adapters = vec![adapter("Ethernet", "", true, false)];
    let plan = plan_provider_apply(&providers, "custom-1", &adapters, 0, MODE_BOTH).unwrap();
    assert_eq!(plan.adapter, "Ethernet");
    assert_eq!(plan.addresses, strings(&["fd00::53"]));
    assert_eq!(plan.doh_template, None);
    assert_eq!(plan.provider_id, "custom-1");
    assert_eq!(plan.title, "Home");
    assert_eq!(
        plan_provider_apply(&providers, "custom-1", &adapters, 0, MODE_IPV4).unwrap_err(),
        "This provider has no address for the selected IP mode."
    );
    assert_eq!(
        plan_provider_apply(&providers, "custom-1", &adapters, 4, MODE_IPV6).unwrap_err(),
        "Select an active network adapter first."
    );

    assert_eq!(plan_reset(&adapters, 0), Ok("Ethernet".to_string()));
    assert_eq!(plan_reset(&adapters, -1), Ok("Ethernet".to_string()));
    assert_eq!(
        plan_reset(&adapters, 1),
        Err("Select an active network adapter first.".to_string())
    );
}

#[test]
fn saving_a_new_custom_provider() {
    let mut providers = default_providers();
    let r = save_custom_provider(
        &mut providers,
        "",
        "  Home DNS ",
        " 192.168.1.2 ",
        "",
        "",
        "",
        " My router ",
        "privacy",
        1_700_000_000_123,
    );
    assert_eq!(r, Ok(()));
    assert_eq!(providers.len(), 9);
    let p = &providers[8];
    assert_eq!(p.id, "custom-1700000000123");
    assert_eq!(p.name, "Home DNS");
    assert_eq!(p.ipv4_primary, "192.168.1.2");
    assert_eq!(p.summary_en, "My router");
    assert_eq!(p.summary_id, "My router");
    assert_eq!(p.purpose, "privacy");
    assert_eq!(p.pros_en, "User-defined resolver");
    assert_eq!(p.pros_id, "Resolver ditentukan pengguna");
    assert_eq!(p.cons_en, "Trust and availability depend on its operator");
    assert_eq!(p.cons_id, "Kepercayaan dan ketersediaan bergantung pada pengelolanya");
    assert!(p.custom);
    assert!(p.profiles.is_empty());
}

#[test]
fn saving_an_edited_custom_provider_replaces_it() {
    let mut providers = default_providers();
    providers.push(custom("custom-1", "Home", "192.168.1.2", "", "general"));
    providers.push(custom("custom-2", "Office", "10.0.0.53", "", "general"));
    let r = save_custom_provider(
        &mut providers,
        "custom-1",
        "Home 2",
        "192.168.1.3",
        "192.168.1.4",
        "fd00::53",
        "",
        "",
        "security",
        0,
    );
    assert_eq!(r, Ok(()));
    assert_eq!(providers.len(), 10);
    assert_eq!(providers[8].id, "custom-1");
    assert_eq!(providers[8].name, "Home 2");
    assert_eq!(providers[8].ipv4_secondary, "192.168.1.4");
    assert_eq!(providers[8].ipv6_primary, "fd00::53");
    assert_eq!(providers[9].name, "Office");
}

#[test]
fn saving_an_invalid_form_changes_nothing() {
    let mut providers = default_providers();
    providers.push(custom("custom-1", "Home", "192.168.1.2", "", "general"));
    let r = save_custom_provider(
        &mut providers, "custom-1", "Home", "fd00::1", "", "", "", "", "general", 0,
    );
    assert_eq!(r, Err("Address has the wrong IP version: fd00::1".to_string()));
    assert_eq!(providers.len(), 9);
    assert_eq!(providers[8].ipv4_primary, "192.168.1.2");

    let r = save_custom_provider(&mut providers, "", "   ", "1.1.1.1", "", "", "", "", "general", 5);
    assert_eq!(r, Err("DNS name cannot be empty".to_string()));
    assert_eq!(providers.len(), 9);
}

#[test]
fn deleting_keeps_bundled_providers() {
    let mut providers = default_providers();
    providers.push(custom("custom-1", "Home", "192.168.1.2", "", "general"));
    providers.push(custom("custom-2", "Office", "10.0.0.53", "", "general"));
    delete_custom_provider(&mut providers, "custom-1");
    let ids: Vec<&str> = providers.iter().map(|p| p.id.as_str()).collect();
    assert_eq!(
        ids,
        vec![
            "cloudflare",
            "google",
            "quad9",
            "adguard",
            "cleanbrowsing",
            "control-d",
            "nextdns",
            "opendns",
            "custom-2"
        ]
    );
    delete_custom_provider(&mut providers, "google");
    assert_eq!(providers.len(), 9);
    assert_eq!(providers[1].id, "google");
}

#[test]
fn edit_form_for_custom_providers_only() {
    let mut providers = default_providers();
    providers.push(custom("custom-1", "Home", "192.168.1.2", "fd00::53", ""));
    assert!(edit_form(&providers, "cloudflare").is_none());
    assert!(edit_form(&providers, "custom-9").is_none());
    let f = edit_form(&providers, "custom-1").unwrap();
    assert_eq!(f.id, "custom-1");
    assert_eq!(f.name, "Home");
    assert_eq!(f.ipv4_primary, "192.168.1.2");
    assert_eq!(f.ipv6_primary, "fd00::53");
    assert_eq!(f.summary, "Mine");
    assert_eq!(f.purpose, "general");

    let e = empty_form();
    assert!(e.id.is_empty() && e.name.is_empty() && e.summary.is_empty());
    assert_eq!(e.purpose, "general");
}

#[test]
fn resolver_test_picks_an_address() {
    assert_eq!(resolver_test_address(" 9.9.9.9 ", "", "en"), Ok("9.9.9.9".to_string()));
    assert_eq!(
        resolver_test_address("", " 2620:fe::fe ", "en"),
        Ok("2620:fe::fe".to_string())
    );
    assert_eq!(
        resolver_test_address("  ", "", "en"),
        Err("Enter a primary DNS address before testing.".to_string())
    );
    assert_eq!(
        resolver_test_address("", "", "id"),
        Err("Masukkan alamat DNS utama sebelum melakukan pengujian.".to_string())
    );
    assert_eq!(
        resolver_test_address("dns.example", "", "en"),
        Err("The DNS address is invalid.".to_string())
    );
    assert_eq!(
        resolver_test_address("1.2.3", "", "id"),
        Err("Alamat DNS tidak valid.".to_string())
    );
}

#[test]
fn profile_rows_in_the_interface_language() {
    let providers = default_providers();
    let rows = profile_rows(&providers[0], "id");
    assert_eq!(rows.len(), 3);
    assert_eq!(rows[0].id, "standard");
    assert_eq!(rows[0].name, "Standar (Cepat & Privasi)");
    assert_eq!(rows[0].tag, "STANDAR");
    assert_eq!(rows[0].ipv4, "1.1.1.1, 1.0.0.1");
    assert_eq!(rows[0].ipv6, "2606:4700:4700::1111, 2606:4700:4700::1001");
    assert_eq!(rows[0].doh_template, "https://cloudflare-dns.com/dns-query");

    let home = custom("custom-1", "Home", "192.168.1.2", "", "general");
    let rows = profile_rows(&home, "en");
    assert_eq!(rows.len(), 1);
    assert_eq!(rows[0].id, "default");
    assert_eq!(rows[0].name, "Default");
    assert_eq!(rows[0].description, "Mine");
    assert_eq!(rows[0].ipv4, "192.168.1.2");
    assert_eq!(rows[0].ipv6, "\u{2014}");
    assert_eq!(rows[0].doh_template, "");
}

#[test]
fn encrypted_dns_preselection() {
    let providers = default_providers();
    let plain = vec![adapter("Ethernet", "1.1.1.1", false, false)];
    let encrypted = vec![adapter("Ethernet", "1.1.1.1", false, true)];
    assert!(encrypted_preselected(&providers[0], "google", &plain, 0));
    assert!(!encrypted_preselected(&providers[0], "cloudflare", &plain, 0));
    assert!(encrypted_preselected(&providers[0], "cloudflare", &encrypted, 0));
    assert!(!encrypted_preselected(&providers[0], "cloudflare", &encrypted, 3));
    // NextDNS has no generic template.
    assert!(!encrypted_preselected(&providers[6], "system", &encrypted, 0));
}

#[test]
fn startup_and_refresh() {
    let stored = vec![custom("custom-1", "Home", "192.168.1.2", "", "general")];
    let all = initial_providers(stored);
    assert_eq!(all.len(), 9);
    assert_eq!(all[0].id, "cloudflare");
    assert_eq!(all[8].id, "custom-1");

    assert_eq!(configured_dns(&adapter("Ethernet", "192.168.1.1", true, false)), "");
    assert_eq!(configured_dns(&adapter("Ethernet", "1.1.1.1, 1.0.0.1", false, false)), "1.1.1.1, 1.0.0.1");

    let adapters = vec![adapter("Ethernet", "", true, false), adapter("Wi-Fi", "", true, false)];
    assert_eq!(refresh_selection(&adapters, 1), Some(1));
    assert_eq!(refresh_selection(&adapters, 5), Some(0));
    assert_eq!(refresh_selection(&adapters, -1), Some(0));
    assert_eq!(refresh_selection(&[], 0), None);
}

#[test]
fn traffic_deltas() {
    assert_eq!(counter_delta(Some((7, 1000, 500)), 7, 1600, 700), Some((600, 200)));
    assert_eq!(counter_delta(Some((7, 1000, 500)), 8, 1600, 700), None);
    assert_eq!(counter_delta(Some((7, 1000, 500)), 7, 900, 700), None);
    assert_eq!(counter_delta(Some((7, 1000, 500)), 7, 1000, 400), None);
    assert_eq!(counter_delta(Some((7, 1000, 500)), 7, 1000, 500), Some((0, 0)));
    assert_eq!(counter_delta(None, 7, 1000, 500), None);
}

#[test]
fn recording_a_change_updates_the_adapter() {
    let addresses = strings(&["9.9.9.11", "149.112.112.11"]);
    assert_eq!(applied_dns_text(&addresses), "9.9.9.11, 149.112.112.11");
    assert_eq!(applied_dns_text(&strings(&["1.1.1.1"])), "1.1.1.1");
    assert_eq!(applied_dns_text(&[]), "");

    let mut adapters = vec![
        adapter("Ethernet", "", true, false),
        adapter("Wi-Fi", "", true, false),
        adapter("Wi-Fi", "8.8.8.8", false, false),
    ];
    record_applied(&mut adapters, "Wi-Fi", &addresses, true);
    assert_eq!(adapters[1].dns, "9.9.9.11, 149.112.112.11");
    assert!(!adapters[1].dns_automatic);
    assert!(adapters[1].dns_encrypted);
    assert_eq!(adapters[1].label, "Wi-Fi (Connected)");
    assert_eq!(adapters[0].dns, "");
    assert_eq!(adapters[2].dns, "8.8.8.8");

    // What a refresh then reads back names the provider applied.
    let providers = default_providers();
    let (id, title) = resolve_active_provider(&providers, &configured_dns(&adapters[1]), "en");
    assert_eq!(id, "quad9");
    assert_eq!(title, "Quad9 - EDNS Client Subnet (ECS)");

    let before = adapters.clone();
    record_applied(&mut adapters, "Bluetooth", &addresses, false);
    assert_eq!(adapters.len(), before.len());
    assert_eq!(adapters[2].dns, before[2].dns);
}

#[test]
fn sampling_clock() {
    assert_eq!(sampling_tick(0, 1), (true, 0));
    assert_eq!(sampling_tick(0, 0), (true, 0));
    assert_eq!(sampling_tick(0, 2), (false, 1));
    assert_eq!(sampling_tick(1, 2), (true, 0));
    assert_eq!(sampling_tick(3, 5), (false, 4));
    assert_eq!(sampling_tick(4, 5), (true, 0));
    assert_eq!(sampling_tick(7, 5), (true, 0));
    let mut ticks = 0;
    let mut samples = Vec::new();
    for second in 1..=10 {
        let (sample, next) = sampling_tick(ticks, 5);
        ticks = next;
        if sample {
            samples.push(second);
        }
    }
    assert_eq!(samples, vec![5, 10]);
}
