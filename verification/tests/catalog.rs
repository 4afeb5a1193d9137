use usedns::catalog::{
    dns_matches, doh_template, filter_providers, format_pair, provider_is_active,
    provider_matches, provider_symbol, provider_tag, resolve_active_provider, row,
};
use usedns::models::{default_providers, DnsProvider};

fn custom(id: &str, name: &str, v4: &str, purpose: &str) -> DnsProvider {
    DnsProvider {
        id: id.into(),
        name: name.into(),
        ipv4_primary: v4.into(),
        ipv4_secondary: String::new(),
        ipv6_primary: String::new(),
        ipv6_secondary: String::new(),
        summary_en: "My own resolver".into(),
        summary_id: "Resolver saya".into(),
        purpose: purpose.into(),
        pros_en: "p".into(),
        pros_id: "p id".into(),
        cons_en: "c".into(),
        cons_id: "c id".into(),
        custom: true,
        profiles: Vec::new(),
    }
}

#[test]
fn server_list_matching() {
    assert!(dns_matches("1.1.1.1, 1.0.0.1", "1.0.0.1"));
    assert!(dns_matches("2A10:50C0::AD1:FF;x", " 2a10:50c0::ad1:ff "));
    assert!(!dns_matches("1.1.1.1", ""));
    assert!(!dns_matches("1.1.1.1", "   "));
    assert!(!dns_matches("1.1.1.10", "1.1.1.1"));
    assert!(!dns_matches("", "1.1.1.1"));
}

#[test]
fn active_provider_detection() {
    let providers = default_providers();
    assert!(provider_is_active(&providers[0], "1.1.1.2, 1.0.0.2"));
    assert!(!provider_is_active(&providers[0], "   "));
    assert!(!provider_is_active(&providers[1], "1.1.1.1"));

    let (id, title) = resolve_active_provider(&providers, "1.1.1.2, 1.0.0.2", "en");
    assert_eq!(id, "cloudflare");
    assert_eq!(title, "Cloudflare - Malware Blocking");
    let (_, title) = resolve_active_provider(&providers, "1.1.1.2", "id");
    assert_eq!(title, "Cloudflare - Blokir Malware & Ancaman");
    let (id, title) = resolve_active_provider(&providers, "8.8.4.4", "en");
    assert_eq!((id.as_str(), title.as_str()), ("google", "Google Public DNS"));
    let (id, title) = resolve_active_provider(&providers, "192.168.0.1", "en");
    assert_eq!((id.as_str(), title.as_str()), ("system", "System / DHCP"));
    let (id, title) = resolve_active_provider(&providers, "", "id");
    assert_eq!((id.as_str(), title.as_str()), ("system", "Sistem / DHCP"));

    let mut with_custom = default_providers();
    with_custom.push(custom("custom-9", "Pi-hole", "192.168.0.1", "home"));
    let (id, title) = resolve_active_provider(&with_custom, "192.168.0.1", "en");
    assert_eq!((id.as_str(), title.as_str()), ("custom-9", "Pi-hole"));
}

#[test]
fn monograms() {
    assert_eq!(provider_symbol("cloudflare", "Cloudflare"), "CF");
    assert_eq!(provider_symbol("control-d", "Control D"), "CD");
    assert_eq!(provider_symbol("custom-1", "home resolver box"), "HR");
    assert_eq!(provider_symbol("custom-1", "  pi-hole  "), "P");
    assert_eq!(provider_symbol("custom-1", "ßig dns"), "SSD");
    assert_eq!(provider_symbol("custom-1", "   "), "DNS");
}

#[test]
fn badges() {
    let providers = default_providers();
    assert_eq!(provider_tag(&providers[0], "en"), "PRIVACY & FAST");
    assert_eq!(provider_tag(&providers[7], "id"), "KEAMANAN ENTERPRISE");
    assert_eq!(provider_tag(&custom("c", "C", "1.1.1.1", "speed"), "en"), "SPEED");
    assert_eq!(provider_tag(&custom("c", "C", "1.1.1.1", "ad-blocking"), "id"), "BEBAS IKLAN");
    assert_eq!(provider_tag(&custom("c", "C", "1.1.1.1", "home"), "en"), "CUSTOM");
    assert_eq!(provider_tag(&custom("c", "C", "1.1.1.1", "home"), "id"), "KUSTOM");
}

#[test]
fn encrypted_templates() {
    assert_eq!(doh_template("cloudflare", "family"), "https://family.cloudflare-dns.com/dns-query");
    assert_eq!(doh_template("google", "anything"), "https://dns.google/dns-query");
    assert_eq!(doh_template("control-d", "social"), "https://freedns.controld.com/p3");
    assert_eq!(doh_template("nextdns", "standard"), "");
    assert_eq!(doh_template("custom-1", "default"), "");
}

#[test]
fn address_pairs() {
    assert_eq!(format_pair("", "1.0.0.1"), "\u{2014}");
    assert_eq!(format_pair("1.1.1.1", ""), "1.1.1.1");
    assert_eq!(format_pair("1.1.1.1", "1.0.0.1"), "1.1.1.1, 1.0.0.1");
}

#[test]
fn provider_cards() {
    let providers = default_providers();
    let r = row(&providers[2], "id", "9.9.9.9", "quad9");
    assert_eq!(r.id, "quad9");
    assert_eq!(r.symbol, "Q9");
    assert_eq!(r.ipv4, "9.9.9.9, 149.112.112.112");
    assert_eq!(r.summary, providers[2].summary_id);
    assert_eq!(r.tag, "KEAMANAN");
    assert!(r.active);
    assert_eq!(r.profile_count, 3);
    let r = row(&providers[2], "en", "9.9.9.9", "system");
    assert!(!r.active);
    assert_eq!(r.pros, providers[2].pros_en);
    let r = row(&custom("c", "Home", "10.0.0.1", ""), "en", "", "system");
    assert_eq!(r.profile_count, 1);
    assert!(r.custom);
}

#[test]
fn search_and_categories() {
    let mut providers = default_providers();
    providers.push(custom("custom-5", "Home Filter", "10.0.0.1", "privacy"));
    let names = |query: &str, category: &str| -> Vec<String> {
        filter_providers(&providers, "en", "", query, category, "system")
            .into_iter()
            .map(|r| r.id)
            .collect()
    };
    assert_eq!(names("", "all").len(), 9);
    assert_eq!(names("  ", "unknown").len(), 9);
    assert_eq!(names("GOOGLE", "all"), vec!["google"]);
    assert_eq!(names("  malicious ", "all"), vec!["quad9", "adguard"]);
    assert_eq!(names("berbahaya", "all"), vec!["quad9", "adguard"]);
    assert_eq!(names("", "privacy"), vec!["cloudflare", "quad9", "nextdns", "custom-5"]);
    assert_eq!(names("", "speed"), vec!["cloudflare", "google", "opendns"]);
    assert_eq!(
        names("", "security"),
        vec!["quad9", "adguard", "cleanbrowsing", "opendns"]
    );
    assert_eq!(names("", "ads"), vec!["adguard", "control-d", "nextdns"]);
    assert_eq!(names("home", "privacy"), vec!["custom-5"]);
    assert!(provider_matches(&providers[8], "OWN RESOLVER", "all"));
    assert!(!provider_matches(&providers[8], "own resolver", "speed"));
}

#[test]
fn bundled_profiles_have_secure_templates_except_nextdns() {
    for p in default_providers() {
        for q in &p.profiles {
            let t = doh_template(&p.id, &q.id);
            assert_eq!(!t.is_empty(), p.id != "nextdns", "{} {}", p.id, q.id);
            assert!(t.is_empty() || t.starts_with("https://"));
        }
    }
    assert_eq!(doh_template("custom-1", "default"), "");
    assert_eq!(doh_template("google", "anything"), "https://dns.google/dns-query");
}

#[test]
fn blank_query_keeps_every_provider_of_the_category() {
    let mut providers = default_providers();
    providers.push(custom("custom-1", "Home", "192.168.1.2", "privacy"));
    providers.push(custom("custom-2", "Office", "10.0.0.53", "general"));
    for (category, expected) in [
        ("privacy", vec!["cloudflare", "quad9", "nextdns", "custom-1"]),
        ("speed", vec!["cloudflare", "google", "opendns"]),
        ("security", vec!["quad9", "adguard", "cleanbrowsing", "opendns"]),
        ("ads", vec!["adguard", "control-d", "nextdns"]),
    ] {
        for query in ["", "   "] {
            let ids: Vec<String> = filter_providers(&providers, "en", "", query, category, "system")
                .into_iter()
                .map(|r| r.id)
                .collect();
            assert_eq!(ids, expected, "{category}");
        }
    }
}
