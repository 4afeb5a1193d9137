use usedns::models::{default_providers, DnsProfile, DnsProvider};

fn custom(name: &str, v4a: &str, v4b: &str, v6a: &str, v6b: &str) -> DnsProvider {
    DnsProvider {
        id: "custom-1".into(),
        name: name.into(),
        ipv4_primary: v4a.into(),
        ipv4_secondary: v4b.into(),
        ipv6_primary: v6a.into(),
        ipv6_secondary: v6b.into(),
        summary_en: "Home resolver".into(),
        summary_id: "Resolver rumah".into(),
        purpose: "home".into(),
        pros_en: String::new(),
        pros_id: String::new(),
        cons_en: String::new(),
        cons_id: String::new(),
        custom: true,
        profiles: Vec::new(),
    }
}

#[test]
fn default_providers_are_valid() {
    for provider in default_providers() {
        assert!(provider.validate().is_ok(), "{}", provider.name);
        assert!(
            !provider.get_profiles().is_empty(),
            "Profiles for {}",
            provider.name
        );
    }
}

#[test]
fn rejects_wrong_ip_version() {
    let mut provider = default_providers().remove(0);
    provider.ipv4_primary = "::1".into();
    assert!(provider.validate().is_err());
}

#[test]
fn catalogue_lists_the_bundled_providers_in_order() {
    let ids: Vec<String> = default_providers().into_iter().map(|p| p.id).collect();
    assert_eq!(
        ids,
        vec![
            "cloudflare",
            "google",
            "quad9",
            "adguard",
            "cleanbrowsing",
            "control-d",
            "nextdns",
            "opendns"
        ]
    );
    let providers = default_providers();
    assert!(providers.iter().all(|p| !p.custom));
    let counts: Vec<usize> = providers.iter().map(|p| p.profiles.len()).collect();
    assert_eq!(counts, vec![3, 1, 3, 3, 3, 5, 1, 2]);
    assert_eq!(providers[0].ipv4_primary, "1.1.1.1");
    assert_eq!(providers[2].ipv4_secondary, "149.112.112.112");
    assert_eq!(providers[3].profiles[1].ipv6_primary, "2a10:50c0::bad1:ff");
    assert_eq!(providers[5].profiles[4].name_en, "Unfiltered / Standard");
}

#[test]
fn validate_names_the_first_problem() {
    let p = custom("  ", "1.1.1.1", "", "", "");
    assert_eq!(p.validate(), Err("DNS name cannot be empty".to_string()));

    let p = custom("Home", "", "1.0.0.1", "", "");
    assert_eq!(
        p.validate(),
        Err("A secondary address requires a primary address".to_string())
    );

    let p = custom("Home", "1.1.1.300", "", "", "");
    assert_eq!(
        p.validate(),
        Err("Invalid IP address: 1.1.1.300".to_string())
    );

    let p = custom("Home", "1.1.1.1", "", "2001:db8::1", " 10.0.0.1 ");
    assert_eq!(
        p.validate(),
        Err("Address has the wrong IP version:  10.0.0.1 ".to_string())
    );

    let p = custom("Home", "", "", "", "");
    assert_eq!(
        p.validate(),
        Err("At least one primary DNS address is required".to_string())
    );

    let p = custom("Home", " 192.168.1.2 ", "", "", "");
    assert_eq!(p.validate(), Ok(()));

    let p = custom("Home", "", "", "fd00::53", "fd00::54");
    assert_eq!(p.validate(), Ok(()));
}

#[test]
fn validate_checks_profiles() {
    let mut p = custom("Home", "192.168.1.2", "", "", "");
    p.profiles.push(DnsProfile {
        id: "a".into(),
        name_en: "A".into(),
        name_id: "A".into(),
        description_en: String::new(),
        description_id: String::new(),
        tag_en: String::new(),
        tag_id: String::new(),
        ipv4_primary: "fd00::1".into(),
        ipv4_secondary: String::new(),
        ipv6_primary: String::new(),
        ipv6_secondary: String::new(),
    });
    assert_eq!(
        p.validate(),
        Err("Address has the wrong IP version: fd00::1".to_string())
    );
}

#[test]
fn provider_without_profiles_offers_a_default_one() {
    let p = custom("Home", "192.168.1.2", "192.168.1.3", "", "");
    let profiles = p.get_profiles();
    assert_eq!(profiles.len(), 1);
    let d = &profiles[0];
    assert_eq!(d.id, "default");
    assert_eq!(d.name_en, "Default");
    assert_eq!(d.name_id, "Bawaan");
    assert_eq!(d.tag_en, "DEFAULT");
    assert_eq!(d.tag_id, "BAWAAN");
    assert_eq!(d.description_en, "Home resolver");
    assert_eq!(d.description_id, "Resolver rumah");
    assert_eq!(d.ipv4_primary, "192.168.1.2");
    assert_eq!(d.ipv4_secondary, "192.168.1.3");

    let cloudflare = default_providers().remove(0);
    let ids: Vec<String> = cloudflare.get_profiles().into_iter().map(|p| p.id).collect();
    assert_eq!(ids, vec!["standard", "security", "family"]);
}

#[test]
fn duplicate_copies_every_field() {
    let p = default_providers().remove(3);
    let q = p.duplicate();
    assert_eq!(q.id, p.id);
    assert_eq!(q.profiles.len(), p.profiles.len());
    assert_eq!(q.profiles[2].ipv6_secondary, p.profiles[2].ipv6_secondary);
}
