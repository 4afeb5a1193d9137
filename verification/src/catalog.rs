//! How the provider catalogue is presented and matched against the DNS
//! servers an adapter uses: monograms, badges, active-provider detection,
//! encrypted-DNS templates, and the search and category filters.
use crate::models::{
    spec_bundled_adguard, spec_bundled_cleanbrowsing, spec_bundled_cloudflare, spec_bundled_control_d,
    spec_bundled_google, spec_bundled_nextdns, spec_bundled_opendns, spec_bundled_quad9,
    spec_default_providers, spec_get_profiles, DnsProvider, ProfileView, ProviderView,
};
use crate::text::{
    char_to_uppercase, chars_of, concat, contains, contains_chars, eq_ignore_ascii_case,
    eq_ignore_ascii_case_chars, is_whitespace, is_ws, owned, spec_char_to_uppercase,
    spec_to_lowercase, split, split_chars, str_eq, to_lowercase, trim, trim_chars,
};
use vstd::prelude::*;

verus! {

// ---------------------------------------------------------------------
// Languages
// ---------------------------------------------------------------------

/// The interface language is Indonesian; every other value means English.
pub open spec fn is_indonesian(language: Seq<char>) -> bool {
    language == "id"@
}

/// Whether `language` selects Indonesian.
pub fn indonesian(language: &str) -> (r: bool)
    ensures
        r == is_indonesian(language@),
{
    str_eq(language, "id")
}

// ---------------------------------------------------------------------
// Matching configured DNS servers
// ---------------------------------------------------------------------

/// The characters that separate addresses in a DNS server list.
pub open spec fn dns_separators() -> Seq<char> {
    seq![',', ';', ' ', '\t']
}

/// The separators, as a vector.
pub fn dns_separator_chars() -> (r: Vec<char>)
    ensures
        r@ == dns_separators(),
{
    let mut r: Vec<char> = Vec::new();
    r.push(',');
    r.push(';');
    r.push(' ');
    r.push('\t');
    assert(r@ =~= dns_separators());
    r
}

/// `address` (trimmed, non-empty) is one of the addresses of the server list
/// `current_dns`, compared without regard to ASCII case.
pub open spec fn spec_dns_matches(current_dns: Seq<char>, address: Seq<char>) -> bool {
    let a = trim(address);
    let parts = split(current_dns, dns_separators());
    &&& a.len() > 0
    &&& exists|k: int| 0 <= k < parts.len() && eq_ignore_ascii_case(#[trigger] trim(parts[k]), a)
}

/// Whether `address` is one of the addresses in the server list `current_dns`.
pub fn dns_matches(current_dns: &str, address: &str) -> (r: bool)
    ensures
        r == spec_dns_matches(current_dns@, address@),
{
    let a_chars = chars_of(address);
    let a = trim_chars(a_chars.as_slice());
    if a.len() == 0 {
        return false;
    }
    let cur = chars_of(current_dns);
    let seps = dns_separator_chars();
    let parts = split_chars(cur.as_slice(), seps.as_slice());
    let ghost spec_parts = split(current_dns@, dns_separators());
    let mut k: usize = 0;
    while k < parts.len()
        invariant
            k <= parts@.len(),
            spec_parts == split(current_dns@, dns_separators()),
            a@.len() > 0,
            parts@.len() == spec_parts.len(),
            forall|m: int| 0 <= m < parts@.len() ==> #[trigger] parts@[m]@ == spec_parts[m],
            a@ == trim(address@),
            forall|m: int|
                0 <= m < k ==> !eq_ignore_ascii_case(#[trigger] trim(spec_parts[m]), a@),
        decreases parts.len() - k,
    {
        let t = trim_chars(parts[k].as_slice());
        assert(parts@[k as int]@ == spec_parts[k as int]);
        if eq_ignore_ascii_case_chars(t.as_slice(), a.as_slice()) {
            assert(eq_ignore_ascii_case(trim(spec_parts[k as int]), a@));
            return true;
        }
        k = k + 1;
    }
    false
}

/// One of the four addresses of `profile` is in the server list `current_dns`.
pub open spec fn profile_matches(profile: ProfileView, current_dns: Seq<char>) -> bool {
    ||| spec_dns_matches(current_dns, profile.ipv4_primary)
    ||| spec_dns_matches(current_dns, profile.ipv4_secondary)
    ||| spec_dns_matches(current_dns, profile.ipv6_primary)
    ||| spec_dns_matches(current_dns, profile.ipv6_secondary)
}

/// Whether one of the four addresses of `profile` is in `current_dns`.
pub fn profile_matches_exec(profile: &crate::models::DnsProfile, current_dns: &str) -> (r: bool)
    ensures
        r == profile_matches(profile@, current_dns@),
{
    dns_matches(current_dns, profile.ipv4_primary.as_str()) || dns_matches(
        current_dns,
        profile.ipv4_secondary.as_str(),
    ) || dns_matches(current_dns, profile.ipv6_primary.as_str()) || dns_matches(
        current_dns,
        profile.ipv6_secondary.as_str(),
    )
}

/// The provider is in use: the server list is not blank and holds an address
/// of one of the provider's profiles.
pub open spec fn spec_provider_is_active(p: ProviderView, current_dns: Seq<char>) -> bool {
    &&& trim(current_dns).len() != 0
    &&& exists|k: int|
        0 <= k < spec_get_profiles(p).len() && profile_matches(
            #[trigger] spec_get_profiles(p)[k],
            current_dns,
        )
}

/// Whether `provider` is the one in use for the server list `current_dns`.
pub fn provider_is_active(provider: &DnsProvider, current_dns: &str) -> (r: bool)
    ensures
        r == spec_provider_is_active(provider@, current_dns@),
{
    if crate::text::is_blank(current_dns) {
        return false;
    }
    let profiles = provider.get_profiles();
    let ghost ps = spec_get_profiles(provider@);
    let mut k: usize = 0;
    while k < profiles.len()
        invariant
            k <= profiles@.len(),
            crate::models::profile_views(profiles@) == ps,
            ps == spec_get_profiles(provider@),
            trim(current_dns@).len() != 0,
            forall|m: int| 0 <= m < k ==> !profile_matches(#[trigger] ps[m], current_dns@),
        decreases profiles.len() - k,
    {
        assert(ps[k as int] == profiles@[k as int]@);
        if profile_matches_exec(&profiles[k], current_dns) {
            assert(profile_matches(ps[k as int], current_dns@));
            return true;
        }
        k = k + 1;
    }
    false
}

/// The index of the first provider at or after `i` that is in use.
pub open spec fn first_active_from(ps: Seq<ProviderView>, current_dns: Seq<char>, i: int) -> Option<
    int,
>
    decreases ps.len() - i,
{
    if i < 0 || i >= ps.len() {
        None
    } else if spec_provider_is_active(ps[i], current_dns) {
        Some(i)
    } else {
        first_active_from(ps, current_dns, i + 1)
    }
}

/// The index of the first profile at or after `i` that matches the server list.
pub open spec fn first_matching_profile_from(
    ps: Seq<ProfileView>,
    current_dns: Seq<char>,
    i: int,
) -> Option<int>
    decreases ps.len() - i,
{
    if i < 0 || i >= ps.len() {
        None
    } else if profile_matches(ps[i], current_dns) {
        Some(i)
    } else {
        first_matching_profile_from(ps, current_dns, i + 1)
    }
}

/// The profile name shown in the interface language.
pub open spec fn profile_name(profile: ProfileView, language: Seq<char>) -> Seq<char> {
    if is_indonesian(language) {
        profile.name_id
    } else {
        profile.name_en
    }
}

/// The title under which an active provider is shown: its name, followed by
/// the name of the matching profile when it has several.
pub open spec fn active_title(p: ProviderView, current_dns: Seq<char>, language: Seq<char>) -> Seq<
    char,
> {
    let profiles = spec_get_profiles(p);
    if profiles.len() > 1 {
        match first_matching_profile_from(profiles, current_dns, 0) {
            Some(k) => p.name + " - "@ + profile_name(profiles[k], language),
            None => p.name,
        }
    } else {
        p.name
    }
}

/// The label of the system-managed (DHCP) configuration.
pub open spec fn system_title(language: Seq<char>) -> Seq<char> {
    if is_indonesian(language) {
        "Sistem / DHCP"@
    } else {
        "System / DHCP"@
    }
}

/// The identifier and title of the provider in use, or `system` and the
/// DHCP label when no provider matches.
pub open spec fn spec_resolve_active_provider(
    ps: Seq<ProviderView>,
    current_dns: Seq<char>,
    language: Seq<char>,
) -> (Seq<char>, Seq<char>) {
    match first_active_from(ps, current_dns, 0) {
        Some(k) => (ps[k].id, active_title(ps[k], current_dns, language)),
        None => ("system"@, system_title(language)),
    }
}

/// The title of `provider`, which is active for `current_dns`.
fn provider_title(provider: &DnsProvider, current_dns: &str, language: &str) -> (r: String)
    ensures
        r@ == active_title(provider@, current_dns@, language@),
{
    let profiles = provider.get_profiles();
    if profiles.len() <= 1 {
        return provider.name.clone();
    }
    let ghost ps = spec_get_profiles(provider@);
    let mut k: usize = 0;
    while k < profiles.len()
        invariant
            k <= profiles@.len(),
            crate::models::profile_views(profiles@) == ps,
            ps == spec_get_profiles(provider@),
            ps.len() > 1,
            first_matching_profile_from(ps, current_dns@, 0) == first_matching_profile_from(
                ps,
                current_dns@,
                k as int,
            ),
        decreases profiles.len() - k,
    {
        assert(ps[k as int] == profiles@[k as int]@);
        if profile_matches_exec(&profiles[k], current_dns) {
            let name = if indonesian(language) {
                profiles[k].name_id.as_str()
            } else {
                profiles[k].name_en.as_str()
            };
            let head = concat(provider.name.as_str(), " - ");
            return concat(head.as_str(), name);
        }
        k = k + 1;
    }
    provider.name.clone()
}

/// The provider in use for the server list `current_dns`: the first one whose
/// profiles hold one of the listed addresses, with its title; otherwise
/// `system` with the DHCP label of the interface language.
pub fn resolve_active_provider(providers: &[DnsProvider], current_dns: &str, language: &str) -> (r: (
    String,
    String,
))
    ensures
        (r.0@, r.1@) == spec_resolve_active_provider(
            crate::models::provider_views(providers@),
            current_dns@,
            language@,
        ),
{
    let ghost ps = crate::models::provider_views(providers@);
    let mut k: usize = 0;
    while k < providers.len()
        invariant
            k <= providers@.len(),
            ps == crate::models::provider_views(providers@),
            first_active_from(ps, current_dns@, 0) == first_active_from(ps, current_dns@, k as int),
        decreases providers.len() - k,
    {
        assert(ps[k as int] == providers@[k as int]@);
        if provider_is_active(&providers[k], current_dns) {
            let title = provider_title(&providers[k], current_dns, language);
            return (providers[k].id.clone(), title);
        }
        k = k + 1;
    }
    let title = if indonesian(language) {
        owned("Sistem / DHCP")
    } else {
        owned("System / DHCP")
    };
    (owned("system"), title)
}

// ---------------------------------------------------------------------
// Monograms and badges
// ---------------------------------------------------------------------

/// The first characters of the whitespace-separated words of the rest `s`,
/// after `acc`; `after_space` tells whether the character before was
/// whitespace (or the start of the text).
pub open spec fn word_initials_acc(s: Seq<char>, after_space: bool, acc: Seq<char>) -> Seq<char>
    decreases s.len(),
{
    if s.len() == 0 {
        acc
    } else if is_ws(s[0]) {
        word_initials_acc(s.drop_first(), true, acc)
    } else if after_space {
        word_initials_acc(s.drop_first(), false, acc.push(s[0]))
    } else {
        word_initials_acc(s.drop_first(), false, acc)
    }
}

/// The first character of each whitespace-separated word of `s`.
pub open spec fn word_initials(s: Seq<char>) -> Seq<char> {
    word_initials_acc(s, true, Seq::empty())
}

/// The monogram of a bundled provider, by identifier.
pub open spec fn bundled_symbol(id: Seq<char>) -> Option<Seq<char>> {
    if id == "cloudflare"@ {
        Some("CF"@)
    } else if id == "google"@ {
        Some("G"@)
    } else if id == "quad9"@ {
        Some("Q9"@)
    } else if id == "adguard"@ {
        Some("A"@)
    } else if id == "cleanbrowsing"@ {
        Some("CB"@)
    } else if id == "control-d"@ {
        Some("CD"@)
    } else if id == "nextdns"@ {
        Some("ND"@)
    } else if id == "opendns"@ {
        Some("OD"@)
    } else {
        None
    }
}

/// The monogram shown for a provider: a fixed one for bundled providers,
/// otherwise the upper-cased initials of the first two words of its name, or
/// `DNS` when the name has no word.
pub open spec fn spec_provider_symbol(id: Seq<char>, name: Seq<char>) -> Seq<char> {
    match bundled_symbol(id) {
        Some(s) => s,
        None => {
            let w = word_initials(name);
            if w.len() >= 2 {
                spec_char_to_uppercase(w[0]) + spec_char_to_uppercase(w[1])
            } else if w.len() == 1 {
                spec_char_to_uppercase(w[0])
            } else {
                "DNS"@
            }
        },
    }
}

/// The first characters of the words of `s`.
pub fn word_initials_exec(s: &[char]) -> (r: Vec<char>)
    ensures
        r@ == word_initials(s@),
{
    let mut r: Vec<char> = Vec::new();
    let mut after_space = true;
    let mut i: usize = 0;
    assert(s@.subrange(0, s@.len() as int) == s@);
    while i < s.len()
        invariant
            i <= s@.len(),
            word_initials(s@) == word_initials_acc(
                s@.subrange(i as int, s@.len() as int),
                after_space,
                r@,
            ),
        decreases s.len() - i,
    {
        let ghost rest = s@.subrange(i as int, s@.len() as int);
        assert(rest[0] == s@[i as int]);
        assert(rest.drop_first() == s@.subrange(i + 1, s@.len() as int));
        let c = s[i];
        if is_whitespace(c) {
            after_space = true;
        } else if after_space {
            r.push(c);
            after_space = false;
        } else {
            after_space = false;
        }
        i = i + 1;
    }
    assert(s@.subrange(s@.len() as int, s@.len() as int) == Seq::<char>::empty());
    r
}

/// The monogram shown for a provider.
pub fn provider_symbol(id: &str, name: &str) -> (r: String)
    ensures
        r@ == spec_provider_symbol(id@, name@),
{
    if str_eq(id, "cloudflare") {
        return owned("CF");
    } else if str_eq(id, "google") {
        return owned("G");
    } else if str_eq(id, "quad9") {
        return owned("Q9");
    } else if str_eq(id, "adguard") {
        return owned("A");
    } else if str_eq(id, "cleanbrowsing") {
        return owned("CB");
    } else if str_eq(id, "control-d") {
        return owned("CD");
    } else if str_eq(id, "nextdns") {
        return owned("ND");
    } else if str_eq(id, "opendns") {
        return owned("OD");
    }
    let name_chars = chars_of(name);
    let w = word_initials_exec(name_chars.as_slice());
    if w.len() >= 2 {
        let a = char_to_uppercase(w[0]);
        let b = char_to_uppercase(w[1]);
        concat(a.as_str(), b.as_str())
    } else if w.len() == 1 {
        char_to_uppercase(w[0])
    } else {
        owned("DNS")
    }
}

/// The badge of a bundled provider, by identifier and language.
pub open spec fn bundled_tag(id: Seq<char>, indonesian: bool) -> Option<Seq<char>> {
    if id == "cloudflare"@ {
        Some(if indonesian { "PRIVASI & CEPAT"@ } else { "PRIVACY & FAST"@ })
    } else if id == "google"@ {
        Some(if indonesian { "KECEPATAN & ANDAL"@ } else { "SPEED & RELIABLE"@ })
    } else if id == "quad9"@ {
        Some(if indonesian { "KEAMANAN"@ } else { "SECURITY"@ })
    } else if id == "adguard"@ {
        Some(if indonesian { "BEBAS IKLAN"@ } else { "AD BLOCKING"@ })
    } else if id == "cleanbrowsing"@ {
        Some(if indonesian { "KELUARGA & AMAN"@ } else { "FAMILY SAFE"@ })
    } else if id == "control-d"@ {
        Some(if indonesian { "BEBAS IKLAN & MALWARE"@ } else { "ADS & MALWARE"@ })
    } else if id == "nextdns"@ {
        Some(if indonesian { "PRIVASI CLOUD"@ } else { "CLOUD PRIVACY"@ })
    } else if id == "opendns"@ {
        Some(if indonesian { "KEAMANAN ENTERPRISE"@ } else { "ENTERPRISE SECURITY"@ })
    } else {
        None
    }
}

/// The badge of a provider by its purpose.
pub open spec fn purpose_tag(purpose: Seq<char>, indonesian: bool) -> Seq<char> {
    if purpose == "privacy"@ {
        if indonesian { "PRIVASI"@ } else { "PRIVACY"@ }
    } else if purpose == "speed"@ {
        if indonesian { "KECEPATAN"@ } else { "SPEED"@ }
    } else if purpose == "security"@ {
        if indonesian { "KEAMANAN"@ } else { "SECURITY"@ }
    } else if purpose == "ad-blocking"@ {
        if indonesian { "BEBAS IKLAN"@ } else { "AD BLOCKING"@ }
    } else {
        if indonesian { "KUSTOM"@ } else { "CUSTOM"@ }
    }
}

/// The badge shown on a provider card: fixed for bundled providers, else
/// derived from the provider's purpose.
pub open spec fn spec_provider_tag(p: ProviderView, language: Seq<char>) -> Seq<char> {
    match bundled_tag(p.id, is_indonesian(language)) {
        Some(t) => t,
        None => purpose_tag(p.purpose, is_indonesian(language)),
    }
}

/// The badge shown on a provider card.
pub fn provider_tag(provider: &DnsProvider, language: &str) -> (r: String)
    ensures
        r@ == spec_provider_tag(provider@, language@),
{
    let id = provider.id.as_str();
    let ind = indonesian(language);
    let pick = |a: &str, b: &str| -> (s: String)
        ensures
            s@ == if ind {
                a@
            } else {
                b@
            },
        {
            if ind {
                owned(a)
            } else {
                owned(b)
            }
        };
    if str_eq(id, "cloudflare") {
        pick("PRIVASI & CEPAT", "PRIVACY & FAST")
    } else if str_eq(id, "google") {
        pick("KECEPATAN & ANDAL", "SPEED & RELIABLE")
    } else if str_eq(id, "quad9") {
        pick("KEAMANAN", "SECURITY")
    } else if str_eq(id, "adguard") {
        pick("BEBAS IKLAN", "AD BLOCKING")
    } else if str_eq(id, "cleanbrowsing") {
        pick("KELUARGA & AMAN", "FAMILY SAFE")
    } else if str_eq(id, "control-d") {
        pick("BEBAS IKLAN & MALWARE", "ADS & MALWARE")
    } else if str_eq(id, "nextdns") {
        pick("PRIVASI CLOUD", "CLOUD PRIVACY")
    } else if str_eq(id, "opendns") {
        pick("KEAMANAN ENTERPRISE", "ENTERPRISE SECURITY")
    } else {
        let purpose = provider.purpose.as_str();
        if str_eq(purpose, "privacy") {
            pick("PRIVASI", "PRIVACY")
        } else if str_eq(purpose, "speed") {
            pick("KECEPATAN", "SPEED")
        } else if str_eq(purpose, "security") {
            pick("KEAMANAN", "SECURITY")
        } else if str_eq(purpose, "ad-blocking") {
            pick("BEBAS IKLAN", "AD BLOCKING")
        } else {
            pick("KUSTOM", "CUSTOM")
        }
    }
}

// ---------------------------------------------------------------------
// Encrypted DNS templates and address pairs
// ---------------------------------------------------------------------

/// The DNS-over-HTTPS template of a bundled profile, or the empty text when
/// there is none (NextDNS needs an account-specific address; custom
/// providers have none).
pub open spec fn spec_doh_template(provider_id: Seq<char>, profile_id: Seq<char>) -> Seq<char> {
    if provider_id == "cloudflare"@ && profile_id == "standard"@ {
        "https://cloudflare-dns.com/dns-query"@
    } else if provider_id == "cloudflare"@ && profile_id == "security"@ {
        "https://security.cloudflare-dns.com/dns-query"@
    } else if provider_id == "cloudflare"@ && profile_id == "family"@ {
        "https://family.cloudflare-dns.com/dns-query"@
    } else if provider_id == "google"@ {
        "https://dns.google/dns-query"@
    } else if provider_id == "quad9"@ && profile_id == "standard"@ {
        "https://dns.quad9.net/dns-query"@
    } else if provider_id == "quad9"@ && profile_id == "ecs"@ {
        "https://dns11.quad9.net/dns-query"@
    } else if provider_id == "quad9"@ && profile_id == "unsecured"@ {
        "https://dns10.quad9.net/dns-query"@
    } else if provider_id == "adguard"@ && profile_id == "default"@ {
        "https://dns.adguard-dns.com/dns-query"@
    } else if provider_id == "adguard"@ && profile_id == "family"@ {
        "https://family.adguard-dns.com/dns-query"@
    } else if provider_id == "adguard"@ && profile_id == "non-filtering"@ {
        "https://unfiltered.adguard-dns.com/dns-query"@
    } else if provider_id == "cleanbrowsing"@ && profile_id == "family"@ {
        "https://doh.cleanbrowsing.org/doh/family-filter/"@
    } else if provider_id == "cleanbrowsing"@ && profile_id == "adult"@ {
        "https://doh.cleanbrowsing.org/doh/adult-filter/"@
    } else if provider_id == "cleanbrowsing"@ && profile_id == "security"@ {
        "https://doh.cleanbrowsing.org/doh/security-filter/"@
    } else if provider_id == "control-d"@ && profile_id == "unfiltered"@ {
        "https://freedns.controld.com/p0"@
    } else if provider_id == "control-d"@ && profile_id == "malware"@ {
        "https://freedns.controld.com/p1"@
    } else if provider_id == "control-d"@ && profile_id == "ads-malware"@ {
        "https://freedns.controld.com/p2"@
    } else if provider_id == "control-d"@ && (profile_id == "family"@ || profile_id == "social"@) {
        "https://freedns.controld.com/p3"@
    } else if provider_id == "opendns"@ && profile_id == "standard"@ {
        "https://doh.opendns.com/dns-query"@
    } else if provider_id == "opendns"@ && profile_id == "familyshield"@ {
        "https://doh.familyshield.opendns.com/dns-query"@
    } else {
        ""@
    }
}

/// The DNS-over-HTTPS template of a profile, or the empty text.
pub fn doh_template(provider_id: &str, profile_id: &str) -> (r: String)
    ensures
        r@ == spec_doh_template(provider_id@, profile_id@),
{
    let p = |a: &str| -> (b: bool)
        ensures
            b == (provider_id@ == a@),
        { str_eq(provider_id, a) };
    let q = |a: &str| -> (b: bool)
        ensures
            b == (profile_id@ == a@),
        { str_eq(profile_id, a) };
    if p("cloudflare") && q("standard") {
        owned("https://cloudflare-dns.com/dns-query")
    } else if p("cloudflare") && q("security") {
        owned("https://security.cloudflare-dns.com/dns-query")
    } else if p("cloudflare") && q("family") {
        owned("https://family.cloudflare-dns.com/dns-query")
    } else if p("google") {
        owned("https://dns.google/dns-query")
    } else if p("quad9") && q("standard") {
        owned("https://dns.quad9.net/dns-query")
    } else if p("quad9") && q("ecs") {
        owned("https://dns11.quad9.net/dns-query")
    } else if p("quad9") && q("unsecured") {
        owned("https://dns10.quad9.net/dns-query")
    } else if p("adguard") && q("default") {
        owned("https://dns.adguard-dns.com/dns-query")
    } else if p("adguard") && q("family") {
        owned("https://family.adguard-dns.com/dns-query")
    } else if p("adguard") && q("non-filtering") {
        owned("https://unfiltered.adguard-dns.com/dns-query")
    } else if p("cleanbrowsing") && q("family") {
        owned("https://doh.cleanbrowsing.org/doh/family-filter/")
    } else if p("cleanbrowsing") && q("adult") {
        owned("https://doh.cleanbrowsing.org/doh/adult-filter/")
    } else if p("cleanbrowsing") && q("security") {
        owned("https://doh.cleanbrowsing.org/doh/security-filter/")
    } else if p("control-d") && q("unfiltered") {
        owned("https://freedns.controld.com/p0")
    } else if p("control-d") && q("malware") {
        owned("https://freedns.controld.com/p1")
    } else if p("control-d") && q("ads-malware") {
        owned("https://freedns.controld.com/p2")
    } else if p("control-d") && (q("family") || q("social")) {
        owned("https://freedns.controld.com/p3")
    } else if p("opendns") && q("standard") {
        owned("https://doh.opendns.com/dns-query")
    } else if p("opendns") && q("familyshield") {
        owned("https://doh.familyshield.opendns.com/dns-query")
    } else {
        proof {
            reveal_strlit("");
        }
        String::new()
    }
}

/// A pair of addresses as shown on a card: a dash when there is no primary
/// address, the primary alone, or both separated by a comma.
pub open spec fn spec_format_pair(primary: Seq<char>, secondary: Seq<char>) -> Seq<char> {
    if primary.len() == 0 {
        "\u{2014}"@
    } else if secondary.len() == 0 {
        primary
    } else {
        primary + ", "@ + secondary
    }
}

/// A pair of addresses as shown on a card.
pub fn format_pair(primary: &str, secondary: &str) -> (r: String)
    ensures
        r@ == spec_format_pair(primary@, secondary@),
{
    if primary.is_empty() {
        owned("\u{2014}")
    } else if secondary.is_empty() {
        owned(primary)
    } else {
        let head = concat(primary, ", ");
        concat(head.as_str(), secondary)
    }
}

// ---------------------------------------------------------------------
// Provider cards and filters
// ---------------------------------------------------------------------

/// The abstract value of a [`ProviderRow`].
pub struct RowView {
    pub id: Seq<char>,
    pub name: Seq<char>,
    pub symbol: Seq<char>,
    pub ipv4: Seq<char>,
    pub ipv6: Seq<char>,
    pub summary: Seq<char>,
    pub pros: Seq<char>,
    pub cons: Seq<char>,
    pub custom: bool,
    pub active: bool,
    pub tag: Seq<char>,
    pub profile_count: i32,
}

/// What one provider card shows, in the interface language.
#[derive(Clone, Debug)]
pub struct ProviderRow {
    pub id: String,
    pub name: String,
    pub symbol: String,
    pub ipv4: String,
    pub ipv6: String,
    pub summary: String,
    pub pros: String,
    pub cons: String,
    pub custom: bool,
    pub active: bool,
    pub tag: String,
    pub profile_count: i32,
}

impl View for ProviderRow {
    type V = RowView;

    open spec fn view(&self) -> RowView {
        RowView {
            id: self.id@,
            name: self.name@,
            symbol: self.symbol@,
            ipv4: self.ipv4@,
            ipv6: self.ipv6@,
            summary: self.summary@,
            pros: self.pros@,
            cons: self.cons@,
            custom: self.custom,
            active: self.active,
            tag: self.tag@,
            profile_count: self.profile_count,
        }
    }
}

/// The card of a provider: texts in the interface language, its monogram and
/// badge, its addresses, and whether it is the active provider (the one
/// named by `active_provider_id`, other than `system`, and in use for
/// `current_dns`).
pub open spec fn spec_row(
    p: ProviderView,
    language: Seq<char>,
    current_dns: Seq<char>,
    active_provider_id: Seq<char>,
) -> RowView {
    let ind = is_indonesian(language);
    RowView {
        id: p.id,
        name: p.name,
        symbol: spec_provider_symbol(p.id, p.name),
        ipv4: spec_format_pair(p.ipv4_primary, p.ipv4_secondary),
        ipv6: spec_format_pair(p.ipv6_primary, p.ipv6_secondary),
        summary: if ind { p.summary_id } else { p.summary_en },
        pros: if ind { p.pros_id } else { p.pros_en },
        cons: if ind { p.cons_id } else { p.cons_en },
        custom: p.custom,
        active: active_provider_id != "system"@ && p.id == active_provider_id
            && spec_provider_is_active(p, current_dns),
        tag: spec_provider_tag(p, language),
        profile_count: spec_get_profiles(p).len() as i32,
    }
}

/// The card of a provider.
pub fn row(provider: &DnsProvider, language: &str, current_dns: &str, active_provider_id: &str) -> (r:
    ProviderRow)
    ensures
        r@ == spec_row(provider@, language@, current_dns@, active_provider_id@),
{
    let is_active = !str_eq(active_provider_id, "system") && str_eq(
        provider.id.as_str(),
        active_provider_id,
    ) && provider_is_active(provider, current_dns);
    let profiles = provider.get_profiles();
    proof {
        assert(profiles@.len() == spec_get_profiles(provider@).len());
    }
    #[verifier::truncate]
    let profile_count = profiles.len() as i32;
    let ind = indonesian(language);
    ProviderRow {
        id: provider.id.clone(),
        name: provider.name.clone(),
        symbol: provider_symbol(provider.id.as_str(), provider.name.as_str()),
        ipv4: format_pair(provider.ipv4_primary.as_str(), provider.ipv4_secondary.as_str()),
        ipv6: format_pair(provider.ipv6_primary.as_str(), provider.ipv6_secondary.as_str()),
        summary: if ind {
            provider.summary_id.clone()
        } else {
            provider.summary_en.clone()
        },
        pros: if ind {
            provider.pros_id.clone()
        } else {
            provider.pros_en.clone()
        },
        cons: if ind {
            provider.cons_id.clone()
        } else {
            provider.cons_en.clone()
        },
        custom: provider.custom,
        active: is_active,
        tag: provider_tag(provider, language),
        profile_count,
    }
}

/// The search matches the provider: the lower-cased trimmed query is empty or
/// occurs in the lower-cased name or in one of the lower-cased summaries.
pub open spec fn query_matches(p: ProviderView, query: Seq<char>) -> bool {
    let q = spec_to_lowercase(trim(query));
    ||| q.len() == 0
    ||| contains(spec_to_lowercase(p.name), q)
    ||| contains(spec_to_lowercase(p.summary_en), q)
    ||| contains(spec_to_lowercase(p.summary_id), q)
}

/// The category filter admits the provider: `all` (or an unknown category)
/// admits every provider; the others admit the bundled providers listed for
/// them and every provider of the matching purpose.
pub open spec fn category_matches(p: ProviderView, category: Seq<char>) -> bool {
    if category == "privacy"@ {
        p.id == "cloudflare"@ || p.id == "quad9"@ || p.id == "nextdns"@ || p.purpose == "privacy"@
    } else if category == "speed"@ {
        p.id == "cloudflare"@ || p.id == "google"@ || p.id == "opendns"@ || p.purpose == "speed"@
    } else if category == "security"@ {
        p.id == "quad9"@ || p.id == "adguard"@ || p.id == "cleanbrowsing"@ || p.id == "opendns"@
            || p.purpose == "security"@
    } else if category == "ads"@ {
        p.id == "adguard"@ || p.id == "control-d"@ || p.id == "nextdns"@ || p.purpose
            == "ad-blocking"@
    } else {
        true
    }
}

/// The provider passes both the search and the category filter.
pub open spec fn spec_provider_matches(p: ProviderView, query: Seq<char>, category: Seq<char>) -> bool {
    query_matches(p, query) && category_matches(p, category)
}

/// Whether the provider passes the search `query` and the category filter.
pub fn provider_matches(provider: &DnsProvider, query: &str, category: &str) -> (r: bool)
    ensures
        r == spec_provider_matches(provider@, query@, category@),
        trim(query@).len() == 0 ==> r == category_matches(provider@, category@),
        trim(query@).len() == 0 && category@ == "all"@ ==> r,
{
    let trimmed = crate::text::trim_str(query);
    let q_string = to_lowercase(trimmed.as_str());
    let q = chars_of(q_string.as_str());
    let query_ok = if q.len() == 0 {
        true
    } else {
        let name = to_lowercase(provider.name.as_str());
        let en = to_lowercase(provider.summary_en.as_str());
        let id = to_lowercase(provider.summary_id.as_str());
        let name_chars = chars_of(name.as_str());
        let en_chars = chars_of(en.as_str());
        let id_chars = chars_of(id.as_str());
        contains_chars(name_chars.as_slice(), q.as_slice()) || contains_chars(
            en_chars.as_slice(),
            q.as_slice(),
        ) || contains_chars(id_chars.as_slice(), q.as_slice())
    };
    let pid = provider.id.as_str();
    let purpose = provider.purpose.as_str();
    let category_ok = if str_eq(category, "privacy") {
        str_eq(pid, "cloudflare") || str_eq(pid, "quad9") || str_eq(pid, "nextdns") || str_eq(
            purpose,
            "privacy",
        )
    } else if str_eq(category, "speed") {
        str_eq(pid, "cloudflare") || str_eq(pid, "google") || str_eq(pid, "opendns") || str_eq(
            purpose,
            "speed",
        )
    } else if str_eq(category, "security") {
        str_eq(pid, "quad9") || str_eq(pid, "adguard") || str_eq(pid, "cleanbrowsing") || str_eq(
            pid,
            "opendns",
        ) || str_eq(purpose, "security")
    } else if str_eq(category, "ads") {
        str_eq(pid, "adguard") || str_eq(pid, "control-d") || str_eq(pid, "nextdns") || str_eq(
            purpose,
            "ad-blocking",
        )
    } else {
        true
    };
    proof {
        if trim(query@).len() == 0 && category@ == "all"@ {
            assert(q@.len() == 0);
            assert(query_ok);
            reveal_strlit("all");
            reveal_strlit("privacy");
            reveal_strlit("speed");
            reveal_strlit("security");
            reveal_strlit("ads");
            assert("all"@.len() == 3);
            assert("privacy"@.len() == 7);
            assert("speed"@.len() == 5);
            assert("security"@.len() == 8);
            assert("ads"@[0] == 'a' && "ads"@[1] == 'd' && "all"@[1] == 'l');
            assert(category_ok);
        }
    }
    query_ok && category_ok
}

/// The abstract values of a sequence of cards.
pub open spec fn row_views(rows: Seq<ProviderRow>) -> Seq<RowView> {
    rows.map_values(|r: ProviderRow| r@)
}

/// The cards of the providers that pass the search and category filter, in
/// catalogue order.
pub open spec fn spec_filter_rows(
    ps: Seq<ProviderView>,
    language: Seq<char>,
    current_dns: Seq<char>,
    query: Seq<char>,
    category: Seq<char>,
    active_provider_id: Seq<char>,
) -> Seq<RowView> {
    ps.filter(|p: ProviderView| spec_provider_matches(p, query, category)).map_values(
        |p: ProviderView| spec_row(p, language, current_dns, active_provider_id),
    )
}

/// The cards of the providers that pass the search `query` and the
/// `category` filter.
pub fn filter_providers(
    providers: &[DnsProvider],
    language: &str,
    current_dns: &str,
    query: &str,
    category: &str,
    active_provider_id: &str,
) -> (r: Vec<ProviderRow>)
    ensures
        row_views(r@) == spec_filter_rows(
            crate::models::provider_views(providers@),
            language@,
            current_dns@,
            query@,
            category@,
            active_provider_id@,
        ),
        trim(query@).len() == 0 ==> row_views(r@) == crate::models::provider_views(
            providers@,
        ).filter(|p: ProviderView| category_matches(p, category@)).map_values(
            |p: ProviderView| spec_row(p, language@, current_dns@, active_provider_id@),
        ),
        trim(query@).len() == 0 && category@ == "all"@ ==> row_views(r@)
            == crate::models::provider_views(providers@).map_values(
            |p: ProviderView| spec_row(p, language@, current_dns@, active_provider_id@),
        ),
{
    let ghost ps = crate::models::provider_views(providers@);
    let ghost pred = |p: ProviderView| spec_provider_matches(p, query@, category@);
    let ghost cat = |p: ProviderView| category_matches(p, category@);
    let ghost f = |p: ProviderView| spec_row(p, language@, current_dns@, active_provider_id@);
    let mut rows: Vec<ProviderRow> = Vec::new();
    let mut i: usize = 0;
    while i < providers.len()
        invariant
            i <= providers@.len(),
            ps == crate::models::provider_views(providers@),
            pred == (|p: ProviderView| spec_provider_matches(p, query@, category@)),
            f == (|p: ProviderView| spec_row(p, language@, current_dns@, active_provider_id@)),
            row_views(rows@) == ps.take(i as int).filter(pred).map_values(f),
            cat == (|p: ProviderView| category_matches(p, category@)),
            trim(query@).len() == 0 ==> row_views(rows@) == ps.take(i as int).filter(
                cat,
            ).map_values(f),
            trim(query@).len() == 0 && category@ == "all"@ ==> row_views(rows@) == ps.take(
                i as int,
            ).map_values(f),
        decreases providers.len() - i,
    {
        let ghost before = rows@;
        assert(ps.take(i + 1).drop_last() == ps.take(i as int));
        assert(ps.take(i + 1).last() == providers@[i as int]@);
        reveal_with_fuel(Seq::filter, 1);
        if provider_matches(&providers[i], query, category) {
            let r = row(&providers[i], language, current_dns, active_provider_id);
            rows.push(r);
            assert(row_views(rows@) =~= row_views(before).push(f(ps[i as int])));
            assert(ps.take(i as int).filter(pred).push(ps[i as int]).map_values(f)
                =~= ps.take(i as int).filter(pred).map_values(f).push(f(ps[i as int])));
            assert(ps.take(i as int).filter(cat).push(ps[i as int]).map_values(f)
                =~= ps.take(i as int).filter(cat).map_values(f).push(f(ps[i as int])));
            assert(ps.take(i + 1).map_values(f) =~= ps.take(i as int).map_values(f).push(
                f(ps[i as int]),
            ));
        }
        i = i + 1;
    }
    assert(ps.take(providers@.len() as int) == ps);
    assert(cat =~= (|p: ProviderView| category_matches(p, category@)));
    rows
}

// ---------------------------------------------------------------------
// Encrypted-DNS template laws
// ---------------------------------------------------------------------

/// The text starts with `https://`.
pub open spec fn starts_https(s: Seq<char>) -> bool {
    s.len() >= 8 && s.subrange(0, 8) == "https://"@
}

/// A text whose first eight characters spell `https://` starts with it.
proof fn lemma_starts_https(s: Seq<char>)
    requires
        s.len() >= 8,
        s[0] == 'h' && s[1] == 't' && s[2] == 't' && s[3] == 'p',
        s[4] == 's' && s[5] == ':' && s[6] == '/' && s[7] == '/',
    ensures
        starts_https(s),
{
    reveal_strlit("https://");
    assert(s.subrange(0, 8) =~= "https://"@);
}

/// Every encrypted-DNS template is a secure web address: it is either empty
/// or starts with `https://`.
pub proof fn lemma_doh_templates_https(provider_id: Seq<char>, profile_id: Seq<char>)
    ensures
        spec_doh_template(provider_id, profile_id).len() == 0 || starts_https(
            spec_doh_template(provider_id, profile_id),
        ),
{
    reveal_strlit("");
    reveal_strlit("https://cloudflare-dns.com/dns-query");
    lemma_starts_https("https://cloudflare-dns.com/dns-query"@);
    reveal_strlit("https://dns.adguard-dns.com/dns-query");
    lemma_starts_https("https://dns.adguard-dns.com/dns-query"@);
    reveal_strlit("https://dns.google/dns-query");
    lemma_starts_https("https://dns.google/dns-query"@);
    reveal_strlit("https://dns.quad9.net/dns-query");
    lemma_starts_https("https://dns.quad9.net/dns-query"@);
    reveal_strlit("https://dns10.quad9.net/dns-query");
    lemma_starts_https("https://dns10.quad9.net/dns-query"@);
    reveal_strlit("https://dns11.quad9.net/dns-query");
    lemma_starts_https("https://dns11.quad9.net/dns-query"@);
    reveal_strlit("https://doh.cleanbrowsing.org/doh/adult-filter/");
    lemma_starts_https("https://doh.cleanbrowsing.org/doh/adult-filter/"@);
    reveal_strlit("https://doh.cleanbrowsing.org/doh/family-filter/");
    lemma_starts_https("https://doh.cleanbrowsing.org/doh/family-filter/"@);
    reveal_strlit("https://doh.cleanbrowsing.org/doh/security-filter/");
    lemma_starts_https("https://doh.cleanbrowsing.org/doh/security-filter/"@);
    reveal_strlit("https://doh.familyshield.opendns.com/dns-query");
    lemma_starts_https("https://doh.familyshield.opendns.com/dns-query"@);
    reveal_strlit("https://doh.opendns.com/dns-query");
    lemma_starts_https("https://doh.opendns.com/dns-query"@);
    reveal_strlit("https://family.adguard-dns.com/dns-query");
    lemma_starts_https("https://family.adguard-dns.com/dns-query"@);
    reveal_strlit("https://family.cloudflare-dns.com/dns-query");
    lemma_starts_https("https://family.cloudflare-dns.com/dns-query"@);
    reveal_strlit("https://freedns.controld.com/p0");
    lemma_starts_https("https://freedns.controld.com/p0"@);
    reveal_strlit("https://freedns.controld.com/p1");
    lemma_starts_https("https://freedns.controld.com/p1"@);
    reveal_strlit("https://freedns.controld.com/p2");
    lemma_starts_https("https://freedns.controld.com/p2"@);
    reveal_strlit("https://freedns.controld.com/p3");
    lemma_starts_https("https://freedns.controld.com/p3"@);
    reveal_strlit("https://security.cloudflare-dns.com/dns-query");
    lemma_starts_https("https://security.cloudflare-dns.com/dns-query"@);
    reveal_strlit("https://unfiltered.adguard-dns.com/dns-query");
    lemma_starts_https("https://unfiltered.adguard-dns.com/dns-query"@);
}

/// The identifiers the template table tells apart are different texts.
proof fn lemma_template_ids_differ()
    ensures
        "adguard"@ != "ads-malware"@,
        "adguard"@ != "adult"@,
        "adguard"@ != "cleanbrowsing"@,
        "adguard"@ != "cloudflare"@,
        "adguard"@ != "control-d"@,
        "adguard"@ != "default"@,
        "adguard"@ != "ecs"@,
        "adguard"@ != "family"@,
        "adguard"@ != "familyshield"@,
        "adguard"@ != "google"@,
        "adguard"@ != "malware"@,
        "adguard"@ != "nextdns"@,
        "adguard"@ != "non-filtering"@,
        "adguard"@ != "opendns"@,
        "adguard"@ != "quad9"@,
        "adguard"@ != "security"@,
        "adguard"@ != "social"@,
        "adguard"@ != "standard"@,
        "adguard"@ != "unfiltered"@,
        "adguard"@ != "unsecured"@,
        "ads-malware"@ != "adult"@,
        "ads-malware"@ != "cleanbrowsing"@,
        "ads-malware"@ != "cloudflare"@,
        "ads-malware"@ != "control-d"@,
        "ads-malware"@ != "default"@,
        "ads-malware"@ != "ecs"@,
        "ads-malware"@ != "family"@,
        "ads-malware"@ != "familyshield"@,
        "ads-malware"@ != "google"@,
        "ads-malware"@ != "malware"@,
        "ads-malware"@ != "nextdns"@,
        "ads-malware"@ != "non-filtering"@,
        "ads-malware"@ != "opendns"@,
        "ads-malware"@ != "quad9"@,
        "ads-malware"@ != "security"@,
        "ads-malware"@ != "social"@,
        "ads-malware"@ != "standard"@,
        "ads-malware"@ != "unfiltered"@,
        "ads-malware"@ != "unsecured"@,
        "adult"@ != "cleanbrowsing"@,
        "adult"@ != "cloudflare"@,
        "adult"@ != "control-d"@,
        "adult"@ != "default"@,
        "adult"@ != "ecs"@,
        "adult"@ != "family"@,
        "adult"@ != "familyshield"@,
        "adult"@ != "google"@,
        "adult"@ != "malware"@,
        "adult"@ != "nextdns"@,
        "adult"@ != "non-filtering"@,
        "adult"@ != "opendns"@,
        "adult"@ != "quad9"@,
        "adult"@ != "security"@,
        "adult"@ != "social"@,
        "adult"@ != "standard"@,
        "adult"@ != "unfiltered"@,
        "adult"@ != "unsecured"@,
        "cleanbrowsing"@ != "cloudflare"@,
        "cleanbrowsing"@ != "control-d"@,
        "cleanbrowsing"@ != "default"@,
        "cleanbrowsing"@ != "ecs"@,
        "cleanbrowsing"@ != "family"@,
        "cleanbrowsing"@ != "familyshield"@,
        "cleanbrowsing"@ != "google"@,
        "cleanbrowsing"@ != "malware"@,
        "cleanbrowsing"@ != "nextdns"@,
        "cleanbrowsing"@ != "non-filtering"@,
        "cleanbrowsing"@ != "opendns"@,
        "cleanbrowsing"@ != "quad9"@,
        "cleanbrowsing"@ != "security"@,
        "cleanbrowsing"@ != "social"@,
        "cleanbrowsing"@ != "standard"@,
        "cleanbrowsing"@ != "unfiltered"@,
        "cleanbrowsing"@ != "unsecured"@,
        "cloudflare"@ != "control-d"@,
        "cloudflare"@ != "default"@,
        "cloudflare"@ != "ecs"@,
        "cloudflare"@ != "family"@,
        "cloudflare"@ != "familyshield"@,
        "cloudflare"@ != "google"@,
        "cloudflare"@ != "malware"@,
        "cloudflare"@ != "nextdns"@,
        "cloudflare"@ != "non-filtering"@,
        "cloudflare"@ != "opendns"@,
        "cloudflare"@ != "quad9"@,
        "cloudflare"@ != "security"@,
        "cloudflare"@ != "social"@,
        "cloudflare"@ != "standard"@,
        "cloudflare"@ != "unfiltered"@,
        "cloudflare"@ != "unsecured"@,
        "control-d"@ != "default"@,
        "control-d"@ != "ecs"@,
        "control-d"@ != "family"@,
        "control-d"@ != "familyshield"@,
        "control-d"@ != "google"@,
        "control-d"@ != "malware"@,
        "control-d"@ != "nextdns"@,
        "control-d"@ != "non-filtering"@,
        "control-d"@ != "opendns"@,
        "control-d"@ != "quad9"@,
        "control-d"@ != "security"@,
        "control-d"@ != "social"@,
        "control-d"@ != "standard"@,
        "control-d"@ != "unfiltered"@,
        "control-d"@ != "unsecured"@,
        "default"@ != "ecs"@,
        "default"@ != "family"@,
        "default"@ != "familyshield"@,
        "default"@ != "google"@,
        "default"@ != "malware"@,
        "default"@ != "nextdns"@,
        "default"@ != "non-filtering"@,
        "default"@ != "opendns"@,
        "default"@ != "quad9"@,
        "default"@ != "security"@,
        "default"@ != "social"@,
        "default"@ != "standard"@,
        "default"@ != "unfiltered"@,
        "default"@ != "unsecured"@,
        "ecs"@ != "family"@,
        "ecs"@ != "familyshield"@,
        "ecs"@ != "google"@,
        "ecs"@ != "malware"@,
        "ecs"@ != "nextdns"@,
        "ecs"@ != "non-filtering"@,
        "ecs"@ != "opendns"@,
        "ecs"@ != "quad9"@,
        "ecs"@ != "security"@,
        "ecs"@ != "social"@,
        "ecs"@ != "standard"@,
        "ecs"@ != "unfiltered"@,
        "ecs"@ != "unsecured"@,
        "family"@ != "familyshield"@,
        "family"@ != "google"@,
        "family"@ != "malware"@,
        "family"@ != "nextdns"@,
        "family"@ != "non-filtering"@,
        "family"@ != "opendns"@,
        "family"@ != "quad9"@,
        "family"@ != "security"@,
        "family"@ != "social"@,
        "family"@ != "standard"@,
        "family"@ != "unfiltered"@,
        "family"@ != "unsecured"@,
        "familyshield"@ != "google"@,
        "familyshield"@ != "malware"@,
        "familyshield"@ != "nextdns"@,
        "familyshield"@ != "non-filtering"@,
        "familyshield"@ != "opendns"@,
        "familyshield"@ != "quad9"@,
        "familyshield"@ != "security"@,
        "familyshield"@ != "social"@,
        "familyshield"@ != "standard"@,
        "familyshield"@ != "unfiltered"@,
        "familyshield"@ != "unsecured"@,
        "google"@ != "malware"@,
        "google"@ != "nextdns"@,
        "google"@ != "non-filtering"@,
        "google"@ != "opendns"@,
        "google"@ != "quad9"@,
        "google"@ != "security"@,
        "google"@ != "social"@,
        "google"@ != "standard"@,
        "google"@ != "unfiltered"@,
        "google"@ != "unsecured"@,
        "malware"@ != "nextdns"@,
        "malware"@ != "non-filtering"@,
        "malware"@ != "opendns"@,
        "malware"@ != "quad9"@,
        "malware"@ != "security"@,
        "malware"@ != "social"@,
        "malware"@ != "standard"@,
        "malware"@ != "unfiltered"@,
        "malware"@ != "unsecured"@,
        "nextdns"@ != "non-filtering"@,
        "nextdns"@ != "opendns"@,
        "nextdns"@ != "quad9"@,
        "nextdns"@ != "security"@,
        "nextdns"@ != "social"@,
        "nextdns"@ != "standard"@,
        "nextdns"@ != "unfiltered"@,
        "nextdns"@ != "unsecured"@,
        "non-filtering"@ != "opendns"@,
        "non-filtering"@ != "quad9"@,
        "non-filtering"@ != "security"@,
        "non-filtering"@ != "social"@,
        "non-filtering"@ != "standard"@,
        "non-filtering"@ != "unfiltered"@,
        "non-filtering"@ != "unsecured"@,
        "opendns"@ != "quad9"@,
        "opendns"@ != "security"@,
        "opendns"@ != "social"@,
        "opendns"@ != "standard"@,
        "opendns"@ != "unfiltered"@,
        "opendns"@ != "unsecured"@,
        "quad9"@ != "security"@,
        "quad9"@ != "social"@,
        "quad9"@ != "standard"@,
        "quad9"@ != "unfiltered"@,
        "quad9"@ != "unsecured"@,
        "security"@ != "social"@,
        "security"@ != "standard"@,
        "security"@ != "unfiltered"@,
        "security"@ != "unsecured"@,
        "social"@ != "standard"@,
        "social"@ != "unfiltered"@,
        "social"@ != "unsecured"@,
        "standard"@ != "unfiltered"@,
        "standard"@ != "unsecured"@,
        "unfiltered"@ != "unsecured"@,
{
    reveal_strlit("adguard");
    reveal_strlit("ads-malware");
    reveal_strlit("adult");
    reveal_strlit("cleanbrowsing");
    reveal_strlit("cloudflare");
    reveal_strlit("control-d");
    reveal_strlit("default");
    reveal_strlit("ecs");
    reveal_strlit("family");
    reveal_strlit("familyshield");
    reveal_strlit("google");
    reveal_strlit("malware");
    reveal_strlit("nextdns");
    reveal_strlit("non-filtering");
    reveal_strlit("opendns");
    reveal_strlit("quad9");
    reveal_strlit("security");
    reveal_strlit("social");
    reveal_strlit("standard");
    reveal_strlit("unfiltered");
    reveal_strlit("unsecured");
    assert("adguard"@.len() != "ads-malware"@.len());
    assert("adguard"@.len() != "adult"@.len());
    assert("adguard"@.len() != "cleanbrowsing"@.len());
    assert("adguard"@.len() != "cloudflare"@.len());
    assert("adguard"@.len() != "control-d"@.len());
    assert("adguard"@[0] != "default"@[0]);
    assert("adguard"@.len() != "ecs"@.len());
    assert("adguard"@.len() != "family"@.len());
    assert("adguard"@.len() != "familyshield"@.len());
    assert("adguard"@.len() != "google"@.len());
    assert("adguard"@[0] != "malware"@[0]);
    assert("adguard"@[0] != "nextdns"@[0]);
    assert("adguard"@.len() != "non-filtering"@.len());
    assert("adguard"@[0] != "opendns"@[0]);
    assert("adguard"@.len() != "quad9"@.len());
    assert("adguard"@.len() != "security"@.len());
    assert("adguard"@.len() != "social"@.len());
    assert("adguard"@.len() != "standard"@.len());
    assert("adguard"@.len() != "unfiltered"@.len());
    assert("adguard"@.len() != "unsecured"@.len());
    assert("ads-malware"@.len() != "adult"@.len());
    assert("ads-malware"@.len() != "cleanbrowsing"@.len());
    assert("ads-malware"@.len() != "cloudflare"@.len());
    assert("ads-malware"@.len() != "control-d"@.len());
    assert("ads-malware"@.len() != "default"@.len());
    assert("ads-malware"@.len() != "ecs"@.len());
    assert("ads-malware"@.len() != "family"@.len());
    assert("ads-malware"@.len() != "familyshield"@.len());
    assert("ads-malware"@.len() != "google"@.len());
    assert("ads-malware"@.len() != "malware"@.len());
    assert("ads-malware"@.len() != "nextdns"@.len());
    assert("ads-malware"@.len() != "non-filtering"@.len());
    assert("ads-malware"@.len() != "opendns"@.len());
    assert("ads-malware"@.len() != "quad9"@.len());
    assert("ads-malware"@.len() != "security"@.len());
    assert("ads-malware"@.len() != "social"@.len());
    assert("ads-malware"@.len() != "standard"@.len());
    assert("ads-malware"@.len() != "unfiltered"@.len());
    assert("ads-malware"@.len() != "unsecured"@.len());
    assert("adult"@.len() != "cleanbrowsing"@.len());
    assert("adult"@.len() != "cloudflare"@.len());
    assert("adult"@.len() != "control-d"@.len());
    assert("adult"@.len() != "default"@.len());
    assert("adult"@.len() != "ecs"@.len());
    assert("adult"@.len() != "family"@.len());
    assert("adult"@.len() != "familyshield"@.len());
    assert("adult"@.len() != "google"@.len());
    assert("adult"@.len() != "malware"@.len());
    assert("adult"@.len() != "nextdns"@.len());
    assert("adult"@.len() != "non-filtering"@.len());
    assert("adult"@.len() != "opendns"@.len());
    assert("adult"@[0] != "quad9"@[0]);
    assert("adult"@.len() != "security"@.len());
    assert("adult"@.len() != "social"@.len());
    assert("adult"@.len() != "standard"@.len());
    assert("adult"@.len() != "unfiltered"@.len());
    assert("adult"@.len() != "unsecured"@.len());
    assert("cleanbrowsing"@.len() != "cloudflare"@.len());
    assert("cleanbrowsing"@.len() != "control-d"@.len());
    assert("cleanbrowsing"@.len() != "default"@.len());
    assert("cleanbrowsing"@.len() != "ecs"@.len());
    assert("cleanbrowsing"@.len() != "family"@.len());
    assert("cleanbrowsing"@.len() != "familyshield"@.len());
    assert("cleanbrowsing"@.len() != "google"@.len());
    assert("cleanbrowsing"@.len() != "malware"@.len());
    assert("cleanbrowsing"@.len() != "nextdns"@.len());
    assert("cleanbrowsing"@[0] != "non-filtering"@[0]);
    assert("cleanbrowsing"@.len() != "opendns"@.len());
    assert("cleanbrowsing"@.len() != "quad9"@.len());
    assert("cleanbrowsing"@.len() != "security"@.len());
    assert("cleanbrowsing"@.len() != "social"@.len());
    assert("cleanbrowsing"@.len() != "standard"@.len());
    assert("cleanbrowsing"@.len() != "unfiltered"@.len());
    assert("cleanbrowsing"@.len() != "unsecured"@.len());
    assert("cloudflare"@.len() != "control-d"@.len());
    assert("cloudflare"@.len() != "default"@.len());
    assert("cloudflare"@.len() != "ecs"@.len());
    assert("cloudflare"@.len() != "family"@.len());
    assert("cloudflare"@.len() != "familyshield"@.len());
    assert("cloudflare"@.len() != "google"@.len());
    assert("cloudflare"@.len() != "malware"@.len());
    assert("cloudflare"@.len() != "nextdns"@.len());
    assert("cloudflare"@.len() != "non-filtering"@.len());
    assert("cloudflare"@.len() != "opendns"@.len());
    assert("cloudflare"@.len() != "quad9"@.len());
    assert("cloudflare"@.len() != "security"@.len());
    assert("cloudflare"@.len() != "social"@.len());
    assert("cloudflare"@.len() != "standard"@.len());
    assert("cloudflare"@[0] != "unfiltered"@[0]);
    assert("cloudflare"@.len() != "unsecured"@.len());
    assert("control-d"@.len() != "default"@.len());
    assert("control-d"@.len() != "ecs"@.len());
    assert("control-d"@.len() != "family"@.len());
    assert("control-d"@.len() != "familyshield"@.len());
    assert("control-d"@.len() != "google"@.len());
    assert("control-d"@.len() != "malware"@.len());
    assert("control-d"@.len() != "nextdns"@.len());
    assert("control-d"@.len() != "non-filtering"@.len());
    assert("control-d"@.len() != "opendns"@.len());
    assert("control-d"@.len() != "quad9"@.len());
    assert("control-d"@.len() != "security"@.len());
    assert("control-d"@.len() != "social"@.len());
    assert("control-d"@.len() != "standard"@.len());
    assert("control-d"@.len() != "unfiltered"@.len());
    assert("control-d"@[0] != "unsecured"@[0]);
    assert("default"@.len() != "ecs"@.len());
    assert("default"@.len() != "family"@.len());
    assert("default"@.len() != "familyshield"@.len());
    assert("default"@.len() != "google"@.len());
    assert("default"@[0] != "malware"@[0]);
    assert("default"@[0] != "nextdns"@[0]);
    assert("default"@.len() != "non-filtering"@.len());
    assert("default"@[0] != "opendns"@[0]);
    assert("default"@.len() != "quad9"@.len());
    assert("default"@.len() != "security"@.len());
    assert("default"@.len() != "social"@.len());
    assert("default"@.len() != "standard"@.len());
    assert("default"@.len() != "unfiltered"@.len());
    assert("default"@.len() != "unsecured"@.len());
    assert("ecs"@.len() != "family"@.len());
    assert("ecs"@.len() != "familyshield"@.len());
    assert("ecs"@.len() != "google"@.len());
    assert("ecs"@.len() != "malware"@.len());
    assert("ecs"@.len() != "nextdns"@.len());
    assert("ecs"@.len() != "non-filtering"@.len());
    assert("ecs"@.len() != "opendns"@.len());
    assert("ecs"@.len() != "quad9"@.len());
    assert("ecs"@.len() != "security"@.len());
    assert("ecs"@.len() != "social"@.len());
    assert("ecs"@.len() != "standard"@.len());
    assert("ecs"@.len() != "unfiltered"@.len());
    assert("ecs"@.len() != "unsecured"@.len());
    assert("family"@.len() != "familyshield"@.len());
    assert("family"@[0] != "google"@[0]);
    assert("family"@.len() != "malware"@.len());
    assert("family"@.len() != "nextdns"@.len());
    assert("family"@.len() != "non-filtering"@.len());
    assert("family"@.len() != "opendns"@.len());
    assert("family"@.len() != "quad9"@.len());
    assert("family"@.len() != "security"@.len());
    assert("family"@[0] != "social"@[0]);
    assert("family"@.len() != "standard"@.len());
    assert("family"@.len() != "unfiltered"@.len());
    assert("family"@.len() != "unsecured"@.len());
    assert("familyshield"@.len() != "google"@.len());
    assert("familyshield"@.len() != "malware"@.len());
    assert("familyshield"@.len() != "nextdns"@.len());
    assert("familyshield"@.len() != "non-filtering"@.len());
    assert("familyshield"@.len() != "opendns"@.len());
    assert("familyshield"@.len() != "quad9"@.len());
    assert("familyshield"@.len() != "security"@.len());
    assert("familyshield"@.len() != "social"@.len());
    assert("familyshield"@.len() != "standard"@.len());
    assert("familyshield"@.len() != "unfiltered"@.len());
    assert("familyshield"@.len() != "unsecured"@.len());
    assert("google"@.len() != "malware"@.len());
    assert("google"@.len() != "nextdns"@.len());
    assert("google"@.len() != "non-filtering"@.len());
    assert("google"@.len() != "opendns"@.len());
    assert("google"@.len() != "quad9"@.len());
    assert("google"@.len() != "security"@.len());
    assert("google"@[0] != "social"@[0]);
    assert("google"@.len() != "standard"@.len());
    assert("google"@.len() != "unfiltered"@.len());
    assert("google"@.len() != "unsecured"@.len());
    assert("malware"@[0] != "nextdns"@[0]);
    assert("malware"@.len() != "non-filtering"@.len());
    assert("malware"@[0] != "opendns"@[0]);
    assert("malware"@.len() != "quad9"@.len());
    assert("malware"@.len() != "security"@.len());
    assert("malware"@.len() != "social"@.len());
    assert("malware"@.len() != "standard"@.len());
    assert("malware"@.len() != "unfiltered"@.len());
    assert("malware"@.len() != "unsecured"@.len());
    assert("nextdns"@.len() != "non-filtering"@.len());
    assert("nextdns"@[0] != "opendns"@[0]);
    assert("nextdns"@.len() != "quad9"@.len());
    assert("nextdns"@.len() != "security"@.len());
    assert("nextdns"@.len() != "social"@.len());
    assert("nextdns"@.len() != "standard"@.len());
    assert("nextdns"@.len() != "unfiltered"@.len());
    assert("nextdns"@.len() != "unsecured"@.len());
    assert("non-filtering"@.len() != "opendns"@.len());
    assert("non-filtering"@.len() != "quad9"@.len());
    assert("non-filtering"@.len() != "security"@.len());
    assert("non-filtering"@.len() != "social"@.len());
    assert("non-filtering"@.len() != "standard"@.len());
    assert("non-filtering"@.len() != "unfiltered"@.len());
    assert("non-filtering"@.len() != "unsecured"@.len());
    assert("opendns"@.len() != "quad9"@.len());
    assert("opendns"@.len() != "security"@.len());
    assert("opendns"@.len() != "social"@.len());
    assert("opendns"@.len() != "standard"@.len());
    assert("opendns"@.len() != "unfiltered"@.len());
    assert("opendns"@.len() != "unsecured"@.len());
    assert("quad9"@.len() != "security"@.len());
    assert("quad9"@.len() != "social"@.len());
    assert("quad9"@.len() != "standard"@.len());
    assert("quad9"@.len() != "unfiltered"@.len());
    assert("quad9"@.len() != "unsecured"@.len());
    assert("security"@.len() != "social"@.len());
    assert("security"@[1] != "standard"@[1]);
    assert("security"@.len() != "unfiltered"@.len());
    assert("security"@.len() != "unsecured"@.len());
    assert("social"@.len() != "standard"@.len());
    assert("social"@.len() != "unfiltered"@.len());
    assert("social"@.len() != "unsecured"@.len());
    assert("standard"@.len() != "unfiltered"@.len());
    assert("standard"@.len() != "unsecured"@.len());
    assert("unfiltered"@.len() != "unsecured"@.len());
}

/// Every profile of the bundled `cloudflare` entry has a template, with the fingerprint
/// of the resolver documented for it.
proof fn lemma_doh_bundled_cloudflare()
    ensures
        forall|j: int|
            0 <= j < spec_bundled_cloudflare().profiles.len() ==> spec_doh_template(
                spec_bundled_cloudflare().id,
                #[trigger] spec_bundled_cloudflare().profiles[j].id,
            ).len() > 0,
        forall|j: int|
            0 <= j < spec_bundled_cloudflare().profiles.len() ==> template_key(
                spec_doh_template(spec_bundled_cloudflare().id, #[trigger] spec_bundled_cloudflare().profiles[j].id),
            ) == bundled_template_key(0, j),
{
    lemma_template_ids_differ();
    let p = spec_bundled_cloudflare();
    assert(p.profiles[0].id == "standard"@);
    assert(spec_doh_template(p.id, p.profiles[0].id) == "https://cloudflare-dns.com/dns-query"@);
    assert("https://cloudflare-dns.com/dns-query"@.len() > 0 && template_key("https://cloudflare-dns.com/dns-query"@) == bundled_template_key(0, 0)) by {
        reveal_strlit("https://cloudflare-dns.com/dns-query");
    }
    assert(p.profiles[1].id == "security"@);
    assert(spec_doh_template(p.id, p.profiles[1].id) == "https://security.cloudflare-dns.com/dns-query"@);
    assert("https://security.cloudflare-dns.com/dns-query"@.len() > 0 && template_key("https://security.cloudflare-dns.com/dns-query"@) == bundled_template_key(0, 1)) by {
        reveal_strlit("https://security.cloudflare-dns.com/dns-query");
    }
    assert(p.profiles[2].id == "family"@);
    assert(spec_doh_template(p.id, p.profiles[2].id) == "https://family.cloudflare-dns.com/dns-query"@);
    assert("https://family.cloudflare-dns.com/dns-query"@.len() > 0 && template_key("https://family.cloudflare-dns.com/dns-query"@) == bundled_template_key(0, 2)) by {
        reveal_strlit("https://family.cloudflare-dns.com/dns-query");
    }
}

/// Every profile of the bundled `google` entry has a template, with the fingerprint
/// of the resolver documented for it.
proof fn lemma_doh_bundled_google()
    ensures
        forall|j: int|
            0 <= j < spec_bundled_google().profiles.len() ==> spec_doh_template(
                spec_bundled_google().id,
                #[trigger] spec_bundled_google().profiles[j].id,
            ).len() > 0,
        forall|j: int|
            0 <= j < spec_bundled_google().profiles.len() ==> template_key(
                spec_doh_template(spec_bundled_google().id, #[trigger] spec_bundled_google().profiles[j].id),
            ) == bundled_template_key(1, j),
{
    lemma_template_ids_differ();
    let p = spec_bundled_google();
    assert(p.profiles[0].id == "standard"@);
    assert(spec_doh_template(p.id, p.profiles[0].id) == "https://dns.google/dns-query"@);
    assert("https://dns.google/dns-query"@.len() > 0 && template_key("https://dns.google/dns-query"@) == bundled_template_key(1, 0)) by {
        reveal_strlit("https://dns.google/dns-query");
    }
}

/// Every profile of the bundled `quad9` entry has a template.
proof fn lemma_doh_bundled_quad9()
    ensures
        forall|j: int|
            0 <= j < spec_bundled_quad9().profiles.len() ==> spec_doh_template(
                spec_bundled_quad9().id,
                #[trigger] spec_bundled_quad9().profiles[j].id,
            ).len() > 0,
        forall|j: int|
            0 <= j < spec_bundled_quad9().profiles.len() ==> template_key(
                spec_doh_template(spec_bundled_quad9().id, #[trigger] spec_bundled_quad9().profiles[j].id),
            ) == bundled_template_key(2, j),
{
    lemma_template_ids_differ();
    let p = spec_bundled_quad9();
    assert(p.profiles[0].id == "standard"@);
    assert(spec_doh_template(p.id, p.profiles[0].id) == "https://dns.quad9.net/dns-query"@);
    assert("https://dns.quad9.net/dns-query"@.len() > 0 && template_key("https://dns.quad9.net/dns-query"@) == bundled_template_key(2, 0)) by {
        reveal_strlit("https://dns.quad9.net/dns-query");
    }
    assert(p.profiles[1].id == "ecs"@);
    assert(spec_doh_template(p.id, p.profiles[1].id) == "https://dns11.quad9.net/dns-query"@);
    assert("https://dns11.quad9.net/dns-query"@.len() > 0 && template_key("https://dns11.quad9.net/dns-query"@) == bundled_template_key(2, 1)) by {
        reveal_strlit("https://dns11.quad9.net/dns-query");
    }
    assert(p.profiles[2].id == "unsecured"@);
    assert(spec_doh_template(p.id, p.profiles[2].id) == "https://dns10.quad9.net/dns-query"@);
    assert("https://dns10.quad9.net/dns-query"@.len() > 0 && template_key("https://dns10.quad9.net/dns-query"@) == bundled_template_key(2, 2)) by {
        reveal_strlit("https://dns10.quad9.net/dns-query");
    }
}

/// Every profile of the bundled `adguard` entry has a template, with the fingerprint
/// of the resolver documented for it.
proof fn lemma_doh_bundled_adguard()
    ensures
        forall|j: int|
            0 <= j < spec_bundled_adguard().profiles.len() ==> spec_doh_template(
                spec_bundled_adguard().id,
                #[trigger] spec_bundled_adguard().profiles[j].id,
            ).len() > 0,
        forall|j: int|
            0 <= j < spec_bundled_adguard().profiles.len() ==> template_key(
                spec_doh_template(spec_bundled_adguard().id, #[trigger] spec_bundled_adguard().profiles[j].id),
            ) == bundled_template_key(3, j),
{
    lemma_template_ids_differ();
    let p = spec_bundled_adguard();
    assert(p.profiles[0].id == "default"@);
    assert(spec_doh_template(p.id, p.profiles[0].id) == "https://dns.adguard-dns.com/dns-query"@);
    assert("https://dns.adguard-dns.com/dns-query"@.len() > 0 && template_key("https://dns.adguard-dns.com/dns-query"@) == bundled_template_key(3, 0)) by {
        reveal_strlit("https://dns.adguard-dns.com/dns-query");
    }
    assert(p.profiles[1].id == "family"@);
    assert(spec_doh_template(p.id, p.profiles[1].id) == "https://family.adguard-dns.com/dns-query"@);
    assert("https://family.adguard-dns.com/dns-query"@.len() > 0 && template_key("https://family.adguard-dns.com/dns-query"@) == bundled_template_key(3, 1)) by {
        reveal_strlit("https://family.adguard-dns.com/dns-query");
    }
    assert(p.profiles[2].id == "non-filtering"@);
    assert(spec_doh_template(p.id, p.profiles[2].id) == "https://unfiltered.adguard-dns.com/dns-query"@);
    assert("https://unfiltered.adguard-dns.com/dns-query"@.len() > 0 && template_key("https://unfiltered.adguard-dns.com/dns-query"@) == bundled_template_key(3, 2)) by {
        reveal_strlit("https://unfiltered.adguard-dns.com/dns-query");
    }
}

/// Every profile of the bundled `cleanbrowsing` entry has a template, with the fingerprint
/// of the resolver documented for it.
proof fn lemma_doh_bundled_cleanbrowsing()
    ensures
        forall|j: int|
            0 <= j < spec_bundled_cleanbrowsing().profiles.len() ==> spec_doh_template(
                spec_bundled_cleanbrowsing().id,
                #[trigger] spec_bundled_cleanbrowsing().profiles[j].id,
            ).len() > 0,
        forall|j: int|
            0 <= j < spec_bundled_cleanbrowsing().profiles.len() ==> template_key(
                spec_doh_template(spec_bundled_cleanbrowsing().id, #[trigger] spec_bundled_cleanbrowsing().profiles[j].id),
            ) == bundled_template_key(4, j),
{
    lemma_template_ids_differ();
    let p = spec_bundled_cleanbrowsing();
    assert(p.profiles[0].id == "family"@);
    assert(spec_doh_template(p.id, p.profiles[0].id) == "https://doh.cleanbrowsing.org/doh/family-filter/"@);
    assert("https://doh.cleanbrowsing.org/doh/family-filter/"@.len() > 0 && template_key("https://doh.cleanbrowsing.org/doh/family-filter/"@) == bundled_template_key(4, 0)) by {
        reveal_strlit("https://doh.cleanbrowsing.org/doh/family-filter/");
    }
    assert(p.profiles[1].id == "adult"@);
    assert(spec_doh_template(p.id, p.profiles[1].id) == "https://doh.cleanbrowsing.org/doh/adult-filter/"@);
    assert("https://doh.cleanbrowsing.org/doh/adult-filter/"@.len() > 0 && template_key("https://doh.cleanbrowsing.org/doh/adult-filter/"@) == bundled_template_key(4, 1)) by {
        reveal_strlit("https://doh.cleanbrowsing.org/doh/adult-filter/");
    }
    assert(p.profiles[2].id == "security"@);
    assert(spec_doh_template(p.id, p.profiles[2].id) == "https://doh.cleanbrowsing.org/doh/security-filter/"@);
    assert("https://doh.cleanbrowsing.org/doh/security-filter/"@.len() > 0 && template_key("https://doh.cleanbrowsing.org/doh/security-filter/"@) == bundled_template_key(4, 2)) by {
        reveal_strlit("https://doh.cleanbrowsing.org/doh/security-filter/");
    }
}

/// Every profile of the bundled `control-d` entry has a template, with the fingerprint
/// of the resolver documented for it.
proof fn lemma_doh_bundled_control_d()
    ensures
        forall|j: int|
            0 <= j < spec_bundled_control_d().profiles.len() ==> spec_doh_template(
                spec_bundled_control_d().id,
                #[trigger] spec_bundled_control_d().profiles[j].id,
            ).len() > 0,
        forall|j: int|
            0 <= j < spec_bundled_control_d().profiles.len() ==> template_key(
                spec_doh_template(spec_bundled_control_d().id, #[trigger] spec_bundled_control_d().profiles[j].id),
            ) == bundled_template_key(5, j),
{
    lemma_template_ids_differ();
    let p = spec_bundled_control_d();
    assert(p.profiles[0].id == "ads-malware"@);
    assert(spec_doh_template(p.id, p.profiles[0].id) == "https://freedns.controld.com/p2"@);
    assert("https://freedns.controld.com/p2"@.len() > 0 && template_key("https://freedns.controld.com/p2"@) == bundled_template_key(5, 0)) by {
        reveal_strlit("https://freedns.controld.com/p2");
    }
    assert(p.profiles[1].id == "malware"@);
    assert(spec_doh_template(p.id, p.profiles[1].id) == "https://freedns.controld.com/p1"@);
    assert("https://freedns.controld.com/p1"@.len() > 0 && template_key("https://freedns.controld.com/p1"@) == bundled_template_key(5, 1)) by {
        reveal_strlit("https://freedns.controld.com/p1");
    }
    assert(p.profiles[2].id == "family"@);
    assert(spec_doh_template(p.id, p.profiles[2].id) == "https://freedns.controld.com/p3"@);
    assert("https://freedns.controld.com/p3"@.len() > 0 && template_key("https://freedns.controld.com/p3"@) == bundled_template_key(5, 2)) by {
        reveal_strlit("https://freedns.controld.com/p3");
    }
    assert(p.profiles[3].id == "social"@);
    assert(spec_doh_template(p.id, p.profiles[3].id) == "https://freedns.controld.com/p3"@);
    assert("https://freedns.controld.com/p3"@.len() > 0 && template_key("https://freedns.controld.com/p3"@) == bundled_template_key(5, 3)) by {
        reveal_strlit("https://freedns.controld.com/p3");
    }
    assert(p.profiles[4].id == "unfiltered"@);
    assert(spec_doh_template(p.id, p.profiles[4].id) == "https://freedns.controld.com/p0"@);
    assert("https://freedns.controld.com/p0"@.len() > 0 && template_key("https://freedns.controld.com/p0"@) == bundled_template_key(5, 4)) by {
        reveal_strlit("https://freedns.controld.com/p0");
    }
}

/// Every profile of the bundled `nextdns` entry has no template (it needs an account-specific address).
proof fn lemma_doh_bundled_nextdns()
    ensures
        forall|j: int|
            0 <= j < spec_bundled_nextdns().profiles.len() ==> spec_doh_template(
                spec_bundled_nextdns().id,
                #[trigger] spec_bundled_nextdns().profiles[j].id,
            ).len() == 0,
{
    lemma_template_ids_differ();
    assert("nextdns"@ != "adguard"@);
    assert("nextdns"@ != "opendns"@);
    let p = spec_bundled_nextdns();
    assert(spec_doh_template(p.id, p.profiles[0].id) == ""@);
    assert(""@.len() == 0) by {
        reveal_strlit("");
    }
}

/// Every profile of the bundled `opendns` entry has a template, with the fingerprint
/// of the resolver documented for it.
proof fn lemma_doh_bundled_opendns()
    ensures
        forall|j: int|
            0 <= j < spec_bundled_opendns().profiles.len() ==> spec_doh_template(
                spec_bundled_opendns().id,
                #[trigger] spec_bundled_opendns().profiles[j].id,
            ).len() > 0,
        forall|j: int|
            0 <= j < spec_bundled_opendns().profiles.len() ==> template_key(
                spec_doh_template(spec_bundled_opendns().id, #[trigger] spec_bundled_opendns().profiles[j].id),
            ) == bundled_template_key(7, j),
{
    lemma_template_ids_differ();
    let p = spec_bundled_opendns();
    assert(p.profiles[0].id == "standard"@);
    assert(spec_doh_template(p.id, p.profiles[0].id) == "https://doh.opendns.com/dns-query"@);
    assert("https://doh.opendns.com/dns-query"@.len() > 0 && template_key("https://doh.opendns.com/dns-query"@) == bundled_template_key(7, 0)) by {
        reveal_strlit("https://doh.opendns.com/dns-query");
    }
    assert(p.profiles[1].id == "familyshield"@);
    assert(spec_doh_template(p.id, p.profiles[1].id) == "https://doh.familyshield.opendns.com/dns-query"@);
    assert("https://doh.familyshield.opendns.com/dns-query"@.len() > 0 && template_key("https://doh.familyshield.opendns.com/dns-query"@) == bundled_template_key(7, 1)) by {
        reveal_strlit("https://doh.familyshield.opendns.com/dns-query");
    }
}

/// A fingerprint of an encrypted-DNS template, telling the bundled
/// templates apart: its length and its ninth, thirteenth and last characters.
spec fn template_key(t: Seq<char>) -> (int, char, char, char) {
    (t.len() as int, t[8], t[12], t[t.len() - 1])
}

/// The fingerprint of the template of profile `j` of bundled provider `k`.
spec fn bundled_template_key(k: int, j: int) -> (int, char, char, char) {
    if k == 0 && j == 0 {
        (36, 'c', 'd', 'y')
    }     else if k == 0 && j == 1 {
        (45, 's', 'r', 'y')
    }     else if k == 0 && j == 2 {
        (43, 'f', 'l', 'y')
    }     else if k == 1 && j == 0 {
        (28, 'd', 'g', 'y')
    }     else if k == 2 && j == 0 {
        (31, 'd', 'q', 'y')
    }     else if k == 2 && j == 1 {
        (33, 'd', '1', 'y')
    }     else if k == 2 && j == 2 {
        (33, 'd', '0', 'y')
    }     else if k == 3 && j == 0 {
        (37, 'd', 'a', 'y')
    }     else if k == 3 && j == 1 {
        (40, 'f', 'l', 'y')
    }     else if k == 3 && j == 2 {
        (44, 'u', 'l', 'y')
    }     else if k == 4 && j == 0 {
        (48, 'd', 'c', '/')
    }     else if k == 4 && j == 1 {
        (47, 'd', 'c', '/')
    }     else if k == 4 && j == 2 {
        (50, 'd', 'c', '/')
    }     else if k == 5 && j == 0 {
        (31, 'f', 'd', '2')
    }     else if k == 5 && j == 1 {
        (31, 'f', 'd', '1')
    }     else if k == 5 && j == 2 {
        (31, 'f', 'd', '3')
    }     else if k == 5 && j == 3 {
        (31, 'f', 'd', '3')
    }     else if k == 5 && j == 4 {
        (31, 'f', 'd', '0')
    }     else if k == 7 && j == 0 {
        (33, 'd', 'o', 'y')
    }     else if k == 7 && j == 1 {
        (46, 'd', 'f', 'y')
    } else {
        (0, 'a', 'a', 'a')
    }
}

/// Distinct bundled profiles use distinct encrypted-DNS resolvers: two
/// profiles of the bundled catalogue share a non-empty template only when
/// they are the same profile, or Control D's family and social profiles,
/// which share one resolver.
pub proof fn lemma_bundled_templates_distinct(k1: int, j1: int, k2: int, j2: int)
    requires
        0 <= k1 < spec_default_providers().len(),
        0 <= j1 < spec_default_providers()[k1].profiles.len(),
        0 <= k2 < spec_default_providers().len(),
        0 <= j2 < spec_default_providers()[k2].profiles.len(),
        spec_doh_template(
            spec_default_providers()[k1].id,
            spec_default_providers()[k1].profiles[j1].id,
        ).len() > 0,
        spec_doh_template(
            spec_default_providers()[k1].id,
            spec_default_providers()[k1].profiles[j1].id,
        ) == spec_doh_template(
            spec_default_providers()[k2].id,
            spec_default_providers()[k2].profiles[j2].id,
        ),
    ensures
        (k1 == k2 && j1 == j2) || ({
            let d = spec_default_providers();
            &&& d[k1].id == "control-d"@
            &&& d[k2].id == "control-d"@
            &&& (d[k1].profiles[j1].id == "family"@ || d[k1].profiles[j1].id == "social"@)
            &&& (d[k2].profiles[j2].id == "family"@ || d[k2].profiles[j2].id == "social"@)
        }),
{
    lemma_bundled_template_key(k1, j1);
    lemma_bundled_template_key(k2, j2);
    let d = spec_default_providers();
    assert(d[5] == spec_bundled_control_d());
}

/// The fingerprint of each bundled profile's template.
proof fn lemma_bundled_template_key(k: int, j: int)
    requires
        0 <= k < spec_default_providers().len(),
        0 <= j < spec_default_providers()[k].profiles.len(),
        spec_doh_template(
            spec_default_providers()[k].id,
            spec_default_providers()[k].profiles[j].id,
        ).len() > 0,
    ensures
        template_key(
            spec_doh_template(
                spec_default_providers()[k].id,
                spec_default_providers()[k].profiles[j].id,
            ),
        ) == bundled_template_key(k, j),
{
    let d = spec_default_providers();
    if k == 0 {
        lemma_doh_bundled_cloudflare();
        assert(d[k] == spec_bundled_cloudflare());
        assert(d[k].profiles[j] == spec_bundled_cloudflare().profiles[j]);
    }     else if k == 1 {
        lemma_doh_bundled_google();
        assert(d[k] == spec_bundled_google());
        assert(d[k].profiles[j] == spec_bundled_google().profiles[j]);
    }     else if k == 2 {
        lemma_doh_bundled_quad9();
        assert(d[k] == spec_bundled_quad9());
        assert(d[k].profiles[j] == spec_bundled_quad9().profiles[j]);
    }     else if k == 3 {
        lemma_doh_bundled_adguard();
        assert(d[k] == spec_bundled_adguard());
        assert(d[k].profiles[j] == spec_bundled_adguard().profiles[j]);
    }     else if k == 4 {
        lemma_doh_bundled_cleanbrowsing();
        assert(d[k] == spec_bundled_cleanbrowsing());
        assert(d[k].profiles[j] == spec_bundled_cleanbrowsing().profiles[j]);
    }     else if k == 5 {
        lemma_doh_bundled_control_d();
        assert(d[k] == spec_bundled_control_d());
        assert(d[k].profiles[j] == spec_bundled_control_d().profiles[j]);
    }     else if k == 6 {
        lemma_doh_bundled_nextdns();
        assert(d[k] == spec_bundled_nextdns());
        assert(d[k].profiles[j] == spec_bundled_nextdns().profiles[j]);
    }     else if k == 7 {
        lemma_doh_bundled_opendns();
        assert(d[k] == spec_bundled_opendns());
        assert(d[k].profiles[j] == spec_bundled_opendns().profiles[j]);
    }
}

/// In the bundled catalogue every profile has an encrypted-DNS template,
/// except those of NextDNS, which needs an account-specific address.
pub proof fn lemma_bundled_doh_templates()
    ensures
        forall|k: int, j: int|
            #![trigger spec_default_providers()[k].profiles[j]]
            0 <= k < spec_default_providers().len() && 0 <= j
                < spec_default_providers()[k].profiles.len() ==> (spec_doh_template(
                spec_default_providers()[k].id,
                spec_default_providers()[k].profiles[j].id,
            ).len() > 0 <==> spec_default_providers()[k].id != "nextdns"@),
{
    lemma_template_ids_differ();
    lemma_doh_bundled_cloudflare();
    lemma_doh_bundled_google();
    lemma_doh_bundled_quad9();
    lemma_doh_bundled_adguard();
    lemma_doh_bundled_cleanbrowsing();
    lemma_doh_bundled_control_d();
    lemma_doh_bundled_nextdns();
    lemma_doh_bundled_opendns();
    assert("nextdns"@ != "adguard"@);
    assert("nextdns"@ != "opendns"@);
    let d = spec_default_providers();
    assert forall|k: int, j: int|
        #![trigger d[k].profiles[j]]
        0 <= k < d.len() && 0 <= j < d[k].profiles.len() implies (spec_doh_template(
            d[k].id,
            d[k].profiles[j].id,
        ).len() > 0 <==> d[k].id != "nextdns"@) by {
        if k == 0 {
            assert(d[k] == spec_bundled_cloudflare());
            assert(spec_bundled_cloudflare().profiles[j] == d[k].profiles[j]);
        }         else if k == 1 {
            assert(d[k] == spec_bundled_google());
            assert(spec_bundled_google().profiles[j] == d[k].profiles[j]);
        }         else if k == 2 {
            assert(d[k] == spec_bundled_quad9());
            assert(spec_bundled_quad9().profiles[j] == d[k].profiles[j]);
        }         else if k == 3 {
            assert(d[k] == spec_bundled_adguard());
            assert(spec_bundled_adguard().profiles[j] == d[k].profiles[j]);
        }         else if k == 4 {
            assert(d[k] == spec_bundled_cleanbrowsing());
            assert(spec_bundled_cleanbrowsing().profiles[j] == d[k].profiles[j]);
        }         else if k == 5 {
            assert(d[k] == spec_bundled_control_d());
            assert(spec_bundled_control_d().profiles[j] == d[k].profiles[j]);
        }         else if k == 6 {
            assert(d[k] == spec_bundled_nextdns());
            assert(spec_bundled_nextdns().profiles[j] == d[k].profiles[j]);
        }         else if k == 7 {
            assert(d[k] == spec_bundled_opendns());
            assert(spec_bundled_opendns().profiles[j] == d[k].profiles[j]);
        }
    }
}

/// The search ignores case on every searched field: a provider whose
/// lower-cased name, English summary or Indonesian summary contains the
/// lower-cased trimmed query is found, in every category that admits it;
/// a blank query finds every provider the category admits; and a provider
/// is found only in one of these ways.
pub proof fn lemma_search_ignores_case(p: ProviderView, query: Seq<char>, category: Seq<char>)
    ensures
        category_matches(p, category) && (contains(
            spec_to_lowercase(p.name),
            spec_to_lowercase(trim(query)),
        ) || contains(spec_to_lowercase(p.summary_en), spec_to_lowercase(trim(query)))
            || contains(spec_to_lowercase(p.summary_id), spec_to_lowercase(trim(query))))
            ==> spec_provider_matches(p, query, category),
        category_matches(p, category) && spec_to_lowercase(trim(query)).len() == 0
            ==> spec_provider_matches(p, query, category),
        spec_provider_matches(p, query, category) ==> category_matches(p, category) && (
        spec_to_lowercase(trim(query)).len() == 0 || contains(
            spec_to_lowercase(p.name),
            spec_to_lowercase(trim(query)),
        ) || contains(spec_to_lowercase(p.summary_en), spec_to_lowercase(trim(query)))
            || contains(spec_to_lowercase(p.summary_id), spec_to_lowercase(trim(query)))),
{
}

// ---------------------------------------------------------------------
// Laws
// ---------------------------------------------------------------------

/// The search for the first active provider finds the first one in use.
pub proof fn lemma_first_active_from(ps: Seq<ProviderView>, current_dns: Seq<char>, i: int)
    requires
        0 <= i,
    ensures
        first_active_from(ps, current_dns, i) matches Some(k) ==> i <= k < ps.len()
            && spec_provider_is_active(ps[k], current_dns) && forall|j: int|
            i <= j < k ==> !spec_provider_is_active(#[trigger] ps[j], current_dns),
        first_active_from(ps, current_dns, i) is None ==> forall|j: int|
            i <= j < ps.len() ==> !spec_provider_is_active(#[trigger] ps[j], current_dns),
    decreases ps.len() - i,
{
    if i < ps.len() {
        lemma_first_active_from(ps, current_dns, i + 1);
    }
}

/// Active-provider detection: when no provider's addresses are configured
/// (in particular when the server list is blank) the system label is shown;
/// otherwise the provider shown is the first one whose addresses are
/// configured.
pub proof fn lemma_resolve_active_provider(
    ps: Seq<ProviderView>,
    current_dns: Seq<char>,
    language: Seq<char>,
)
    ensures
        (forall|k: int| 0 <= k < ps.len() ==> !spec_provider_is_active(#[trigger] ps[k], current_dns))
            ==> spec_resolve_active_provider(ps, current_dns, language) == ("system"@, system_title(
            language,
        )),
        trim(current_dns).len() == 0 ==> spec_resolve_active_provider(ps, current_dns, language)
            == ("system"@, system_title(language)),
        (exists|k: int| 0 <= k < ps.len() && spec_provider_is_active(#[trigger] ps[k], current_dns))
            ==> exists|k: int|
            0 <= k < ps.len() && spec_provider_is_active(#[trigger] ps[k], current_dns)
                && spec_resolve_active_provider(ps, current_dns, language).0 == ps[k].id && forall|
                j: int,
            |
                0 <= j < k ==> !spec_provider_is_active(#[trigger] ps[j], current_dns),
{
    lemma_first_active_from(ps, current_dns, 0);
}

} // verus!
