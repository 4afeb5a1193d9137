//! The DNS provider model: providers, their profiles, the bundled catalogue
//! and the validation of addresses.
use crate::net::{ip_family, spec_ip_family};
use crate::text::{concat, is_blank, owned, trim};
use vstd::prelude::*;

verus! {

/// The abstract value of a [`DnsProfile`]: its fields as character sequences.
pub struct ProfileView {
    pub id: Seq<char>,
    pub name_en: Seq<char>,
    pub name_id: Seq<char>,
    pub description_en: Seq<char>,
    pub description_id: Seq<char>,
    pub tag_en: Seq<char>,
    pub tag_id: Seq<char>,
    pub ipv4_primary: Seq<char>,
    pub ipv4_secondary: Seq<char>,
    pub ipv6_primary: Seq<char>,
    pub ipv6_secondary: Seq<char>,
}

/// The abstract value of a [`DnsProvider`].
pub struct ProviderView {
    pub id: Seq<char>,
    pub name: Seq<char>,
    pub ipv4_primary: Seq<char>,
    pub ipv4_secondary: Seq<char>,
    pub ipv6_primary: Seq<char>,
    pub ipv6_secondary: Seq<char>,
    pub summary_en: Seq<char>,
    pub summary_id: Seq<char>,
    pub purpose: Seq<char>,
    pub pros_en: Seq<char>,
    pub pros_id: Seq<char>,
    pub cons_en: Seq<char>,
    pub cons_id: Seq<char>,
    pub custom: bool,
    pub profiles: Seq<ProfileView>,
}

/// One selectable configuration of a provider (for example a filtering
/// variant), with its localized texts and addresses.
#[derive(Clone, Debug)]
pub struct DnsProfile {
    pub id: String,
    pub name_en: String,
    pub name_id: String,
    pub description_en: String,
    pub description_id: String,
    pub tag_en: String,
    pub tag_id: String,
    pub ipv4_primary: String,
    pub ipv4_secondary: String,
    pub ipv6_primary: String,
    pub ipv6_secondary: String,
}

impl View for DnsProfile {
    type V = ProfileView;

    open spec fn view(&self) -> ProfileView {
        ProfileView {
            id: self.id@,
            name_en: self.name_en@,
            name_id: self.name_id@,
            description_en: self.description_en@,
            description_id: self.description_id@,
            tag_en: self.tag_en@,
            tag_id: self.tag_id@,
            ipv4_primary: self.ipv4_primary@,
            ipv4_secondary: self.ipv4_secondary@,
            ipv6_primary: self.ipv6_primary@,
            ipv6_secondary: self.ipv6_secondary@,
        }
    }
}

/// A DNS provider: a bundled catalogue entry (`custom == false`) or a
/// user-defined one (`custom == true`).
#[derive(Clone, Debug)]
pub struct DnsProvider {
    pub id: String,
    pub name: String,
    pub ipv4_primary: String,
    pub ipv4_secondary: String,
    pub ipv6_primary: String,
    pub ipv6_secondary: String,
    pub summary_en: String,
    pub summary_id: String,
    pub purpose: String,
    pub pros_en: String,
    pub pros_id: String,
    pub cons_en: String,
    pub cons_id: String,
    pub custom: bool,
    pub profiles: Vec<DnsProfile>,
}

/// The abstract values of a sequence of profiles.
pub open spec fn profile_views(ps: Seq<DnsProfile>) -> Seq<ProfileView> {
    ps.map_values(|p: DnsProfile| p@)
}

/// The abstract values of a sequence of providers.
pub open spec fn provider_views(ps: Seq<DnsProvider>) -> Seq<ProviderView> {
    ps.map_values(|p: DnsProvider| p@)
}

impl View for DnsProvider {
    type V = ProviderView;

    open spec fn view(&self) -> ProviderView {
        ProviderView {
            id: self.id@,
            name: self.name@,
            ipv4_primary: self.ipv4_primary@,
            ipv4_secondary: self.ipv4_secondary@,
            ipv6_primary: self.ipv6_primary@,
            ipv6_secondary: self.ipv6_secondary@,
            summary_en: self.summary_en@,
            summary_id: self.summary_id@,
            purpose: self.purpose@,
            pros_en: self.pros_en@,
            pros_id: self.pros_id@,
            cons_en: self.cons_en@,
            cons_id: self.cons_id@,
            custom: self.custom,
            profiles: profile_views(self.profiles@),
        }
    }
}

// ---------------------------------------------------------------------
// Specifications
// ---------------------------------------------------------------------

/// The profile that stands for a provider that lists none of its own.
pub open spec fn default_profile(p: ProviderView) -> ProfileView {
    ProfileView {
        id: "default"@,
        name_en: "Default"@,
        name_id: "Bawaan"@,
        description_en: p.summary_en,
        description_id: p.summary_id,
        tag_en: "DEFAULT"@,
        tag_id: "BAWAAN"@,
        ipv4_primary: p.ipv4_primary,
        ipv4_secondary: p.ipv4_secondary,
        ipv6_primary: p.ipv6_primary,
        ipv6_secondary: p.ipv6_secondary,
    }
}

/// The profiles a provider offers: its own, or else one built from its
/// top-level addresses.
pub open spec fn spec_get_profiles(p: ProviderView) -> Seq<ProfileView> {
    if p.profiles.len() > 0 {
        p.profiles
    } else {
        seq![default_profile(p)]
    }
}

/// The check of one address field: blank is accepted, otherwise the trimmed
/// text must be an address of the family the field is for.
pub open spec fn address_check(value: Seq<char>, ipv6: bool) -> Result<(), Seq<char>> {
    if trim(value).len() == 0 {
        Ok(())
    } else {
        match spec_ip_family(trim(value)) {
            None => Err("Invalid IP address: "@ + value),
            Some(is_v6) => if is_v6 != ipv6 {
                Err("Address has the wrong IP version: "@ + value)
            } else {
                Ok(())
            },
        }
    }
}

/// The check of a primary/secondary pair, with the first error it meets.
pub open spec fn pair_check(primary: Seq<char>, secondary: Seq<char>, ipv6: bool) -> Result<
    (),
    Seq<char>,
> {
    if trim(primary).len() == 0 && trim(secondary).len() != 0 {
        Err("A secondary address requires a primary address"@)
    } else {
        match address_check(primary, ipv6) {
            Err(e) => Err(e),
            Ok(()) => address_check(secondary, ipv6),
        }
    }
}

/// The check of the profiles from index `i` on, with the first error met.
pub open spec fn profiles_check(ps: Seq<ProfileView>, i: int) -> Result<(), Seq<char>>
    decreases ps.len() - i,
{
    if i < 0 || i >= ps.len() {
        Ok(())
    } else {
        match pair_check(ps[i].ipv4_primary, ps[i].ipv4_secondary, false) {
            Err(e) => Err(e),
            Ok(()) => match pair_check(ps[i].ipv6_primary, ps[i].ipv6_secondary, true) {
                Err(e) => Err(e),
                Ok(()) => profiles_check(ps, i + 1),
            },
        }
    }
}

/// What [`DnsProvider::validate`] answers for a provider.
pub open spec fn spec_validate(p: ProviderView) -> Result<(), Seq<char>> {
    if trim(p.name).len() == 0 {
        Err("DNS name cannot be empty"@)
    } else {
        match pair_check(p.ipv4_primary, p.ipv4_secondary, false) {
            Err(e) => Err(e),
            Ok(()) => match pair_check(p.ipv6_primary, p.ipv6_secondary, true) {
                Err(e) => Err(e),
                Ok(()) => if trim(p.ipv4_primary).len() == 0 && trim(p.ipv6_primary).len() == 0 {
                    Err("At least one primary DNS address is required"@)
                } else {
                    profiles_check(p.profiles, 0)
                },
            },
        }
    }
}

/// The abstract value of a unit result with a text error.
pub open spec fn unit_result_view(r: Result<(), String>) -> Result<(), Seq<char>> {
    match r {
        Ok(()) => Ok(()),
        Err(e) => Err(e@),
    }
}

/// An address field holds nothing, or an address of the family it is for.
pub open spec fn address_ok(value: Seq<char>, ipv6: bool) -> bool {
    trim(value).len() == 0 || spec_ip_family(trim(value)) == Some(ipv6)
}

/// A pair of address fields is acceptable: both addresses are acceptable and
/// a secondary address comes only with a primary one.
pub open spec fn pair_ok(primary: Seq<char>, secondary: Seq<char>, ipv6: bool) -> bool {
    &&& (trim(primary).len() != 0 || trim(secondary).len() == 0)
    &&& address_ok(primary, ipv6)
    &&& address_ok(secondary, ipv6)
}

/// The documented validation rules of a provider.
pub open spec fn provider_rules(p: ProviderView) -> bool {
    &&& trim(p.name).len() != 0
    &&& pair_ok(p.ipv4_primary, p.ipv4_secondary, false)
    &&& pair_ok(p.ipv6_primary, p.ipv6_secondary, true)
    &&& (trim(p.ipv4_primary).len() != 0 || trim(p.ipv6_primary).len() != 0)
    &&& forall|i: int|
        0 <= i < p.profiles.len() ==> pair_ok(#[trigger] p.profiles[i].ipv4_primary, p.profiles[i].ipv4_secondary, false)
            && pair_ok(p.profiles[i].ipv6_primary, p.profiles[i].ipv6_secondary, true)
}

// ---------------------------------------------------------------------
// Laws
// ---------------------------------------------------------------------

/// The address check accepts exactly the acceptable fields.
pub proof fn lemma_address_check(value: Seq<char>, ipv6: bool)
    ensures
        address_check(value, ipv6) is Ok <==> address_ok(value, ipv6),
{
}

/// The pair check accepts exactly the acceptable pairs.
pub proof fn lemma_pair_check(primary: Seq<char>, secondary: Seq<char>, ipv6: bool)
    ensures
        pair_check(primary, secondary, ipv6) is Ok <==> pair_ok(primary, secondary, ipv6),
{
    lemma_address_check(primary, ipv6);
    lemma_address_check(secondary, ipv6);
}

/// The profile check from `i` on accepts exactly when every later profile
/// has acceptable pairs.
pub proof fn lemma_profiles_check(ps: Seq<ProfileView>, i: int)
    requires
        0 <= i <= ps.len(),
    ensures
        profiles_check(ps, i) is Ok <==> forall|j: int|
            i <= j < ps.len() ==> pair_ok(#[trigger] ps[j].ipv4_primary, ps[j].ipv4_secondary, false)
                && pair_ok(ps[j].ipv6_primary, ps[j].ipv6_secondary, true),
    decreases ps.len() - i,
{
    if i < ps.len() {
        lemma_profiles_check(ps, i + 1);
        lemma_pair_check(ps[i].ipv4_primary, ps[i].ipv4_secondary, false);
        lemma_pair_check(ps[i].ipv6_primary, ps[i].ipv6_secondary, true);
        if profiles_check(ps, i) is Ok {
            assert(pair_check(ps[i].ipv4_primary, ps[i].ipv4_secondary, false) is Ok);
            assert(pair_check(ps[i].ipv6_primary, ps[i].ipv6_secondary, true) is Ok);
            assert(profiles_check(ps, i + 1) is Ok);
            assert forall|j: int| i <= j < ps.len() implies pair_ok(
                #[trigger] ps[j].ipv4_primary,
                ps[j].ipv4_secondary,
                false,
            ) && pair_ok(ps[j].ipv6_primary, ps[j].ipv6_secondary, true) by {
                if j > i {
                    assert(i + 1 <= j < ps.len());
                }
            }
        }
        if forall|j: int|
            i <= j < ps.len() ==> pair_ok(#[trigger] ps[j].ipv4_primary, ps[j].ipv4_secondary, false)
                && pair_ok(ps[j].ipv6_primary, ps[j].ipv6_secondary, true) {
            assert(pair_ok(ps[i].ipv4_primary, ps[i].ipv4_secondary, false));
            assert(forall|j: int|
                i + 1 <= j < ps.len() ==> pair_ok(#[trigger] ps[j].ipv4_primary, ps[j].ipv4_secondary, false)
                    && pair_ok(ps[j].ipv6_primary, ps[j].ipv6_secondary, true));
        }
    }
}

/// Validation accepts a provider exactly when it meets the documented rules:
/// a non-empty name; at least one primary address; every non-empty address,
/// top-level or in a profile, an address of its field's family; and no
/// secondary address without its primary address.
pub proof fn lemma_validate_rules(p: ProviderView)
    ensures
        spec_validate(p) is Ok <==> provider_rules(p),
{
    lemma_pair_check(p.ipv4_primary, p.ipv4_secondary, false);
    lemma_pair_check(p.ipv6_primary, p.ipv6_secondary, true);
    lemma_profiles_check(p.profiles, 0);
}

/// Every provider offers at least one profile.
pub proof fn lemma_profiles_nonempty(p: ProviderView)
    ensures
        spec_get_profiles(p).len() >= 1,
{
}

// ---------------------------------------------------------------------
// Executable functions
// ---------------------------------------------------------------------

/// A profile with the given texts and addresses.
pub fn profile(
    id: &str,
    name_en: &str,
    name_id: &str,
    description_en: &str,
    description_id: &str,
    tag_en: &str,
    tag_id: &str,
    ipv4_primary: &str,
    ipv4_secondary: &str,
    ipv6_primary: &str,
    ipv6_secondary: &str,
) -> (r: DnsProfile)
    ensures
        r@ == (ProfileView {
            id: id@,
            name_en: name_en@,
            name_id: name_id@,
            description_en: description_en@,
            description_id: description_id@,
            tag_en: tag_en@,
            tag_id: tag_id@,
            ipv4_primary: ipv4_primary@,
            ipv4_secondary: ipv4_secondary@,
            ipv6_primary: ipv6_primary@,
            ipv6_secondary: ipv6_secondary@,
        }),
{
    DnsProfile {
        id: owned(id),
        name_en: owned(name_en),
        name_id: owned(name_id),
        description_en: owned(description_en),
        description_id: owned(description_id),
        tag_en: owned(tag_en),
        tag_id: owned(tag_id),
        ipv4_primary: owned(ipv4_primary),
        ipv4_secondary: owned(ipv4_secondary),
        ipv6_primary: owned(ipv6_primary),
        ipv6_secondary: owned(ipv6_secondary),
    }
}

/// A bundled (not custom) provider with the given texts, addresses and profiles.
fn provider(
    id: &str,
    name: &str,
    ipv4_primary: &str,
    ipv4_secondary: &str,
    ipv6_primary: &str,
    ipv6_secondary: &str,
    summary_en: &str,
    summary_id: &str,
    purpose: &str,
    pros_en: &str,
    pros_id: &str,
    cons_en: &str,
    cons_id: &str,
    profiles: Vec<DnsProfile>,
) -> (r: DnsProvider)
    ensures
        r@ == (ProviderView {
            id: id@,
            name: name@,
            ipv4_primary: ipv4_primary@,
            ipv4_secondary: ipv4_secondary@,
            ipv6_primary: ipv6_primary@,
            ipv6_secondary: ipv6_secondary@,
            summary_en: summary_en@,
            summary_id: summary_id@,
            purpose: purpose@,
            pros_en: pros_en@,
            pros_id: pros_id@,
            cons_en: cons_en@,
            cons_id: cons_id@,
            custom: false,
            profiles: profile_views(profiles@),
        }),
{
    DnsProvider {
        id: owned(id),
        name: owned(name),
        ipv4_primary: owned(ipv4_primary),
        ipv4_secondary: owned(ipv4_secondary),
        ipv6_primary: owned(ipv6_primary),
        ipv6_secondary: owned(ipv6_secondary),
        summary_en: owned(summary_en),
        summary_id: owned(summary_id),
        purpose: owned(purpose),
        pros_en: owned(pros_en),
        pros_id: owned(pros_id),
        cons_en: owned(cons_en),
        cons_id: owned(cons_id),
        custom: false,
        profiles,
    }
}

impl DnsProfile {
    /// A copy of this profile.
    pub fn duplicate(&self) -> (r: DnsProfile)
        ensures
            r == *self,
    {
        DnsProfile {
            id: self.id.clone(),
            name_en: self.name_en.clone(),
            name_id: self.name_id.clone(),
            description_en: self.description_en.clone(),
            description_id: self.description_id.clone(),
            tag_en: self.tag_en.clone(),
            tag_id: self.tag_id.clone(),
            ipv4_primary: self.ipv4_primary.clone(),
            ipv4_secondary: self.ipv4_secondary.clone(),
            ipv6_primary: self.ipv6_primary.clone(),
            ipv6_secondary: self.ipv6_secondary.clone(),
        }
    }
}

/// A copy of a list of profiles.
pub fn duplicate_profiles(ps: &Vec<DnsProfile>) -> (r: Vec<DnsProfile>)
    ensures
        r@ == ps@,
{
    let mut r: Vec<DnsProfile> = Vec::new();
    let mut i: usize = 0;
    while i < ps.len()
        invariant
            i <= ps@.len(),
            r@ == ps@.take(i as int),
        decreases ps.len() - i,
    {
        r.push(ps[i].duplicate());
        i = i + 1;
        assert(r@ == ps@.take(i as int));
    }
    assert(ps@.take(ps@.len() as int) == ps@);
    r
}

/// The check of one address field.
fn validate_address(value: &str, ipv6: bool) -> (r: Result<(), String>)
    ensures
        unit_result_view(r) == address_check(value@, ipv6),
{
    if is_blank(value) {
        return Ok(());
    }
    let trimmed = crate::text::trim_str(value);
    match ip_family(trimmed.as_str()) {
        None => Err(concat("Invalid IP address: ", value)),
        Some(is_v6) => {
            if is_v6 != ipv6 {
                Err(concat("Address has the wrong IP version: ", value))
            } else {
                Ok(())
            }
        },
    }
}

/// The check of a primary/secondary address pair of one family.
pub fn validate_pair(primary: &str, secondary: &str, ipv6: bool) -> (r: Result<(), String>)
    ensures
        unit_result_view(r) == pair_check(primary@, secondary@, ipv6),
{
    if is_blank(primary) && !is_blank(secondary) {
        return Err(owned("A secondary address requires a primary address"));
    }
    match validate_address(primary, ipv6) {
        Err(e) => Err(e),
        Ok(()) => validate_address(secondary, ipv6),
    }
}

impl DnsProvider {
    /// A copy of this provider.
    pub fn duplicate(&self) -> (r: DnsProvider)
        ensures
            r@ == self@,
    {
        let profiles = duplicate_profiles(&self.profiles);
        assert(profiles@ == self.profiles@);
        DnsProvider {
            id: self.id.clone(),
            name: self.name.clone(),
            ipv4_primary: self.ipv4_primary.clone(),
            ipv4_secondary: self.ipv4_secondary.clone(),
            ipv6_primary: self.ipv6_primary.clone(),
            ipv6_secondary: self.ipv6_secondary.clone(),
            summary_en: self.summary_en.clone(),
            summary_id: self.summary_id.clone(),
            purpose: self.purpose.clone(),
            pros_en: self.pros_en.clone(),
            pros_id: self.pros_id.clone(),
            cons_en: self.cons_en.clone(),
            cons_id: self.cons_id.clone(),
            custom: self.custom,
            profiles,
        }
    }

    /// Checks the provider's name and addresses, answering with the first
    /// problem found: an empty name, a secondary address without a primary
    /// one, an address that does not parse, an address of the wrong family,
    /// no primary address at all, or a problem in one of its profiles.
    pub fn validate(&self) -> (r: Result<(), String>)
        ensures
            unit_result_view(r) == spec_validate(self@),
    {
        if is_blank(self.name.as_str()) {
            return Err(owned("DNS name cannot be empty"));
        }
        match validate_pair(self.ipv4_primary.as_str(), self.ipv4_secondary.as_str(), false) {
            Err(e) => {
                return Err(e);
            },
            Ok(()) => {},
        }
        match validate_pair(self.ipv6_primary.as_str(), self.ipv6_secondary.as_str(), true) {
            Err(e) => {
                return Err(e);
            },
            Ok(()) => {},
        }
        if is_blank(self.ipv4_primary.as_str()) && is_blank(self.ipv6_primary.as_str()) {
            return Err(owned("At least one primary DNS address is required"));
        }
        let ghost ps = self@.profiles;
        let mut i: usize = 0;
        while i < self.profiles.len()
            invariant
                i <= self.profiles@.len(),
                ps == profile_views(self.profiles@),
                spec_validate(self@) == profiles_check(ps, i as int),
            decreases self.profiles.len() - i,
        {
            let p = &self.profiles[i];
            assert(ps[i as int] == p@);
            match validate_pair(p.ipv4_primary.as_str(), p.ipv4_secondary.as_str(), false) {
                Err(e) => {
                    return Err(e);
                },
                Ok(()) => {},
            }
            match validate_pair(p.ipv6_primary.as_str(), p.ipv6_secondary.as_str(), true) {
                Err(e) => {
                    return Err(e);
                },
                Ok(()) => {},
            }
            i = i + 1;
        }
        Ok(())
    }

    /// The profiles this provider offers: its own when it lists some, else a
    /// single "Default" profile made from its top-level addresses and summaries.
    pub fn get_profiles(&self) -> (r: Vec<DnsProfile>)
        ensures
            profile_views(r@) == spec_get_profiles(self@),
    {
        if self.profiles.len() > 0 {
            return duplicate_profiles(&self.profiles);
        }
        let d = DnsProfile {
            id: owned("default"),
            name_en: owned("Default"),
            name_id: owned("Bawaan"),
            description_en: self.summary_en.clone(),
            description_id: self.summary_id.clone(),
            tag_en: owned("DEFAULT"),
            tag_id: owned("BAWAAN"),
            ipv4_primary: self.ipv4_primary.clone(),
            ipv4_secondary: self.ipv4_secondary.clone(),
            ipv6_primary: self.ipv6_primary.clone(),
            ipv6_secondary: self.ipv6_secondary.clone(),
        };
        let r = vec![d];
        assert(profile_views(r@) =~= seq![default_profile(self@)]);
        r
    }
}

/// The bundled provider catalogue.
pub fn default_providers() -> (r: Vec<DnsProvider>)
    ensures
        provider_views(r@) == spec_default_providers(),
{
    let r = vec![
        bundled_cloudflare(),
        bundled_google(),
        bundled_quad9(),
        bundled_adguard(),
        bundled_cleanbrowsing(),
        bundled_control_d(),
        bundled_nextdns(),
        bundled_opendns(),
    ];
    assert(provider_views(r@) =~= spec_default_providers());
    r
}

/// The bundled `cloudflare` entry of the catalogue.
pub open spec fn spec_bundled_cloudflare() -> ProviderView {
    ProviderView {
        id: "cloudflare"@,
        name: "Cloudflare"@,
        ipv4_primary: "1.1.1.1"@,
        ipv4_secondary: "1.0.0.1"@,
        ipv6_primary: "2606:4700:4700::1111"@,
        ipv6_secondary: "2606:4700:4700::1001"@,
        summary_en: "Fast public resolver with a strong privacy focus."@,
        summary_id: "Resolver publik cepat yang berfokus pada privasi."@,
        purpose: "privacy"@,
        pros_en: "Fast, privacy-minded, broad global network"@,
        pros_id: "Cepat, mengutamakan privasi, jaringan global luas"@,
        cons_en: "Does not block ads or adult content by default"@,
        cons_id: "Tidak memblokir iklan atau konten dewasa secara bawaan"@,
        custom: false,
        profiles: seq![
            ProfileView {
                id: "standard"@,
                name_en: "Standard (Fast & Private)"@,
                name_id: "Standar (Cepat & Privasi)"@,
                description_en: "Cloudflare standard public DNS without content filtering."@,
                description_id: "DNS publik standar Cloudflare tanpa pemfilteran konten."@,
                tag_en: "STANDARD"@,
                tag_id: "STANDAR"@,
                ipv4_primary: "1.1.1.1"@,
                ipv4_secondary: "1.0.0.1"@,
                ipv6_primary: "2606:4700:4700::1111"@,
                ipv6_secondary: "2606:4700:4700::1001"@,
            },
            ProfileView {
                id: "security"@,
                name_en: "Malware Blocking"@,
                name_id: "Blokir Malware & Ancaman"@,
                description_en: "Automatically blocks malware, phishing, and known malicious domains."@,
                description_id: "Memblokir malware, phishing, dan domain berbahaya secara otomatis."@,
                tag_en: "SECURITY"@,
                tag_id: "KEAMANAN"@,
                ipv4_primary: "1.1.1.2"@,
                ipv4_secondary: "1.0.0.2"@,
                ipv6_primary: "2606:4700:4700::1112"@,
                ipv6_secondary: "2606:4700:4700::1002"@,
            },
            ProfileView {
                id: "family"@,
                name_en: "Family / Adult Blocking"@,
                name_id: "Keluarga (Malware + Konten Dewasa)"@,
                description_en: "Blocks malware as well as adult and sexually explicit content."@,
                description_id: "Memblokir malware serta konten dewasa dan pornografi untuk keluarga."@,
                tag_en: "FAMILY SAFE"@,
                tag_id: "RAMAH KELUARGA"@,
                ipv4_primary: "1.1.1.3"@,
                ipv4_secondary: "1.0.0.3"@,
                ipv6_primary: "2606:4700:4700::1113"@,
                ipv6_secondary: "2606:4700:4700::1003"@,
            },
        ],
    }
}

/// The bundled `google` entry of the catalogue.
pub open spec fn spec_bundled_google() -> ProviderView {
    ProviderView {
        id: "google"@,
        name: "Google Public DNS"@,
        ipv4_primary: "8.8.8.8"@,
        ipv4_secondary: "8.8.4.4"@,
        ipv6_primary: "2001:4860:4860::8888"@,
        ipv6_secondary: "2001:4860:4860::8844"@,
        summary_en: "Reliable resolver backed by Google's global infrastructure."@,
        summary_id: "Resolver andal yang didukung infrastruktur global Google."@,
        purpose: "general"@,
        pros_en: "High availability, reliable, widely supported"@,
        pros_id: "Ketersediaan tinggi, andal, didukung secara luas"@,
        cons_en: "Some users may prefer a provider outside Google's ecosystem"@,
        cons_id: "Sebagian pengguna mungkin memilih penyedia di luar ekosistem Google"@,
        custom: false,
        profiles: seq![
            ProfileView {
                id: "standard"@,
                name_en: "Standard"@,
                name_id: "Standar Global"@,
                description_en: "Google's global Anycast DNS network with high availability and low latency."@,
                description_id: "Jaringan DNS Anycast global Google dengan ketersediaan tinggi dan latensi rendah."@,
                tag_en: "SPEED & RELIABLE"@,
                tag_id: "KECEPATAN & ANDAL"@,
                ipv4_primary: "8.8.8.8"@,
                ipv4_secondary: "8.8.4.4"@,
                ipv6_primary: "2001:4860:4860::8888"@,
                ipv6_secondary: "2001:4860:4860::8844"@,
            },
        ],
    }
}

/// The bundled `quad9` entry of the catalogue.
pub open spec fn spec_bundled_quad9() -> ProviderView {
    ProviderView {
        id: "quad9"@,
        name: "Quad9"@,
        ipv4_primary: "9.9.9.9"@,
        ipv4_secondary: "149.112.112.112"@,
        ipv6_primary: "2620:fe::fe"@,
        ipv6_secondary: "2620:fe::9"@,
        summary_en: "Security-focused resolver that blocks known malicious domains."@,
        summary_id: "Resolver keamanan yang memblokir domain berbahaya yang diketahui."@,
        purpose: "security"@,
        pros_en: "Malware and phishing protection, non-profit operator"@,
        pros_id: "Perlindungan malware dan phishing, dikelola organisasi nirlaba"@,
        cons_en: "Threat filtering can occasionally block a wanted domain"@,
        cons_id: "Penyaringan ancaman terkadang dapat memblokir domain yang diinginkan"@,
        custom: false,
        profiles: seq![
            ProfileView {
                id: "standard"@,
                name_en: "Standard (Malware Blocking)"@,
                name_id: "Standar (Proteksi Ancaman)"@,
                description_en: "Blocks malware, phishing, and spyware with DNSSEC validation enabled."@,
                description_id: "Memblokir malware, phishing, dan spyware dengan validasi DNSSEC aktif."@,
                tag_en: "RECOMMENDED"@,
                tag_id: "REKOMENDASI"@,
                ipv4_primary: "9.9.9.9"@,
                ipv4_secondary: "149.112.112.112"@,
                ipv6_primary: "2620:fe::fe"@,
                ipv6_secondary: "2620:fe::9"@,
            },
            ProfileView {
                id: "ecs"@,
                name_en: "EDNS Client Subnet (ECS)"@,
                name_id: "Dengan ECS (Optimalisasi CDN)"@,
                description_en: "Includes subnet info to route traffic to geographically closest CDN edges."@,
                description_id: "Menyertakan info subnet untuk merutekan lalu lintas ke server CDN terdekat."@,
                tag_en: "CDN OPTIMIZED"@,
                tag_id: "OPTIMAL CDN"@,
                ipv4_primary: "9.9.9.11"@,
                ipv4_secondary: "149.112.112.11"@,
                ipv6_primary: "2620:fe::11"@,
                ipv6_secondary: "2620:fe::fe:11"@,
            },
            ProfileView {
                id: "unsecured"@,
                name_en: "Unsecured (No Blocking)"@,
                name_id: "Tanpa Filter Ancaman"@,
                description_en: "Raw resolution without threat blocking or domain filtering."@,
                description_id: "Resolusi langsung tanpa pemblokiran domain ancaman atau filter."@,
                tag_en: "UNFILTERED"@,
                tag_id: "TANPA FILTER"@,
                ipv4_primary: "9.9.9.10"@,
                ipv4_secondary: "149.112.112.10"@,
                ipv6_primary: "2620:fe::10"@,
                ipv6_secondary: "2620:fe::fe:10"@,
            },
        ],
    }
}

/// The bundled `adguard` entry of the catalogue.
pub open spec fn spec_bundled_adguard() -> ProviderView {
    ProviderView {
        id: "adguard"@,
        name: "AdGuard DNS"@,
        ipv4_primary: "94.140.14.14"@,
        ipv4_secondary: "94.140.15.15"@,
        ipv6_primary: "2a10:50c0::ad1:ff"@,
        ipv6_secondary: "2a10:50c0::ad2:ff"@,
        summary_en: "Resolver that blocks ads, trackers, and malicious domains."@,
        summary_id: "Resolver yang memblokir iklan, pelacak, dan domain berbahaya."@,
        purpose: "ad-blocking"@,
        pros_en: "Network-wide ad and tracker blocking"@,
        pros_id: "Pemblokiran iklan dan pelacak untuk seluruh jaringan"@,
        cons_en: "Filtering can affect sites that depend on ad or tracking domains"@,
        cons_id: "Penyaringan dapat memengaruhi situs yang bergantung pada domain iklan"@,
        custom: false,
        profiles: seq![
            ProfileView {
                id: "default"@,
                name_en: "Default (Ad & Tracker Block)"@,
                name_id: "Standar (Blokir Iklan & Pelacak)"@,
                description_en: "Blocks advertisements, tracking domains, and malicious websites."@,
                description_id: "Memblokir iklan banner, domain pelacak analitik, dan situs berbahaya."@,
                tag_en: "AD BLOCKING"@,
                tag_id: "BEBAS IKLAN"@,
                ipv4_primary: "94.140.14.14"@,
                ipv4_secondary: "94.140.15.15"@,
                ipv6_primary: "2a10:50c0::ad1:ff"@,
                ipv6_secondary: "2a10:50c0::ad2:ff"@,
            },
            ProfileView {
                id: "family"@,
                name_en: "Family Protection"@,
                name_id: "Perlindungan Keluarga"@,
                description_en: "Blocks ads, trackers, adult content, and enforces SafeSearch."@,
                description_id: "Memblokir iklan, pelacak, konten dewasa, serta mengaktifkan SafeSearch."@,
                tag_en: "FAMILY SAFE"@,
                tag_id: "RAMAH KELUARGA"@,
                ipv4_primary: "94.140.14.15"@,
                ipv4_secondary: "94.140.15.16"@,
                ipv6_primary: "2a10:50c0::bad1:ff"@,
                ipv6_secondary: "2a10:50c0::bad2:ff"@,
            },
            ProfileView {
                id: "non-filtering"@,
                name_en: "Non-Filtering"@,
                name_id: "Tanpa Penyaringan"@,
                description_en: "Fast, reliable DNS without any ad, tracking, or content filtering."@,
                description_id: "DNS netral dan cepat tanpa pemblokiran iklan atau pelacak apa pun."@,
                tag_en: "UNFILTERED"@,
                tag_id: "TANPA FILTER"@,
                ipv4_primary: "94.140.14.140"@,
                ipv4_secondary: "94.140.14.141"@,
                ipv6_primary: "2a10:50c0::1:ff"@,
                ipv6_secondary: "2a10:50c0::2:ff"@,
            },
        ],
    }
}

/// The bundled `cleanbrowsing` entry of the catalogue.
pub open spec fn spec_bundled_cleanbrowsing() -> ProviderView {
    ProviderView {
        id: "cleanbrowsing"@,
        name: "CleanBrowsing"@,
        ipv4_primary: "185.228.168.168"@,
        ipv4_secondary: "185.228.169.168"@,
        ipv6_primary: "2a0d:2a00:1::"@,
        ipv6_secondary: "2a0d:2a00:2::"@,
        summary_en: "Family-friendly resolver blocking adult content and phishing."@,
        summary_id: "Resolver ramah keluarga yang memblokir konten dewasa dan phishing."@,
        purpose: "security"@,
        pros_en: "Safe for kids and families, blocks malicious content"@,
        pros_id: "Aman untuk keluarga dan anak, memblokir konten berbahaya"@,
        cons_en: "May restrict access to mixed-content or false-positive domains"@,
        cons_id: "Dapat membatasi akses ke domain berkonten campuran"@,
        custom: false,
        profiles: seq![
            ProfileView {
                id: "family"@,
                name_en: "Family Filter"@,
                name_id: "Filter Keluarga"@,
                description_en: "Blocks adult content, proxy/VPN bypass sites, and enforces SafeSearch."@,
                description_id: "Memblokir konten dewasa, situs bypass VPN, dan menegakkan SafeSearch."@,
                tag_en: "FAMILY SAFE"@,
                tag_id: "RAMAH KELUARGA"@,
                ipv4_primary: "185.228.168.168"@,
                ipv4_secondary: "185.228.169.168"@,
                ipv6_primary: "2a0d:2a00:1::"@,
                ipv6_secondary: "2a0d:2a00:2::"@,
            },
            ProfileView {
                id: "adult"@,
                name_en: "Adult Filter"@,
                name_id: "Filter Dewasa"@,
                description_en: "Blocks explicit adult sites while leaving other mixed-content open."@,
                description_id: "Memblokir situs dewasa eksplisit tanpa membatasi situs umum lainnya."@,
                tag_en: "ADULT BLOCK"@,
                tag_id: "BLOKIR DEWASA"@,
                ipv4_primary: "185.228.168.10"@,
                ipv4_secondary: "185.228.169.11"@,
                ipv6_primary: "2a0d:2a00:1::1"@,
                ipv6_secondary: "2a0d:2a00:2::1"@,
            },
            ProfileView {
                id: "security"@,
                name_en: "Security Filter"@,
                name_id: "Filter Keamanan"@,
                description_en: "Blocks phishing, malware, and malicious domains without filtering adult content."@,
                description_id: "Memblokir phishing, malware, dan domain berbahaya tanpa filter konten dewasa."@,
                tag_en: "SECURITY"@,
                tag_id: "KEAMANAN"@,
                ipv4_primary: "185.228.168.9"@,
                ipv4_secondary: "185.228.169.9"@,
                ipv6_primary: "2a0d:2a00:1::2"@,
                ipv6_secondary: "2a0d:2a00:2::2"@,
            },
        ],
    }
}

/// The bundled `control-d` entry of the catalogue.
pub open spec fn spec_bundled_control_d() -> ProviderView {
    ProviderView {
        id: "control-d"@,
        name: "Control D"@,
        ipv4_primary: "76.76.2.2"@,
        ipv4_secondary: "76.76.10.2"@,
        ipv6_primary: "2606:1a40::2"@,
        ipv6_secondary: "2606:1a40:1::2"@,
        summary_en: "Modern customizable resolver blocking ads, malware, and trackers."@,
        summary_id: "Resolver modern yang memblokir iklan, malware, dan pelacak."@,
        purpose: "ad-blocking"@,
        pros_en: "Fast Anycast network, built-in malware & ad blocking"@,
        pros_id: "Jaringan Anycast cepat, pemblokir malware & iklan bawaan"@,
        cons_en: "Custom profile features require an online Control D account"@,
        cons_id: "Fitur kustomisasi profil lanjutan membutuhkan akun Control D"@,
        custom: false,
        profiles: seq![
            ProfileView {
                id: "ads-malware"@,
                name_en: "Ads & Malware Blocking"@,
                name_id: "Blokir Iklan, Pelacak & Malware"@,
                description_en: "Blocks advertisements, tracking domains, malware, and phishing sites."@,
                description_id: "Memblokir iklan, pelacak data, malware, dan situs penipuan phishing."@,
                tag_en: "ADS & MALWARE"@,
                tag_id: "IKLAN & MALWARE"@,
                ipv4_primary: "76.76.2.2"@,
                ipv4_secondary: "76.76.10.2"@,
                ipv6_primary: "2606:1a40::2"@,
                ipv6_secondary: "2606:1a40:1::2"@,
            },
            ProfileView {
                id: "malware"@,
                name_en: "Malware Protection Only"@,
                name_id: "Proteksi Malware Saja"@,
                description_en: "Blocks malicious domains and phishing without altering web advertisements."@,
                description_id: "Hanya memblokir malware dan phishing tanpa mengubah iklan pada situs."@,
                tag_en: "SECURITY"@,
                tag_id: "KEAMANAN"@,
                ipv4_primary: "76.76.2.1"@,
                ipv4_secondary: "76.76.10.1"@,
                ipv6_primary: "2606:1a40::1"@,
                ipv6_secondary: "2606:1a40:1::1"@,
            },
            ProfileView {
                id: "family"@,
                name_en: "Family Friendly"@,
                name_id: "Ramah Keluarga"@,
                description_en: "Blocks adult content, malware, and deceptive websites for household browsing."@,
                description_id: "Memblokir pornografi, malware, dan situs berbahaya untuk seluruh anggota keluarga."@,
                tag_en: "FAMILY SAFE"@,
                tag_id: "RAMAH KELUARGA"@,
                ipv4_primary: "76.76.2.3"@,
                ipv4_secondary: "76.76.10.3"@,
                ipv6_primary: "2606:1a40::3"@,
                ipv6_secondary: "2606:1a40:1::3"@,
            },
            ProfileView {
                id: "social"@,
                name_en: "Block Social Media"@,
                name_id: "Blokir Media Sosial"@,
                description_en: "Blocks popular social media platforms for productivity and focused study."@,
                description_id: "Memblokir platform media sosial untuk fokus bekerja dan belajar."@,
                tag_en: "PRODUCTIVITY"@,
                tag_id: "PRODUKTIVITAS"@,
                ipv4_primary: "76.76.2.4"@,
                ipv4_secondary: "76.76.10.4"@,
                ipv6_primary: "2606:1a40::4"@,
                ipv6_secondary: "2606:1a40:1::4"@,
            },
            ProfileView {
                id: "unfiltered"@,
                name_en: "Unfiltered / Standard"@,
                name_id: "Tanpa Filter / Standar"@,
                description_en: "High performance Anycast DNS resolution without any content filters."@,
                description_id: "Resolusi DNS Anycast cepat dan andal tanpa pemfilteran konten apa pun."@,
                tag_en: "UNFILTERED"@,
                tag_id: "TANPA FILTER"@,
                ipv4_primary: "76.76.2.0"@,
                ipv4_secondary: "76.76.10.0"@,
                ipv6_primary: "2606:1a40::"@,
                ipv6_secondary: "2606:1a40:1::"@,
            },
        ],
    }
}

/// The bundled `nextdns` entry of the catalogue.
pub open spec fn spec_bundled_nextdns() -> ProviderView {
    ProviderView {
        id: "nextdns"@,
        name: "NextDNS"@,
        ipv4_primary: "45.90.28.0"@,
        ipv4_secondary: "45.90.30.0"@,
        ipv6_primary: "2a07:a8c0::"@,
        ipv6_secondary: "2a07:a8c1::"@,
        summary_en: "Cloud-based resolver with advanced privacy controls and threat prevention."@,
        summary_id: "Resolver berbasis cloud dengan privasi tinggi dan pencegahan ancaman."@,
        purpose: "privacy"@,
        pros_en: "Powerful analytics, granular privacy and security filters"@,
        pros_id: "Analitik andal, filter privasi dan keamanan terperinci"@,
        cons_en: "Custom blocking rules require linking an account profile ID"@,
        cons_id: "Aturan pemblokiran kustom memerlukan penautan profil akun"@,
        custom: false,
        profiles: seq![
            ProfileView {
                id: "standard"@,
                name_en: "Standard Anycast"@,
                name_id: "Standar Anycast"@,
                description_en: "Standard Anycast resolver without custom profile linking."@,
                description_id: "Resolver Anycast standar NextDNS tanpa penautan profil akun kustom."@,
                tag_en: "CLOUD PRIVACY"@,
                tag_id: "PRIVASI CLOUD"@,
                ipv4_primary: "45.90.28.0"@,
                ipv4_secondary: "45.90.30.0"@,
                ipv6_primary: "2a07:a8c0::"@,
                ipv6_secondary: "2a07:a8c1::"@,
            },
        ],
    }
}

/// The bundled `opendns` entry of the catalogue.
pub open spec fn spec_bundled_opendns() -> ProviderView {
    ProviderView {
        id: "opendns"@,
        name: "OpenDNS"@,
        ipv4_primary: "208.67.222.222"@,
        ipv4_secondary: "208.67.220.220"@,
        ipv6_primary: "2620:119:35::35"@,
        ipv6_secondary: "2620:119:53::53"@,
        summary_en: "Reliable enterprise-grade resolver by Cisco with phishing protection."@,
        summary_id: "Resolver andal kelas enterprise dari Cisco dengan perlindungan phishing."@,
        purpose: "security"@,
        pros_en: "Backed by Cisco infrastructure, 100% uptime, fast lookup"@,
        pros_id: "Didukung infrastruktur Cisco, uptime 100%, lookup cepat"@,
        cons_en: "May redirect NXDOMAIN errors to search suggestions page"@,
        cons_id: "Dapat mengarahkan error NXDOMAIN ke halaman saran pencarian"@,
        custom: false,
        profiles: seq![
            ProfileView {
                id: "standard"@,
                name_en: "Home Standard"@,
                name_id: "Standar (Anti-Phishing)"@,
                description_en: "Cisco OpenDNS with automatic phishing protection and 100% uptime."@,
                description_id: "Cisco OpenDNS dengan proteksi phishing otomatis dan ketersediaan 100%."@,
                tag_en: "ENTERPRISE"@,
                tag_id: "ENTERPRISE"@,
                ipv4_primary: "208.67.222.222"@,
                ipv4_secondary: "208.67.220.220"@,
                ipv6_primary: "2620:119:35::35"@,
                ipv6_secondary: "2620:119:53::53"@,
            },
            ProfileView {
                id: "familyshield"@,
                name_en: "FamilyShield"@,
                name_id: "FamilyShield (Blokir Dewasa)"@,
                description_en: "Pre-configured to automatically block adult and illicit content out-of-the-box."@,
                description_id: "Otomatis memblokir konten dewasa dan pornografi langsung tanpa konfigurasi tambahan."@,
                tag_en: "FAMILY SAFE"@,
                tag_id: "RAMAH KELUARGA"@,
                ipv4_primary: "208.67.222.123"@,
                ipv4_secondary: "208.67.220.123"@,
                ipv6_primary: "2620:119:35::123"@,
                ipv6_secondary: "2620:119:53::123"@,
            },
        ],
    }
}

/// The bundled catalogue, in the order the application lists it.
pub open spec fn spec_default_providers() -> Seq<ProviderView> {
    seq![
        spec_bundled_cloudflare(),
        spec_bundled_google(),
        spec_bundled_quad9(),
        spec_bundled_adguard(),
        spec_bundled_cleanbrowsing(),
        spec_bundled_control_d(),
        spec_bundled_nextdns(),
        spec_bundled_opendns(),
    ]
}

fn bundled_cloudflare() -> (r: DnsProvider)
    ensures
        r@ == spec_bundled_cloudflare(),
{
    let mut profiles: Vec<DnsProfile> = Vec::new();
    profiles.push(
        profile(
            "standard",
            "Standard (Fast & Private)",
            "Standar (Cepat & Privasi)",
            "Cloudflare standard public DNS without content filtering.",
            "DNS publik standar Cloudflare tanpa pemfilteran konten.",
            "STANDARD",
            "STANDAR",
            "1.1.1.1",
            "1.0.0.1",
            "2606:4700:4700::1111",
            "2606:4700:4700::1001",
        ),
    );
    profiles.push(
        profile(
            "security",
            "Malware Blocking",
            "Blokir Malware & Ancaman",
            "Automatically blocks malware, phishing, and known malicious domains.",
            "Memblokir malware, phishing, dan domain berbahaya secara otomatis.",
            "SECURITY",
            "KEAMANAN",
            "1.1.1.2",
            "1.0.0.2",
            "2606:4700:4700::1112",
            "2606:4700:4700::1002",
        ),
    );
    profiles.push(
        profile(
            "family",
            "Family / Adult Blocking",
            "Keluarga (Malware + Konten Dewasa)",
            "Blocks malware as well as adult and sexually explicit content.",
            "Memblokir malware serta konten dewasa dan pornografi untuk keluarga.",
            "FAMILY SAFE",
            "RAMAH KELUARGA",
            "1.1.1.3",
            "1.0.0.3",
            "2606:4700:4700::1113",
            "2606:4700:4700::1003",
        ),
    );
    assert(profile_views(profiles@) =~= spec_bundled_cloudflare().profiles);
    provider(
        "cloudflare",
        "Cloudflare",
        "1.1.1.1",
        "1.0.0.1",
        "2606:4700:4700::1111",
        "2606:4700:4700::1001",
        "Fast public resolver with a strong privacy focus.",
        "Resolver publik cepat yang berfokus pada privasi.",
        "privacy",
        "Fast, privacy-minded, broad global network",
        "Cepat, mengutamakan privasi, jaringan global luas",
        "Does not block ads or adult content by default",
        "Tidak memblokir iklan atau konten dewasa secara bawaan",
        profiles,
    )
}

fn bundled_google() -> (r: DnsProvider)
    ensures
        r@ == spec_bundled_google(),
{
    let mut profiles: Vec<DnsProfile> = Vec::new();
    profiles.push(
        profile(
            "standard",
            "Standard",
            "Standar Global",
            "Google's global Anycast DNS network with high availability and low latency.",
            "Jaringan DNS Anycast global Google dengan ketersediaan tinggi dan latensi rendah.",
            "SPEED & RELIABLE",
            "KECEPATAN & ANDAL",
            "8.8.8.8",
            "8.8.4.4",
            "2001:4860:4860::8888",
            "2001:4860:4860::8844",
        ),
    );
    assert(profile_views(profiles@) =~= spec_bundled_google().profiles);
    provider(
        "google",
        "Google Public DNS",
        "8.8.8.8",
        "8.8.4.4",
        "2001:4860:4860::8888",
        "2001:4860:4860::8844",
        "Reliable resolver backed by Google's global infrastructure.",
        "Resolver andal yang didukung infrastruktur global Google.",
        "general",
        "High availability, reliable, widely supported",
        "Ketersediaan tinggi, andal, didukung secara luas",
        "Some users may prefer a provider outside Google's ecosystem",
        "Sebagian pengguna mungkin memilih penyedia di luar ekosistem Google",
        profiles,
    )
}

fn bundled_quad9() -> (r: DnsProvider)
    ensures
        r@ == spec_bundled_quad9(),
{
    let mut profiles: Vec<DnsProfile> = Vec::new();
    profiles.push(
        profile(
            "standard",
            "Standard (Malware Blocking)",
            "Standar (Proteksi Ancaman)",
            "Blocks malware, phishing, and spyware with DNSSEC validation enabled.",
            "Memblokir malware, phishing, dan spyware dengan validasi DNSSEC aktif.",
            "RECOMMENDED",
            "REKOMENDASI",
            "9.9.9.9",
            "149.112.112.112",
            "2620:fe::fe",
            "2620:fe::9",
        ),
    );
    profiles.push(
        profile(
            "ecs",
            "EDNS Client Subnet (ECS)",
            "Dengan ECS (Optimalisasi CDN)",
            "Includes subnet info to route traffic to geographically closest CDN edges.",
            "Menyertakan info subnet untuk merutekan lalu lintas ke server CDN terdekat.",
            "CDN OPTIMIZED",
            "OPTIMAL CDN",
            "9.9.9.11",
            "149.112.112.11",
            "2620:fe::11",
            "2620:fe::fe:11",
        ),
    );
    profiles.push(
        profile(
            "unsecured",
            "Unsecured (No Blocking)",
            "Tanpa Filter Ancaman",
            "Raw resolution without threat blocking or domain filtering.",
            "Resolusi langsung tanpa pemblokiran domain ancaman atau filter.",
            "UNFILTERED",
            "TANPA FILTER",
            "9.9.9.10",
            "149.112.112.10",
            "2620:fe::10",
            "2620:fe::fe:10",
        ),
    );
    assert(profile_views(profiles@) =~= spec_bundled_quad9().profiles);
    provider(
        "quad9",
        "Quad9",
        "9.9.9.9",
        "149.112.112.112",
        "2620:fe::fe",
        "2620:fe::9",
        "Security-focused resolver that blocks known malicious domains.",
        "Resolver keamanan yang memblokir domain berbahaya yang diketahui.",
        "security",
        "Malware and phishing protection, non-profit operator",
        "Perlindungan malware dan phishing, dikelola organisasi nirlaba",
        "Threat filtering can occasionally block a wanted domain",
        "Penyaringan ancaman terkadang dapat memblokir domain yang diinginkan",
        profiles,
    )
}

fn bundled_adguard() -> (r: DnsProvider)
    ensures
        r@ == spec_bundled_adguard(),
{
    let mut profiles: Vec<DnsProfile> = Vec::new();
    profiles.push(
        profile(
            "default",
            "Default (Ad & Tracker Block)",
            "Standar (Blokir Iklan & Pelacak)",
            "Blocks advertisements, tracking domains, and malicious websites.",
            "Memblokir iklan banner, domain pelacak analitik, dan situs berbahaya.",
            "AD BLOCKING",
            "BEBAS IKLAN",
            "94.140.14.14",
            "94.140.15.15",
            "2a10:50c0::ad1:ff",
            "2a10:50c0::ad2:ff",
        ),
    );
    profiles.push(
        profile(
            "family",
            "Family Protection",
            "Perlindungan Keluarga",
            "Blocks ads, trackers, adult content, and enforces SafeSearch.",
            "Memblokir iklan, pelacak, konten dewasa, serta mengaktifkan SafeSearch.",
            "FAMILY SAFE",
            "RAMAH KELUARGA",
            "94.140.14.15",
            "94.140.15.16",
            "2a10:50c0::bad1:ff",
            "2a10:50c0::bad2:ff",
        ),
    );
    profiles.push(
        profile(
            "non-filtering",
            "Non-Filtering",
            "Tanpa Penyaringan",
            "Fast, reliable DNS without any ad, tracking, or content filtering.",
            "DNS netral dan cepat tanpa pemblokiran iklan atau pelacak apa pun.",
            "UNFILTERED",
            "TANPA FILTER",
            "94.140.14.140",
            "94.140.14.141",
            "2a10:50c0::1:ff",
            "2a10:50c0::2:ff",
        ),
    );
    assert(profile_views(profiles@) =~= spec_bundled_adguard().profiles);
    provider(
        "adguard",
        "AdGuard DNS",
        "94.140.14.14",
        "94.140.15.15",
        "2a10:50c0::ad1:ff",
        "2a10:50c0::ad2:ff",
        "Resolver that blocks ads, trackers, and malicious domains.",
        "Resolver yang memblokir iklan, pelacak, dan domain berbahaya.",
        "ad-blocking",
        "Network-wide ad and tracker blocking",
        "Pemblokiran iklan dan pelacak untuk seluruh jaringan",
        "Filtering can affect sites that depend on ad or tracking domains",
        "Penyaringan dapat memengaruhi situs yang bergantung pada domain iklan",
        profiles,
    )
}

fn bundled_cleanbrowsing() -> (r: DnsProvider)
    ensures
        r@ == spec_bundled_cleanbrowsing(),
{
    let mut profiles: Vec<DnsProfile> = Vec::new();
    profiles.push(
        profile(
            "family",
            "Family Filter",
            "Filter Keluarga",
            "Blocks adult content, proxy/VPN bypass sites, and enforces SafeSearch.",
            "Memblokir konten dewasa, situs bypass VPN, dan menegakkan SafeSearch.",
            "FAMILY SAFE",
            "RAMAH KELUARGA",
            "185.228.168.168",
            "185.228.169.168",
            "2a0d:2a00:1::",
            "2a0d:2a00:2::",
        ),
    );
    profiles.push(
        profile(
            "adult",
            "Adult Filter",
            "Filter Dewasa",
            "Blocks explicit adult sites while leaving other mixed-content open.",
            "Memblokir situs dewasa eksplisit tanpa membatasi situs umum lainnya.",
            "ADULT BLOCK",
            "BLOKIR DEWASA",
            "185.228.168.10",
            "185.228.169.11",
            "2a0d:2a00:1::1",
            "2a0d:2a00:2::1",
        ),
    );
    profiles.push(
        profile(
            "security",
            "Security Filter",
            "Filter Keamanan",
            "Blocks phishing, malware, and malicious domains without filtering adult content.",
            "Memblokir phishing, malware, dan domain berbahaya tanpa filter konten dewasa.",
            "SECURITY",
            "KEAMANAN",
            "185.228.168.9",
            "185.228.169.9",
            "2a0d:2a00:1::2",
            "2a0d:2a00:2::2",
        ),
    );
    assert(profile_views(profiles@) =~= spec_bundled_cleanbrowsing().profiles);
    provider(
        "cleanbrowsing",
        "CleanBrowsing",
        "185.228.168.168",
        "185.228.169.168",
        "2a0d:2a00:1::",
        "2a0d:2a00:2::",
        "Family-friendly resolver blocking adult content and phishing.",
        "Resolver ramah keluarga yang memblokir konten dewasa dan phishing.",
        "security",
        "Safe for kids and families, blocks malicious content",
        "Aman untuk keluarga dan anak, memblokir konten berbahaya",
        "May restrict access to mixed-content or false-positive domains",
        "Dapat membatasi akses ke domain berkonten campuran",
        profiles,
    )
}

fn bundled_control_d() -> (r: DnsProvider)
    ensures
        r@ == spec_bundled_control_d(),
{
    let mut profiles: Vec<DnsProfile> = Vec::new();
    profiles.push(
        profile(
            "ads-malware",
            "Ads & Malware Blocking",
            "Blokir Iklan, Pelacak & Malware",
            "Blocks advertisements, tracking domains, malware, and phishing sites.",
            "Memblokir iklan, pelacak data, malware, dan situs penipuan phishing.",
            "ADS & MALWARE",
            "IKLAN & MALWARE",
            "76.76.2.2",
            "76.76.10.2",
            "2606:1a40::2",
            "2606:1a40:1::2",
        ),
    );
    profiles.push(
        profile(
            "malware",
            "Malware Protection Only",
            "Proteksi Malware Saja",
            "Blocks malicious domains and phishing without altering web advertisements.",
            "Hanya memblokir malware dan phishing tanpa mengubah iklan pada situs.",
            "SECURITY",
            "KEAMANAN",
            "76.76.2.1",
            "76.76.10.1",
            "2606:1a40::1",
            "2606:1a40:1::1",
        ),
    );
    profiles.push(
        profile(
            "family",
            "Family Friendly",
            "Ramah Keluarga",
            "Blocks adult content, malware, and deceptive websites for household browsing.",
            "Memblokir pornografi, malware, dan situs berbahaya untuk seluruh anggota keluarga.",
            "FAMILY SAFE",
            "RAMAH KELUARGA",
            "76.76.2.3",
            "76.76.10.3",
            "2606:1a40::3",
            "2606:1a40:1::3",
        ),
    );
    profiles.push(
        profile(
            "social",
            "Block Social Media",
            "Blokir Media Sosial",
            "Blocks popular social media platforms for productivity and focused study.",
            "Memblokir platform media sosial untuk fokus bekerja dan belajar.",
            "PRODUCTIVITY",
            "PRODUKTIVITAS",
            "76.76.2.4",
            "76.76.10.4",
            "2606:1a40::4",
            "2606:1a40:1::4",
        ),
    );
    profiles.push(
        profile(
            "unfiltered",
            "Unfiltered / Standard",
            "Tanpa Filter / Standar",
            "High performance Anycast DNS resolution without any content filters.",
            "Resolusi DNS Anycast cepat dan andal tanpa pemfilteran konten apa pun.",
            "UNFILTERED",
            "TANPA FILTER",
            "76.76.2.0",
            "76.76.10.0",
            "2606:1a40::",
            "2606:1a40:1::",
        ),
    );
    assert(profile_views(profiles@) =~= spec_bundled_control_d().profiles);
    provider(
        "control-d",
        "Control D",
        "76.76.2.2",
        "76.76.10.2",
        "2606:1a40::2",
        "2606:1a40:1::2",
        "Modern customizable resolver blocking ads, malware, and trackers.",
        "Resolver modern yang memblokir iklan, malware, dan pelacak.",
        "ad-blocking",
        "Fast Anycast network, built-in malware & ad blocking",
        "Jaringan Anycast cepat, pemblokir malware & iklan bawaan",
        "Custom profile features require an online Control D account",
        "Fitur kustomisasi profil lanjutan membutuhkan akun Control D",
        profiles,
    )
}

fn bundled_nextdns() -> (r: DnsProvider)
    ensures
        r@ == spec_bundled_nextdns(),
{
    let mut profiles: Vec<DnsProfile> = Vec::new();
    profiles.push(
        profile(
            "standard",
            "Standard Anycast",
            "Standar Anycast",
            "Standard Anycast resolver without custom profile linking.",
            "Resolver Anycast standar NextDNS tanpa penautan profil akun kustom.",
            "CLOUD PRIVACY",
            "PRIVASI CLOUD",
            "45.90.28.0",
            "45.90.30.0",
            "2a07:a8c0::",
            "2a07:a8c1::",
        ),
    );
    assert(profile_views(profiles@) =~= spec_bundled_nextdns().profiles);
    provider(
        "nextdns",
        "NextDNS",
        "45.90.28.0",
        "45.90.30.0",
        "2a07:a8c0::",
        "2a07:a8c1::",
        "Cloud-based resolver with advanced privacy controls and threat prevention.",
        "Resolver berbasis cloud dengan privasi tinggi dan pencegahan ancaman.",
        "privacy",
        "Powerful analytics, granular privacy and security filters",
        "Analitik andal, filter privasi dan keamanan terperinci",
        "Custom blocking rules require linking an account profile ID",
        "Aturan pemblokiran kustom memerlukan penautan profil akun",
        profiles,
    )
}

fn bundled_opendns() -> (r: DnsProvider)
    ensures
        r@ == spec_bundled_opendns(),
{
    let mut profiles: Vec<DnsProfile> = Vec::new();
    profiles.push(
        profile(
            "standard",
            "Home Standard",
            "Standar (Anti-Phishing)",
            "Cisco OpenDNS with automatic phishing protection and 100% uptime.",
            "Cisco OpenDNS dengan proteksi phishing otomatis dan ketersediaan 100%.",
            "ENTERPRISE",
            "ENTERPRISE",
            "208.67.222.222",
            "208.67.220.220",
            "2620:119:35::35",
            "2620:119:53::53",
        ),
    );
    profiles.push(
        profile(
            "familyshield",
            "FamilyShield",
            "FamilyShield (Blokir Dewasa)",
            "Pre-configured to automatically block adult and illicit content out-of-the-box.",
            "Otomatis memblokir konten dewasa dan pornografi langsung tanpa konfigurasi tambahan.",
            "FAMILY SAFE",
            "RAMAH KELUARGA",
            "208.67.222.123",
            "208.67.220.123",
            "2620:119:35::123",
            "2620:119:53::123",
        ),
    );
    assert(profile_views(profiles@) =~= spec_bundled_opendns().profiles);
    provider(
        "opendns",
        "OpenDNS",
        "208.67.222.222",
        "208.67.220.220",
        "2620:119:35::35",
        "2620:119:53::53",
        "Reliable enterprise-grade resolver by Cisco with phishing protection.",
        "Resolver andal kelas enterprise dari Cisco dengan perlindungan phishing.",
        "security",
        "Backed by Cisco infrastructure, 100% uptime, fast lookup",
        "Didukung infrastruktur Cisco, uptime 100%, lookup cepat",
        "May redirect NXDOMAIN errors to search suggestions page",
        "Dapat mengarahkan error NXDOMAIN ke halaman saran pencarian",
        profiles,
    )
}

} // verus!
